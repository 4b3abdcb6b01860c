//! The in-app changelog viewer's markdown scanner.
//!
//! `parse_changelog` is a line-based scanner over a Keep-a-Changelog
//! document: version headers, `###` subsections and `- ` bullets (with
//! wrapped continuation lines folded in). `parse_inline_md` splits one
//! bullet body into typed inline spans.
//!
//! Both work on characters. Every delimiter they look for is ASCII, so a
//! character-level scan finds exactly the positions a byte-level scan of
//! the UTF-8 encoding finds.
use crate::text::{
    chars_eq_ignore_ascii_case, chars_of, contains, contains_seq, eq_ignore_ascii_case, find_char,
    find_double_star, find_from, find_star_pair, lemma_find_double_star_bounds,
    lemma_find_from_bounds, skip_char_forward, skip_ws_backward, skip_ws_forward, starts_with,
    string_of_range, trim_end, trim_start, trim_start_char, vec_of_range, is_ws,
};
use vstd::prelude::*;

verus! {

// ---------------------------------------------------------------------
// Inline spans
// ---------------------------------------------------------------------

/// One run of inline text inside a bullet.
#[derive(Debug, Clone, PartialEq)]
pub enum InlineSpan {
    Plain(String),
    Bold(String),
    Italic(String),
    Code(String),
    Link { text: String, url: String },
}

/// The mathematical content of an [`InlineSpan`].
pub enum SpanText {
    Plain(Seq<char>),
    Bold(Seq<char>),
    Italic(Seq<char>),
    Code(Seq<char>),
    Link { text: Seq<char>, url: Seq<char> },
}

impl View for InlineSpan {
    type V = SpanText;

    open spec fn view(&self) -> SpanText {
        match self {
            InlineSpan::Plain(t) => SpanText::Plain(t@),
            InlineSpan::Bold(t) => SpanText::Bold(t@),
            InlineSpan::Italic(t) => SpanText::Italic(t@),
            InlineSpan::Code(t) => SpanText::Code(t@),
            InlineSpan::Link { text, url } => SpanText::Link { text: text@, url: url@ },
        }
    }
}

/// The contents of a sequence of spans.
pub open spec fn spans_text(v: Seq<InlineSpan>) -> Seq<SpanText> {
    v.map_values(|s: InlineSpan| s@)
}

/// A `Plain` span for `c[from..to]`, or nothing when that run is empty.
pub open spec fn plain_run(c: Seq<char>, from: int, to: int) -> Seq<SpanText> {
    if to > from {
        seq![SpanText::Plain(c.subrange(from, to))]
    } else {
        seq![]
    }
}

/// The delimited span that starts at `c[i]`, with the position just past
/// it, if one starts there. Tried in order: `**bold**`, `*italic*` (a
/// single star, non-empty body, closing star not followed by another),
/// `` `code` `` and `[text](url)`.
pub open spec fn token_at(c: Seq<char>, i: int) -> Option<(SpanText, int)> {
    let n = c.len();
    if 0 <= i && i + 1 < n && c[i] == '*' && c[i + 1] == '*' && find_double_star(c, i + 2) is Some {
        let p = find_double_star(c, i + 2)->0;
        Some((SpanText::Bold(c.subrange(i + 2, p)), p + 2))
    } else if 0 <= i && i < n && c[i] == '*' && (i + 1 >= n || c[i + 1] != '*') && find_from(
        c,
        i + 1,
        '*',
    ) is Some && !(find_from(c, i + 1, '*')->0 + 1 < n && c[find_from(c, i + 1, '*')->0 + 1]
        == '*') && find_from(c, i + 1, '*')->0 > i + 1 {
        let close = find_from(c, i + 1, '*')->0;
        Some((SpanText::Italic(c.subrange(i + 1, close)), close + 1))
    } else if 0 <= i && i < n && c[i] == '`' && find_from(c, i + 1, '`') is Some {
        let e = find_from(c, i + 1, '`')->0;
        Some((SpanText::Code(c.subrange(i + 1, e)), e + 1))
    } else if 0 <= i && i < n && c[i] == '[' && find_from(c, i + 1, ']') is Some && find_from(
        c,
        i + 1,
        ']',
    )->0 + 1 < n && c[find_from(c, i + 1, ']')->0 + 1] == '(' && find_from(
        c,
        find_from(c, i + 1, ']')->0 + 2,
        ')',
    ) is Some {
        let te = find_from(c, i + 1, ']')->0;
        let ue = find_from(c, te + 2, ')')->0;
        Some((SpanText::Link { text: c.subrange(i + 1, te), url: c.subrange(te + 2, ue) }, ue + 1))
    } else {
        None
    }
}

pub proof fn lemma_token_at(c: Seq<char>, i: int)
    requires
        0 <= i < c.len(),
    ensures
        token_at(c, i) matches Some((t, e)) ==> i < e <= c.len() && c.subrange(i, e)
            == markup(t),
{
    let n = c.len();
    lemma_find_double_star_bounds(c, i + 2);
    lemma_find_from_bounds(c, i + 1, '*');
    lemma_find_from_bounds(c, i + 1, '`');
    lemma_find_from_bounds(c, i + 1, ']');
    if i + 1 < n && c[i] == '*' && c[i + 1] == '*' && find_double_star(c, i + 2) is Some {
        let p = find_double_star(c, i + 2)->0;
        assert(c.subrange(i, p + 2) =~= seq!['*', '*'] + c.subrange(i + 2, p) + seq!['*', '*']);
    } else if c[i] == '*' && (i + 1 >= n || c[i + 1] != '*') && find_from(c, i + 1, '*') is Some
        && !(find_from(c, i + 1, '*')->0 + 1 < n && c[find_from(c, i + 1, '*')->0 + 1] == '*')
        && find_from(c, i + 1, '*')->0 > i + 1 {
        let close = find_from(c, i + 1, '*')->0;
        assert(c.subrange(i, close + 1) =~= seq!['*'] + c.subrange(i + 1, close) + seq!['*']);
    } else if c[i] == '`' && find_from(c, i + 1, '`') is Some {
        let e = find_from(c, i + 1, '`')->0;
        assert(c.subrange(i, e + 1) =~= seq!['`'] + c.subrange(i + 1, e) + seq!['`']);
    } else if c[i] == '[' && find_from(c, i + 1, ']') is Some && find_from(c, i + 1, ']')->0 + 1
        < n && c[find_from(c, i + 1, ']')->0 + 1] == '(' && find_from(
        c,
        find_from(c, i + 1, ']')->0 + 2,
        ')',
    ) is Some {
        let te = find_from(c, i + 1, ']')->0;
        lemma_find_from_bounds(c, te + 2, ')');
        let ue = find_from(c, te + 2, ')')->0;
        assert(c.subrange(i, ue + 1) =~= seq!['['] + c.subrange(i + 1, te) + seq![']', '(']
            + c.subrange(te + 2, ue) + seq![')']);
    }
}

/// The spans of `c[i..]`, given that the pending plain run starts at `ps`.
pub open spec fn scan_inline(c: Seq<char>, i: int, ps: int) -> Seq<SpanText>
    decreases c.len() - i,
{
    if i < 0 || i >= c.len() {
        plain_run(c, ps, c.len() as int)
    } else {
        match token_at(c, i) {
            Some((t, e)) => {
                proof {
                    lemma_token_at(c, i);
                }
                plain_run(c, ps, i) + seq![t] + scan_inline(c, e, e)
            },
            None => scan_inline(c, i + 1, ps),
        }
    }
}

/// The spans of a whole bullet body.
pub open spec fn inline_spans(c: Seq<char>) -> Seq<SpanText> {
    scan_inline(c, 0, 0)
}

/// The markdown text a span was read from, delimiters included.
pub open spec fn markup(t: SpanText) -> Seq<char> {
    match t {
        SpanText::Plain(s) => s,
        SpanText::Bold(s) => seq!['*', '*'] + s + seq!['*', '*'],
        SpanText::Italic(s) => seq!['*'] + s + seq!['*'],
        SpanText::Code(s) => seq!['`'] + s + seq!['`'],
        SpanText::Link { text, url } => seq!['['] + text + seq![']', '('] + url + seq![')'],
    }
}

/// The markdown text of a sequence of spans, concatenated.
pub open spec fn markup_all(ts: Seq<SpanText>) -> Seq<char>
    decreases ts.len(),
{
    if ts.len() == 0 {
        seq![]
    } else {
        markup(ts[0]) + markup_all(ts.drop_first())
    }
}

pub proof fn lemma_markup_all_append(a: Seq<SpanText>, b: Seq<SpanText>)
    ensures
        markup_all(a + b) == markup_all(a) + markup_all(b),
    decreases a.len(),
{
    if a.len() == 0 {
        assert(a + b =~= b);
    } else {
        assert((a + b).drop_first() =~= a.drop_first() + b);
        lemma_markup_all_append(a.drop_first(), b);
        assert(markup_all(a + b) =~= markup_all(a) + markup_all(b));
    }
}

proof fn lemma_markup_all_single(t: SpanText)
    ensures
        markup_all(seq![t]) == markup(t),
{
    assert(seq![t].drop_first() =~= Seq::<SpanText>::empty());
    assert(markup_all(seq![t]) =~= markup(t) + markup_all(Seq::<SpanText>::empty()));
    assert(markup(t) + Seq::<char>::empty() =~= markup(t));
}

proof fn lemma_scan_markup(c: Seq<char>, i: int, ps: int)
    requires
        0 <= ps <= i <= c.len(),
    ensures
        markup_all(scan_inline(c, i, ps)) == c.subrange(ps, c.len() as int),
    decreases c.len() - i,
{
    let n = c.len() as int;
    if i >= n {
        if n > ps {
            lemma_markup_all_single(SpanText::Plain(c.subrange(ps, n)));
        } else {
            assert(c.subrange(ps, n) =~= Seq::<char>::empty());
        }
    } else {
        match token_at(c, i) {
            Some((t, e)) => {
                lemma_token_at(c, i);
                lemma_scan_markup(c, e, e);
                let pre = plain_run(c, ps, i);
                lemma_markup_all_append(pre + seq![t], scan_inline(c, e, e));
                lemma_markup_all_append(pre, seq![t]);
                lemma_markup_all_single(t);
                if i > ps {
                    lemma_markup_all_single(SpanText::Plain(c.subrange(ps, i)));
                } else {
                    assert(markup_all(pre) =~= c.subrange(ps, i));
                }
                assert(c.subrange(ps, n) =~= c.subrange(ps, i) + c.subrange(i, e) + c.subrange(
                    e,
                    n,
                ));
            },
            None => {
                lemma_scan_markup(c, i + 1, ps);
            },
        }
    }
}

/// Law: the spans of a bullet partition it. Writing each span back out with
/// its delimiters gives the bullet body character for character, so no
/// text is lost or duplicated, and an unbalanced delimiter stays in the
/// surrounding plain text.
pub proof fn lemma_inline_spans_partition(c: Seq<char>)
    ensures
        markup_all(inline_spans(c)) == c,
{
    lemma_scan_markup(c, 0, 0);
    assert(c.subrange(0, c.len() as int) =~= c);
}

proof fn lemma_scan_plain_nonempty(c: Seq<char>, i: int, ps: int)
    requires
        0 <= ps <= i <= c.len(),
    ensures
        forall|k: int|
            0 <= k < scan_inline(c, i, ps).len() ==> (#[trigger] scan_inline(c, i, ps)[k] matches SpanText::Plain(t) ==> t.len() > 0),
    decreases c.len() - i,
{
    let n = c.len() as int;
    if i < n {
        match token_at(c, i) {
            Some((t, e)) => {
                lemma_token_at(c, i);
                lemma_scan_plain_nonempty(c, e, e);
            },
            None => {
                lemma_scan_plain_nonempty(c, i + 1, ps);
            },
        }
    }
}

/// Law: the scanner never emits an empty `Plain` span.
pub proof fn lemma_inline_plain_nonempty(c: Seq<char>)
    ensures
        forall|k: int|
            0 <= k < inline_spans(c).len() ==> (#[trigger] inline_spans(c)[k] matches SpanText::Plain(t) ==> t.len() > 0),
{
    lemma_scan_plain_nonempty(c, 0, 0);
}

/// No delimited span starts anywhere in a text with at most one `*` and no
/// `` ` `` or `[`.
proof fn lemma_no_token(c: Seq<char>, i: int)
    requires
        0 <= i < c.len(),
        forall|k: int| 0 <= k < c.len() ==> c[k] != '`' && c[k] != '[',
        forall|a: int, b: int| 0 <= a < b < c.len() ==> !(c[a] == '*' && c[b] == '*'),
    ensures
        token_at(c, i) is None,
{
    lemma_find_from_bounds(c, i + 1, '*');
}

proof fn lemma_scan_all_plain(c: Seq<char>, i: int)
    requires
        0 <= i <= c.len(),
        forall|k: int| 0 <= k < c.len() ==> c[k] != '`' && c[k] != '[',
        forall|a: int, b: int| 0 <= a < b < c.len() ==> !(c[a] == '*' && c[b] == '*'),
    ensures
        scan_inline(c, i, 0) == plain_run(c, 0, c.len() as int),
    decreases c.len() - i,
{
    if i < c.len() {
        lemma_no_token(c, i);
        lemma_scan_all_plain(c, i + 1);
    }
}

/// Law: an unbalanced delimiter does not eat the rest of the bullet. A
/// bullet with a lone `*` (and no code or link delimiters) is read as one
/// plain span holding the whole text.
pub proof fn lemma_lone_star_stays_plain(c: Seq<char>)
    requires
        c.len() > 0,
        forall|k: int| 0 <= k < c.len() ==> c[k] != '`' && c[k] != '[',
        forall|a: int, b: int| 0 <= a < b < c.len() ==> !(c[a] == '*' && c[b] == '*'),
    ensures
        inline_spans(c) == seq![SpanText::Plain(c)],
{
    lemma_scan_all_plain(c, 0);
    assert(c.subrange(0, c.len() as int) =~= c);
}

/// The delimited span that starts at `c[i]`, if any (as `token_at`).
fn token_at_exec(c: &Vec<char>, i: usize) -> (r: Option<(InlineSpan, usize)>)
    requires
        i < c@.len(),
    ensures
        match r {
            Some((s, e)) => token_at(c@, i as int) == Some((s@, e as int)),
            None => token_at(c@, i as int) is None,
        },
{
    let n = c.len();
    proof {
        lemma_find_double_star_bounds(c@, i + 2);
        lemma_find_from_bounds(c@, i + 1, '*');
        lemma_find_from_bounds(c@, i + 1, '`');
        lemma_find_from_bounds(c@, i + 1, ']');
    }
    // `**bold**`
    if i + 1 < n && c[i] == '*' && c[i + 1] == '*' {
        if let Some(p) = find_star_pair(c, i + 2) {
            let text = string_of_range(c, i + 2, p);
            return Some((InlineSpan::Bold(text), p + 2));
        }
    }
    // `*italic*`
    if c[i] == '*' && (i + 1 >= n || c[i + 1] != '*') {
        if let Some(close) = find_char(c, i + 1, '*') {
            let next_is_star = close + 1 < n && c[close + 1] == '*';
            if !next_is_star && close > i + 1 {
                let text = string_of_range(c, i + 1, close);
                return Some((InlineSpan::Italic(text), close + 1));
            }
        }
    }
    // `` `code` ``
    if c[i] == '`' {
        if let Some(e) = find_char(c, i + 1, '`') {
            let text = string_of_range(c, i + 1, e);
            return Some((InlineSpan::Code(text), e + 1));
        }
    }
    // `[text](url)`
    if c[i] == '[' {
        if let Some(te) = find_char(c, i + 1, ']') {
            if te + 1 < n && c[te + 1] == '(' {
                if let Some(ue) = find_char(c, te + 2, ')') {
                    let text = string_of_range(c, i + 1, te);
                    let url = string_of_range(c, te + 2, ue);
                    return Some((InlineSpan::Link { text, url }, ue + 1));
                }
            }
        }
    }
    None
}

/// Split a bullet body (as characters) into typed spans.
pub fn parse_inline_chars(c: &Vec<char>) -> (r: Vec<InlineSpan>)
    ensures
        spans_text(r@) == inline_spans(c@),
{
    let n = c.len();
    let mut spans: Vec<InlineSpan> = Vec::new();
    let mut plain_start: usize = 0;
    let mut i: usize = 0;
    while i < n
        invariant
            n == c@.len(),
            plain_start <= i <= n,
            spans_text(spans@) + scan_inline(c@, i as int, plain_start as int) == inline_spans(
                c@,
            ),
        decreases n - i,
    {
        let tok = token_at_exec(c, i);
        match tok {
            Some((span, e)) => {
                proof {
                    lemma_token_at(c@, i as int);
                }
                let ghost before = spans_text(spans@);
                if i > plain_start {
                    let text = string_of_range(c, plain_start, i);
                    spans.push(InlineSpan::Plain(text));
                }
                assert(spans_text(spans@) =~= before + plain_run(c@, plain_start as int, i as int));
                let ghost mid = spans_text(spans@);
                spans.push(span);
                assert(spans_text(spans@) =~= mid + seq![span@]);
                assert(scan_inline(c@, i as int, plain_start as int) == plain_run(
                    c@,
                    plain_start as int,
                    i as int,
                ) + seq![span@] + scan_inline(c@, e as int, e as int));
                assert(spans_text(spans@) + scan_inline(c@, e as int, e as int) =~= before
                    + scan_inline(c@, i as int, plain_start as int));
                i = e;
                plain_start = e;
            },
            None => {
                i = i + 1;
            },
        }
    }
    let ghost before = spans_text(spans@);
    if n > plain_start {
        let text = string_of_range(c, plain_start, n);
        spans.push(InlineSpan::Plain(text));
    }
    assert(spans_text(spans@) =~= before + plain_run(c@, plain_start as int, n as int));
    spans
}

/// Split a bullet body into typed [`InlineSpan`]s. Handles `**bold**`,
/// `*italic*`, `` `code` `` and `[text](url)`; anything else is `Plain`.
/// Unbalanced delimiters degrade into `Plain` runs.
pub fn parse_inline_md(s: &str) -> (r: Vec<InlineSpan>)
    ensures
        spans_text(r@) == inline_spans(s@),
{
    let c = chars_of(s);
    parse_inline_chars(&c)
}

// ---------------------------------------------------------------------
// Document structure
// ---------------------------------------------------------------------

/// A single structural element extracted from the changelog markdown.
#[derive(Debug, Clone, PartialEq)]
pub enum ChangelogNode {
    /// `## [X.Y.Z] — YYYY-MM-DD`, split into the bracketed tag and the date.
    VersionHeader { tag: String, date: String },
    /// `### Added` / `### Changed` / `### Fixed` / `### Removed`.
    Subsection(String),
    /// A `- ` bullet item with its continuation lines folded in, split into
    /// inline spans.
    Bullet(Vec<InlineSpan>),
}

/// The mathematical content of a [`ChangelogNode`].
pub enum NodeText {
    VersionHeader { tag: Seq<char>, date: Seq<char> },
    Subsection(Seq<char>),
    Bullet(Seq<SpanText>),
}

impl View for ChangelogNode {
    type V = NodeText;

    open spec fn view(&self) -> NodeText {
        match self {
            ChangelogNode::VersionHeader { tag, date } => NodeText::VersionHeader {
                tag: tag@,
                date: date@,
            },
            ChangelogNode::Subsection(t) => NodeText::Subsection(t@),
            ChangelogNode::Bullet(spans) => NodeText::Bullet(spans_text(spans@)),
        }
    }
}

/// The contents of a sequence of nodes.
pub open spec fn nodes_text(v: Seq<ChangelogNode>) -> Seq<NodeText> {
    v.map_values(|n: ChangelogNode| n@)
}

/// What the scanner carries from one line to the next: the nodes so far,
/// the bullet still being assembled, and whether the current section (the
/// `[Unreleased]` one) is being skipped.
pub struct ScanState {
    pub out: Seq<NodeText>,
    pub buffer: Option<Seq<char>>,
    pub suppress: bool,
}

pub open spec fn initial_scan() -> ScanState {
    ScanState { out: seq![], buffer: None, suppress: false }
}

/// Emit the pending bullet, if any.
pub open spec fn flush(st: ScanState) -> ScanState {
    match st.buffer {
        Some(b) => ScanState {
            out: st.out.push(NodeText::Bullet(inline_spans(b))),
            buffer: None,
            suppress: st.suppress,
        },
        None => st,
    }
}

/// `"##"`, `"- "` and an empty line close any open bullet.
pub open spec fn is_structural(line: Seq<char>) -> bool {
    starts_with(line, seq!['#', '#']) || starts_with(line, seq!['-', ' ']) || line.len() == 0
}

/// A trailing link reference such as `[0.3.0]: https://...`.
pub open spec fn is_link_reference(line: Seq<char>) -> bool {
    starts_with(line, seq!['[']) && contains(line, seq![']', ':', ' ', 'h', 't', 't', 'p'])
}

/// The tag and date of a `## [tag] — date` line, if the line is one.
pub open spec fn version_header(line: Seq<char>) -> Option<(Seq<char>, Seq<char>)> {
    if starts_with(line, seq!['#', '#', ' ', '[']) && find_from(line, 4, ']') is Some {
        let p = find_from(line, 4, ']')->0;
        let after = line.subrange(p + 1, line.len() as int);
        let date = trim_start(
            trim_start_char(trim_start_char(trim_start_char(after, ' '), '\u{2014}'), '-'),
        );
        Some((line.subrange(4, p), date))
    } else {
        None
    }
}

pub open spec fn unreleased() -> Seq<char> {
    seq!['u', 'n', 'r', 'e', 'l', 'e', 'a', 's', 'e', 'd']
}

/// The effect of one (right-trimmed) line on the scanner.
pub open spec fn scan_line(st: ScanState, line: Seq<char>) -> ScanState {
    let st1 = if is_structural(line) {
        flush(st)
    } else {
        st
    };
    if is_link_reference(line) {
        st1
    } else if version_header(line) is Some {
        let (tag, date) = version_header(line)->0;
        if eq_ignore_ascii_case(tag, unreleased()) {
            ScanState { suppress: true, ..st1 }
        } else {
            ScanState {
                out: st1.out.push(NodeText::VersionHeader { tag, date }),
                suppress: false,
                ..st1
            }
        }
    } else if st1.suppress {
        st1
    } else if starts_with(line, seq!['#', '#', '#', ' ']) {
        ScanState { out: st1.out.push(NodeText::Subsection(line.skip(4))), ..st1 }
    } else if starts_with(line, seq!['-', ' ']) {
        ScanState { buffer: Some(line.skip(2)), ..st1 }
    } else if st1.buffer is Some && line.len() > 0 {
        ScanState { buffer: Some(st1.buffer->0 + seq![' '] + trim_start(line)), ..st1 }
    } else {
        st1
    }
}

/// Where the line starting at `pos` ends (its `'\n'`, or the end of text).
pub open spec fn line_end(c: Seq<char>, pos: int) -> int {
    match find_from(c, pos, '\n') {
        Some(p) => p,
        None => c.len() as int,
    }
}

/// Where the line after the one starting at `pos` starts.
pub open spec fn next_line(c: Seq<char>, pos: int) -> int {
    match find_from(c, pos, '\n') {
        Some(p) => p + 1,
        None => c.len() as int,
    }
}

/// The lines of `c[pos..]`, as `str::lines` yields them (a final line
/// ending does not start another line).
pub open spec fn lines_from(c: Seq<char>, pos: int) -> Seq<Seq<char>>
    decreases c.len() - pos,
{
    if pos < 0 || pos >= c.len() {
        seq![]
    } else {
        proof {
            lemma_find_from_bounds(c, pos, '\n');
            assert(next_line(c, pos) > pos);
        }
        seq![c.subrange(pos, line_end(c, pos))] + lines_from(c, next_line(c, pos))
    }
}

/// Run the scanner over `lines`, right-trimming each one first.
pub open spec fn scan_lines(st: ScanState, lines: Seq<Seq<char>>) -> ScanState
    decreases lines.len(),
{
    if lines.len() == 0 {
        st
    } else {
        scan_lines(scan_line(st, trim_end(lines[0])), lines.drop_first())
    }
}

/// The nodes of a whole changelog document.
pub open spec fn changelog_nodes(c: Seq<char>) -> Seq<NodeText> {
    flush(scan_lines(initial_scan(), lines_from(c, 0))).out
}

/// No node in `out` is the header of an `[Unreleased]` section.
pub open spec fn no_unreleased_header(out: Seq<NodeText>) -> bool {
    forall|k: int|
        0 <= k < out.len() ==> (#[trigger] out[k] matches NodeText::VersionHeader { tag, .. }
            ==> !eq_ignore_ascii_case(tag, unreleased()))
}

proof fn lemma_scan_lines_no_unreleased(st: ScanState, lines: Seq<Seq<char>>)
    requires
        no_unreleased_header(st.out),
    ensures
        no_unreleased_header(scan_lines(st, lines).out),
    decreases lines.len(),
{
    if lines.len() > 0 {
        let next = scan_line(st, trim_end(lines[0]));
        assert(no_unreleased_header(flush(st).out)) by {
            assert forall|k: int| 0 <= k < flush(st).out.len() implies (#[trigger] flush(
                st,
            ).out[k] matches NodeText::VersionHeader { tag, .. } ==> !eq_ignore_ascii_case(
                tag,
                unreleased(),
            )) by {
                if k < st.out.len() {
                    assert(flush(st).out[k] == st.out[k]);
                }
            }
        }
        assert(no_unreleased_header(next.out)) by {
            let st1 = if is_structural(trim_end(lines[0])) {
                flush(st)
            } else {
                st
            };
            assert forall|k: int| 0 <= k < next.out.len() implies (#[trigger] next.out[k] matches NodeText::VersionHeader { tag, .. }
                ==> !eq_ignore_ascii_case(tag, unreleased())) by {
                if k < st1.out.len() {
                    assert(next.out[k] == st1.out[k]);
                }
            }
        }
        lemma_scan_lines_no_unreleased(next, lines.drop_first());
    }
}

/// Law: the scanner skips the `[Unreleased]` section. No version header in
/// the result carries the `Unreleased` tag, in any letter case.
pub proof fn lemma_changelog_skips_unreleased(c: Seq<char>)
    ensures
        no_unreleased_header(changelog_nodes(c)),
{
    lemma_scan_lines_no_unreleased(initial_scan(), lines_from(c, 0));
    let st = scan_lines(initial_scan(), lines_from(c, 0));
    assert forall|k: int| 0 <= k < flush(st).out.len() implies (#[trigger] flush(st).out[k] matches NodeText::VersionHeader { tag, .. }
        ==> !eq_ignore_ascii_case(tag, unreleased())) by {
        if k < st.out.len() {
            assert(flush(st).out[k] == st.out[k]);
        }
    }
}

/// The nodes of `st` once the bullet it is still assembling, if any, is
/// emitted.
pub open spec fn with_pending_bullet(st: ScanState) -> Seq<NodeText> {
    match st.buffer {
        Some(b) => st.out.push(NodeText::Bullet(inline_spans(b))),
        None => st.out,
    }
}

/// Law: a `### ` heading adds its subsection. Outside the skipped
/// `[Unreleased]` section, a right-trimmed line that starts with `### `
/// closes any bullet being assembled and adds exactly one node,
/// `Subsection` of the line without its first four characters.
pub proof fn lemma_subsection_line(st: ScanState, line: Seq<char>)
    requires
        !st.suppress,
        line.len() >= 4,
        line[0] == '#' && line[1] == '#' && line[2] == '#' && line[3] == ' ',
    ensures
        scan_line(st, line).out == with_pending_bullet(st).push(
            NodeText::Subsection(line.subrange(4, line.len() as int)),
        ),
        scan_line(st, line).buffer is None,
        !scan_line(st, line).suppress,
{
    assert(line.subrange(0, 2) =~= seq!['#', '#']);
    assert(line.subrange(0, 4) =~= seq!['#', '#', '#', ' ']);
    assert(!starts_with(line, seq!['[']));
    assert(!starts_with(line, seq!['#', '#', ' ', '['])) by {
        if line.subrange(0, 4) == seq!['#', '#', ' ', '['] {
            assert(line.subrange(0, 4)[2] == line[2]);
        }
    }
    assert(line.skip(4) =~= line.subrange(4, line.len() as int));
}

/// Law: a `- ` line starts a bullet. Outside the skipped section it closes
/// any bullet being assembled, adds no other node, and starts a new bullet
/// with the line's text after the marker.
pub proof fn lemma_bullet_line(st: ScanState, line: Seq<char>)
    requires
        !st.suppress,
        line.len() >= 2,
        line[0] == '-' && line[1] == ' ',
    ensures
        scan_line(st, line).out == with_pending_bullet(st),
        scan_line(st, line).buffer == Some(line.subrange(2, line.len() as int)),
        !scan_line(st, line).suppress,
{
    assert(line.subrange(0, 2) =~= seq!['-', ' ']);
    assert(!starts_with(line, seq!['[']));
    assert(!starts_with(line, seq!['#', '#'])) by {
        if line.len() >= 2 && line.subrange(0, 2) == seq!['#', '#'] {
            assert(line.subrange(0, 2)[0] == line[0]);
        }
    }
    assert(!starts_with(line, seq!['#', '#', ' ', '['])) by {
        if line.len() >= 4 && line.subrange(0, 4) == seq!['#', '#', ' ', '['] {
            assert(line.subrange(0, 4)[0] == line[0]);
        }
    }
    assert(!starts_with(line, seq!['#', '#', '#', ' '])) by {
        if line.len() >= 4 && line.subrange(0, 4) == seq!['#', '#', '#', ' '] {
            assert(line.subrange(0, 4)[0] == line[0]);
        }
    }
    assert(line.skip(2) =~= line.subrange(2, line.len() as int));
}

/// Law: a plain text line continues the bullet being assembled. Outside the
/// skipped section, a non-empty line that is not a heading, a bullet or a
/// link reference adds no node and joins the bullet's text with one space.
pub proof fn lemma_continuation_line(st: ScanState, line: Seq<char>)
    requires
        !st.suppress,
        st.buffer is Some,
        line.len() >= 1,
        line[0] != '#' && line[0] != '-' && line[0] != '[',
    ensures
        scan_line(st, line).out == st.out,
        scan_line(st, line).buffer == Some(st.buffer->0 + seq![' '] + trim_start(line)),
        !scan_line(st, line).suppress,
{
    assert(!starts_with(line, seq!['['])) by {
        if line.subrange(0, 1) == seq!['['] {
            assert(line.subrange(0, 1)[0] == line[0]);
        }
    }
    assert(!starts_with(line, seq!['#', '#'])) by {
        if line.len() >= 2 && line.subrange(0, 2) == seq!['#', '#'] {
            assert(line.subrange(0, 2)[0] == line[0]);
        }
    }
    assert(!starts_with(line, seq!['-', ' '])) by {
        if line.len() >= 2 && line.subrange(0, 2) == seq!['-', ' '] {
            assert(line.subrange(0, 2)[0] == line[0]);
        }
    }
    assert(!starts_with(line, seq!['#', '#', ' ', '['])) by {
        if line.len() >= 4 && line.subrange(0, 4) == seq!['#', '#', ' ', '['] {
            assert(line.subrange(0, 4)[0] == line[0]);
        }
    }
    assert(!starts_with(line, seq!['#', '#', '#', ' '])) by {
        if line.len() >= 4 && line.subrange(0, 4) == seq!['#', '#', '#', ' '] {
            assert(line.subrange(0, 4)[0] == line[0]);
        }
    }
}

proof fn lemma_find_first(s: Seq<char>, from: int, ch: char, p: int)
    requires
        0 <= from <= p < s.len(),
        s[p] == ch,
        forall|j: int| from <= j < p ==> s[j] != ch,
    ensures
        find_from(s, from, ch) == Some(p),
    decreases p - from,
{
    if from < p {
        lemma_find_first(s, from + 1, ch, p);
    }
}

/// The line `## [tag] — date`.
pub open spec fn version_line(tag: Seq<char>, date: Seq<char>) -> Seq<char> {
    seq!['#', '#', ' ', '['] + tag + seq![']', ' ', '\u{2014}', ' '] + date
}

proof fn lemma_version_line_parts(tag: Seq<char>, date: Seq<char>)
    requires
        forall|j: int| 0 <= j < tag.len() ==> tag[j] != ']',
        date.len() == 0 || !is_ws(date[0]),
    ensures
        version_header(version_line(tag, date)) == Some((tag, date)),
        starts_with(version_line(tag, date), seq!['#', '#']),
        !starts_with(version_line(tag, date), seq!['[']),
{
    let line = version_line(tag, date);
    let p: int = 4 + tag.len() as int;
    assert(line.subrange(0, 4) =~= seq!['#', '#', ' ', '[']);
    assert(line.subrange(0, 2) =~= seq!['#', '#']);
    assert forall|j: int| 4 <= j < p implies line[j] != ']' by {
        assert(line[j] == tag[j - 4]);
    }
    assert(line[p] == ']');
    lemma_find_first(line, 4, ']', p);
    assert(line.subrange(4, p) =~= tag);
    let after = line.subrange(p + 1, line.len() as int);
    assert(after =~= seq![' ', '\u{2014}', ' '] + date);
    let a1 = seq!['\u{2014}', ' '] + date;
    assert(after.drop_first() =~= a1);
    assert(trim_start_char(a1, ' ') == a1);
    assert(trim_start_char(after, ' ') == a1);
    let a2 = seq![' '] + date;
    assert(a1.drop_first() =~= a2);
    assert(trim_start_char(a2, '\u{2014}') == a2);
    assert(trim_start_char(a1, '\u{2014}') == a2);
    assert(trim_start_char(a2, '-') == a2);
    assert(is_ws(' '));
    assert(a2.drop_first() =~= date);
    assert(trim_start(date) == date);
    assert(trim_start(a2) == date);
    assert(line[0] == '#');
}

/// Law: a release heading opens its section. A `## [tag] — date` line
/// (the tag without `]`, the date not starting with white space) whose tag
/// is not `Unreleased` closes any bullet being assembled and adds exactly
/// one node, the header with that tag and date; the section is shown.
pub proof fn lemma_version_header_line(st: ScanState, tag: Seq<char>, date: Seq<char>)
    requires
        forall|j: int| 0 <= j < tag.len() ==> tag[j] != ']',
        date.len() == 0 || !is_ws(date[0]),
        !eq_ignore_ascii_case(tag, unreleased()),
    ensures
        scan_line(st, version_line(tag, date)).out == with_pending_bullet(st).push(
            NodeText::VersionHeader { tag, date },
        ),
        scan_line(st, version_line(tag, date)).buffer is None,
        !scan_line(st, version_line(tag, date)).suppress,
{
    lemma_version_line_parts(tag, date);
}

/// Law: the `[Unreleased]` heading starts the skipped section. Its line
/// adds no node beyond closing a pending bullet, and the section is
/// skipped from there on.
pub proof fn lemma_unreleased_line(st: ScanState, tag: Seq<char>, date: Seq<char>)
    requires
        forall|j: int| 0 <= j < tag.len() ==> tag[j] != ']',
        date.len() == 0 || !is_ws(date[0]),
        eq_ignore_ascii_case(tag, unreleased()),
    ensures
        scan_line(st, version_line(tag, date)).out == with_pending_bullet(st),
        scan_line(st, version_line(tag, date)).buffer is None,
        scan_line(st, version_line(tag, date)).suppress,
{
    lemma_version_line_parts(tag, date);
}

/// Law: inside the skipped section nothing is shown. A line that is not a
/// `## [` heading adds no node beyond closing a bullet still pending from
/// before the section, and the section stays skipped.
pub proof fn lemma_suppressed_line(st: ScanState, line: Seq<char>)
    requires
        st.suppress,
        !(line.len() >= 4 && line[0] == '#' && line[1] == '#' && line[2] == ' ' && line[3] == '['),
    ensures
        scan_line(st, line).out == st.out || scan_line(st, line).out == with_pending_bullet(st),
        scan_line(st, line).suppress,
{
    assert(!starts_with(line, seq!['#', '#', ' ', '['])) by {
        if line.len() >= 4 && line.subrange(0, 4) == seq!['#', '#', ' ', '['] {
            assert(line.subrange(0, 4)[0] == line[0]);
            assert(line.subrange(0, 4)[1] == line[1]);
            assert(line.subrange(0, 4)[2] == line[2]);
            assert(line.subrange(0, 4)[3] == line[3]);
        }
    }
}

/// Law: the link references at the end of the document are ignored. A
/// line such as `[0.3.0]: https://...` leaves the scanner as it was.
pub proof fn lemma_link_reference_line(st: ScanState, line: Seq<char>)
    requires
        is_link_reference(line),
    ensures
        scan_line(st, line) == st,
{
    assert(line[0] == '[') by {
        assert(line.subrange(0, 1)[0] == line[0]);
    }
    assert(!starts_with(line, seq!['#', '#'])) by {
        if line.len() >= 2 && line.subrange(0, 2) == seq!['#', '#'] {
            assert(line.subrange(0, 2)[0] == line[0]);
        }
    }
    assert(!starts_with(line, seq!['-', ' '])) by {
        if line.len() >= 2 && line.subrange(0, 2) == seq!['-', ' '] {
            assert(line.subrange(0, 2)[0] == line[0]);
        }
    }
}

/// Law: a document is read line by line. Scanning some lines and then one
/// more is scanning that line, right-trimmed, in the state the first ones
/// left.
pub proof fn lemma_scan_lines_push(st: ScanState, lines: Seq<Seq<char>>, line: Seq<char>)
    ensures
        scan_lines(st, lines.push(line)) == scan_line(scan_lines(st, lines), trim_end(line)),
    decreases lines.len(),
{
    let all = lines.push(line);
    if lines.len() == 0 {
        assert(all.drop_first() =~= Seq::<Seq<char>>::empty());
        assert(all[0] == line);
        let next = scan_line(st, trim_end(line));
        assert(scan_lines(next, all.drop_first()) == next);
        assert(scan_lines(st, all) == scan_lines(next, all.drop_first()));
        assert(scan_lines(st, lines) == st);
    } else {
        let next = scan_line(st, trim_end(lines[0]));
        assert(all.drop_first() =~= lines.drop_first().push(line));
        assert(all[0] == lines[0]);
        lemma_scan_lines_push(next, lines.drop_first(), line);
        assert(scan_lines(st, all) == scan_lines(next, all.drop_first()));
        assert(scan_lines(st, lines) == scan_lines(next, lines.drop_first()));
    }
}

/// The scanner state held by the executable scanner.
pub open spec fn state_of(out: Seq<ChangelogNode>, buffer: Option<Vec<char>>, suppress: bool) -> ScanState {
    ScanState {
        out: nodes_text(out),
        buffer: match buffer {
            Some(b) => Some(b@),
            None => None,
        },
        suppress,
    }
}

fn flush_exec(out: &mut Vec<ChangelogNode>, buffer: &mut Option<Vec<char>>)
    ensures
        state_of(final(out)@, *final(buffer), false) == flush(state_of(old(out)@, *old(buffer), false)),
{
    let taken = buffer.take();
    match taken {
        Some(b) => {
            let spans = parse_inline_chars(&b);
            let ghost before = nodes_text(out@);
            out.push(ChangelogNode::Bullet(spans));
            assert(nodes_text(out@) =~= before.push(NodeText::Bullet(inline_spans(b@))));
        },
        None => {},
    }
}

/// Apply one right-trimmed line to the scanner state.
fn scan_line_exec(
    out: &mut Vec<ChangelogNode>,
    buffer: &mut Option<Vec<char>>,
    suppress: &mut bool,
    line: &Vec<char>,
)
    ensures
        state_of(final(out)@, *final(buffer), *final(suppress)) == scan_line(
            state_of(old(out)@, *old(buffer), *old(suppress)),
            line@,
        ),
{
    let n = line.len();
    let ghost st0 = state_of(out@, *buffer, *suppress);
    let structural = (n >= 2 && line[0] == '#' && line[1] == '#') || (n >= 2 && line[0] == '-'
        && line[1] == ' ') || n == 0;
    proof {
        if n >= 2 {
            assert(line@.subrange(0, 2) =~= seq![line@[0], line@[1]]);
        }
        assert(structural == is_structural(line@));
    }
    if structural {
        flush_exec(out, buffer);
    }
    let ghost st1 = if is_structural(line@) {
        flush(st0)
    } else {
        st0
    };
    assert(state_of(out@, *buffer, *suppress) == st1);
    // Trailing link references like `[0.3.0]: https://...`.
    let link_pat: Vec<char> = vec![']', ':', ' ', 'h', 't', 't', 'p'];
    let is_ref = n >= 1 && line[0] == '[' && contains_seq(line, &link_pat);
    proof {
        if n >= 1 {
            assert(line@.subrange(0, 1) =~= seq![line@[0]]);
        }
        assert(link_pat@ =~= seq![']', ':', ' ', 'h', 't', 't', 'p']);
        assert(is_ref == is_link_reference(line@));
    }
    if is_ref {
        return;
    }
    let header_start = n >= 4 && line[0] == '#' && line[1] == '#' && line[2] == ' ' && line[3]
        == '[';
    proof {
        if n >= 4 {
            assert(line@.subrange(0, 4) =~= seq![line@[0], line@[1], line@[2], line@[3]]);
        }
        assert(header_start == starts_with(line@, seq!['#', '#', ' ', '[']));
    }
    if header_start {
        if let Some(p) = find_char(line, 4, ']') {
            let tag_chars = vec_of_range(line, 4, p);
            let word: Vec<char> = vec!['u', 'n', 'r', 'e', 'l', 'e', 'a', 's', 'e', 'd'];
            assert(word@ =~= unreleased());
            if chars_eq_ignore_ascii_case(&tag_chars, &word) {
                *suppress = true;
                return;
            }
            *suppress = false;
            let a0 = skip_char_forward(line, p + 1, n, ' ');
            let a1 = skip_char_forward(line, a0, n, '\u{2014}');
            let a2 = skip_char_forward(line, a1, n, '-');
            let a3 = skip_ws_forward(line, a2, n);
            let tag = string_of_range(line, 4, p);
            let date = string_of_range(line, a3, n);
            let ghost before = nodes_text(out@);
            out.push(ChangelogNode::VersionHeader { tag, date });
            assert(nodes_text(out@) =~= before.push(
                NodeText::VersionHeader { tag: tag@, date: date@ },
            ));
            return;
        }
    }
    assert(version_header(line@) is None);
    if *suppress {
        return;
    }
    let sub_start = n >= 4 && line[0] == '#' && line[1] == '#' && line[2] == '#' && line[3]
        == ' ';
    proof {
        if n >= 4 {
            assert(line@.subrange(0, 4) =~= seq![line@[0], line@[1], line@[2], line@[3]]);
        }
        assert(sub_start == starts_with(line@, seq!['#', '#', '#', ' ']));
    }
    if sub_start {
        let name = string_of_range(line, 4, n);
        let ghost before = nodes_text(out@);
        out.push(ChangelogNode::Subsection(name));
        assert(name@ =~= line@.skip(4));
        assert(nodes_text(out@) =~= before.push(NodeText::Subsection(line@.skip(4))));
        return;
    }
    let bullet_start = n >= 2 && line[0] == '-' && line[1] == ' ';
    proof {
        if n >= 2 {
            assert(line@.subrange(0, 2) =~= seq![line@[0], line@[1]]);
        }
        assert(bullet_start == starts_with(line@, seq!['-', ' ']));
    }
    if bullet_start {
        let rest = vec_of_range(line, 2, n);
        assert(rest@ =~= line@.skip(2));
        *buffer = Some(rest);
        return;
    }
    // Continuation of an open bullet (an indented or follow-on line).
    if n > 0 {
        let taken = buffer.take();
        match taken {
            Some(mut b) => {
                let ghost old_b = b@;
                b.push(' ');
                let from = skip_ws_forward(line, 0, n);
                let mut k = from;
                while k < n
                    invariant
                        from <= k <= n,
                        n == line@.len(),
                        b@ == old_b + seq![' '] + line@.subrange(from as int, k as int),
                    decreases n - k,
                {
                    b.push(line[k]);
                    assert(line@.subrange(from as int, k + 1) =~= line@.subrange(
                        from as int,
                        k as int,
                    ).push(line@[k as int]));
                    k = k + 1;
                }
                assert(line@.subrange(0, n as int) =~= line@);
                *buffer = Some(b);
            },
            None => {},
        }
    }
}

/// Line-based scanner over a changelog whose schema follows Keep a
/// Changelog 1.1.0. Skips the `## [Unreleased]` section and the trailing
/// `[X.Y.Z]: https://…` link reference block.
pub fn parse_changelog(md: &str) -> (r: Vec<ChangelogNode>)
    ensures
        nodes_text(r@) == changelog_nodes(md@),
{
    let c = chars_of(md);
    let n = c.len();
    let mut out: Vec<ChangelogNode> = Vec::new();
    let mut buffer: Option<Vec<char>> = None;
    let mut suppress = false;
    let mut pos: usize = 0;
    assert(nodes_text(out@) =~= Seq::<NodeText>::empty());
    while pos < n
        invariant
            n == c@.len(),
            pos <= n,
            scan_lines(state_of(out@, buffer, suppress), lines_from(c@, pos as int)) == scan_lines(
                initial_scan(),
                lines_from(c@, 0),
            ),
        decreases n - pos,
    {
        proof {
            lemma_find_from_bounds(c@, pos as int, '\n');
        }
        let end = match find_char(&c, pos, '\n') {
            Some(p) => p,
            None => n,
        };
        let trimmed = skip_ws_backward(&c, pos, end);
        let line = vec_of_range(&c, pos, trimmed);
        let ghost lines = lines_from(c@, pos as int);
        let ghost old_pos = pos;
        assert(lines[0] == c@.subrange(pos as int, end as int));
        assert(lines.drop_first() =~= lines_from(c@, next_line(c@, pos as int)));
        scan_line_exec(&mut out, &mut buffer, &mut suppress, &line);
        pos = if end < n {
            end + 1
        } else {
            n
        };
        assert(pos == next_line(c@, old_pos as int));
    }
    assert(lines_from(c@, pos as int) =~= Seq::<Seq<char>>::empty());
    flush_exec(&mut out, &mut buffer);
    out
}

} // verus!
