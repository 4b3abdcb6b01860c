//! Character-level text utilities shared by the formatters and parsers.
//!
//! Text is modelled as `Seq<char>` (the view of `str` and `String`). The
//! helpers here are the building blocks the rest of the crate uses to turn
//! characters into `String`s and to reason about trimming, case folding and
//! searching.
use vstd::prelude::*;
use vstd::std_specs::iter::IteratorSpec;
use vstd::string::*;

verus! {

// ---------------------------------------------------------------------
// Character classes
// ---------------------------------------------------------------------

/// Unicode `White_Space`, the property `char::is_whitespace` tests.
pub open spec fn is_ws(c: char) -> bool {
    let u = c as u32;
    ||| (0x09 <= u && u <= 0x0D)
    ||| u == 0x20
    ||| u == 0x85
    ||| u == 0xA0
    ||| u == 0x1680
    ||| (0x2000 <= u && u <= 0x200A)
    ||| u == 0x2028
    ||| u == 0x2029
    ||| u == 0x202F
    ||| u == 0x205F
    ||| u == 0x3000
}

pub fn char_is_ws(c: char) -> (r: bool)
    ensures
        r == is_ws(c),
{
    let u = c as u32;
    (0x09 <= u && u <= 0x0D) || u == 0x20 || u == 0x85 || u == 0xA0 || u == 0x1680 || (0x2000
        <= u && u <= 0x200A) || u == 0x2028 || u == 0x2029 || u == 0x202F || u == 0x205F || u
        == 0x3000
}

/// ASCII upper-casing of one character; every other character is unchanged.
pub open spec fn ascii_upper(c: char) -> char {
    if 'a' <= c && c <= 'z' {
        ((c as u32) - 32) as char
    } else {
        c
    }
}

/// ASCII lower-casing of one character; every other character is unchanged.
pub open spec fn ascii_lower(c: char) -> char {
    if 'A' <= c && c <= 'Z' {
        ((c as u32) + 32) as char
    } else {
        c
    }
}

pub fn char_ascii_upper(c: char) -> (r: char)
    ensures
        r == ascii_upper(c),
{
    if 'a' <= c && c <= 'z' {
        let u: u32 = (c as u32) - 32;
        let b: u8 = u as u8;
        b as char
    } else {
        c
    }
}

pub fn char_ascii_lower(c: char) -> (r: char)
    ensures
        r == ascii_lower(c),
{
    if 'A' <= c && c <= 'Z' {
        let u: u32 = (c as u32) + 32;
        let b: u8 = u as u8;
        b as char
    } else {
        c
    }
}

/// Two texts equal up to ASCII case, as `str::eq_ignore_ascii_case`.
pub open spec fn eq_ignore_ascii_case(a: Seq<char>, b: Seq<char>) -> bool {
    &&& a.len() == b.len()
    &&& forall|i: int| 0 <= i < a.len() ==> ascii_lower(#[trigger] a[i]) == ascii_lower(b[i])
}

/// ASCII upper-casing of a whole text, as `str::to_ascii_uppercase`.
pub open spec fn ascii_upper_text(s: Seq<char>) -> Seq<char> {
    s.map_values(|c: char| ascii_upper(c))
}

// ---------------------------------------------------------------------
// Trimming
// ---------------------------------------------------------------------

/// `s` without its leading white space, as `str::trim_start`.
pub open spec fn trim_start(s: Seq<char>) -> Seq<char>
    decreases s.len(),
{
    if s.len() > 0 && is_ws(s[0]) {
        trim_start(s.drop_first())
    } else {
        s
    }
}

/// `s` without its trailing white space, as `str::trim_end`.
pub open spec fn trim_end(s: Seq<char>) -> Seq<char>
    decreases s.len(),
{
    if s.len() > 0 && is_ws(s.last()) {
        trim_end(s.drop_last())
    } else {
        s
    }
}

/// `s` without leading and trailing white space, as `str::trim`.
pub open spec fn trim(s: Seq<char>) -> Seq<char> {
    trim_end(trim_start(s))
}

/// `s` without every leading copy of `ch`, as `str::trim_start_matches`
/// with a single character pattern.
pub open spec fn trim_start_char(s: Seq<char>, ch: char) -> Seq<char>
    decreases s.len(),
{
    if s.len() > 0 && s[0] == ch {
        trim_start_char(s.drop_first(), ch)
    } else {
        s
    }
}

/// Position of the first character of `v[lo..hi]` that is not white space
/// (or `hi`), so that `v[r..hi]` is `trim_start(v[lo..hi])`.
pub fn skip_ws_forward(v: &Vec<char>, lo: usize, hi: usize) -> (r: usize)
    requires
        lo <= hi <= v@.len(),
    ensures
        lo <= r <= hi,
        v@.subrange(r as int, hi as int) == trim_start(v@.subrange(lo as int, hi as int)),
{
    let mut i = lo;
    while i < hi && char_is_ws(v[i])
        invariant
            lo <= i <= hi <= v@.len(),
            trim_start(v@.subrange(i as int, hi as int)) == trim_start(
                v@.subrange(lo as int, hi as int),
            ),
        decreases hi - i,
    {
        assert(v@.subrange(i as int, hi as int).drop_first() =~= v@.subrange(
            i + 1,
            hi as int,
        ));
        i = i + 1;
    }
    i
}

/// Position just past the last character of `v[lo..hi]` that is not white
/// space (or `lo`), so that `v[lo..r]` is `trim_end(v[lo..hi])`.
pub fn skip_ws_backward(v: &Vec<char>, lo: usize, hi: usize) -> (r: usize)
    requires
        lo <= hi <= v@.len(),
    ensures
        lo <= r <= hi,
        v@.subrange(lo as int, r as int) == trim_end(v@.subrange(lo as int, hi as int)),
{
    let mut j = hi;
    while j > lo && char_is_ws(v[j - 1])
        invariant
            lo <= j <= hi <= v@.len(),
            trim_end(v@.subrange(lo as int, j as int)) == trim_end(
                v@.subrange(lo as int, hi as int),
            ),
        decreases j - lo,
    {
        assert(v@.subrange(lo as int, j as int).drop_last() =~= v@.subrange(
            lo as int,
            j - 1,
        ));
        j = j - 1;
    }
    j
}

/// `s` with leading and trailing white space removed, as a new `String`.
pub fn trimmed(s: &str) -> (r: String)
    ensures
        r@ == trim(s@),
{
    let v = chars_of(s);
    let lo = skip_ws_forward(&v, 0, v.len());
    let hi = skip_ws_backward(&v, lo, v.len());
    assert(v@.subrange(0, v@.len() as int) =~= v@);
    string_of_range(&v, lo, hi)
}

/// Position of the first character of `v[lo..hi]` that is not `ch`.
pub fn skip_char_forward(v: &Vec<char>, lo: usize, hi: usize, ch: char) -> (r: usize)
    requires
        lo <= hi <= v@.len(),
    ensures
        lo <= r <= hi,
        v@.subrange(r as int, hi as int) == trim_start_char(
            v@.subrange(lo as int, hi as int),
            ch,
        ),
{
    let mut i = lo;
    while i < hi && v[i] == ch
        invariant
            lo <= i <= hi <= v@.len(),
            trim_start_char(v@.subrange(i as int, hi as int), ch) == trim_start_char(
                v@.subrange(lo as int, hi as int),
                ch,
            ),
        decreases hi - i,
    {
        assert(v@.subrange(i as int, hi as int).drop_first() =~= v@.subrange(
            i + 1,
            hi as int,
        ));
        i = i + 1;
    }
    i
}

// ---------------------------------------------------------------------
// Searching
// ---------------------------------------------------------------------

/// Absolute position of the first `ch` in `s` at or after `from`.
pub open spec fn find_from(s: Seq<char>, from: int, ch: char) -> Option<int>
    decreases s.len() - from,
{
    if from < 0 || from >= s.len() {
        None
    } else if s[from] == ch {
        Some(from)
    } else {
        find_from(s, from + 1, ch)
    }
}

pub proof fn lemma_find_from_bounds(s: Seq<char>, from: int, ch: char)
    requires
        0 <= from,
    ensures
        find_from(s, from, ch) matches Some(p) ==> from <= p < s.len() && s[p] == ch,
        find_from(s, from, ch) matches Some(p) ==> forall|k: int|
            from <= k < p ==> s[k] != ch,
        find_from(s, from, ch) is None ==> forall|k: int| from <= k < s.len() ==> s[k] != ch,
    decreases s.len() - from,
{
    if from < s.len() && s[from] != ch {
        lemma_find_from_bounds(s, from + 1, ch);
    }
}

/// The first `ch` in `v` at or after `from`, as `find_from`.
pub fn find_char(v: &Vec<char>, from: usize, ch: char) -> (r: Option<usize>)
    requires
        from <= v@.len(),
    ensures
        r matches Some(p) ==> find_from(v@, from as int, ch) == Some(p as int),
        r is None ==> find_from(v@, from as int, ch) is None,
        r matches Some(p) ==> from <= p < v@.len(),
{
    let mut i = from;
    while i < v.len()
        invariant
            from <= i <= v@.len(),
            find_from(v@, from as int, ch) == find_from(v@, i as int, ch),
        decreases v@.len() - i,
    {
        if v[i] == ch {
            return Some(i);
        }
        i = i + 1;
    }
    None
}

/// Absolute position of the first `"**"` in `s` that starts at or after
/// `from`.
pub open spec fn find_double_star(s: Seq<char>, from: int) -> Option<int>
    decreases s.len() - from,
{
    if from < 0 || from + 1 >= s.len() {
        None
    } else if s[from] == '*' && s[from + 1] == '*' {
        Some(from)
    } else {
        find_double_star(s, from + 1)
    }
}

pub proof fn lemma_find_double_star_bounds(s: Seq<char>, from: int)
    requires
        0 <= from,
    ensures
        find_double_star(s, from) matches Some(p) ==> from <= p && p + 1 < s.len() && s[p]
            == '*' && s[p + 1] == '*',
    decreases s.len() - from,
{
    if from + 1 < s.len() && !(s[from] == '*' && s[from + 1] == '*') {
        lemma_find_double_star_bounds(s, from + 1);
    }
}

pub fn find_star_pair(v: &Vec<char>, from: usize) -> (r: Option<usize>)
    requires
        from <= v@.len(),
    ensures
        r matches Some(p) ==> find_double_star(v@, from as int) == Some(p as int),
        r is None ==> find_double_star(v@, from as int) is None,
        r matches Some(p) ==> from <= p && p + 1 < v@.len(),
{
    let mut i = from;
    while v.len() > 0 && i < v.len() - 1
        invariant
            from <= i <= v@.len(),
            find_double_star(v@, from as int) == find_double_star(v@, i as int),
        decreases v@.len() - i,
    {
        if v[i] == '*' && v[i + 1] == '*' {
            return Some(i);
        }
        i = i + 1;
    }
    None
}

/// Whether `pat` occurs in `s` starting at `at`.
pub open spec fn occurs_at(s: Seq<char>, pat: Seq<char>, at: int) -> bool {
    0 <= at && at + pat.len() <= s.len() && s.subrange(at, at + pat.len()) == pat
}

/// `s` starts with `pat`, as `str::starts_with`.
pub open spec fn starts_with(s: Seq<char>, pat: Seq<char>) -> bool {
    occurs_at(s, pat, 0)
}

/// `s` contains `pat`, as `str::contains`.
pub open spec fn contains(s: Seq<char>, pat: Seq<char>) -> bool {
    exists|at: int| occurs_at(s, pat, at)
}

/// Whether `pat` occurs in `v` starting at `at`.
pub fn matches_at(v: &Vec<char>, pat: &Vec<char>, at: usize) -> (r: bool)
    ensures
        r == occurs_at(v@, pat@, at as int),
{
    if at > v.len() || pat.len() > v.len() - at {
        return false;
    }
    let vlen = v.len();
    let mut k: usize = 0;
    while k < pat.len()
        invariant
            vlen == v@.len(),
            at + pat@.len() <= v@.len(),
            at <= v@.len(),
            k <= pat@.len(),
            forall|j: int| 0 <= j < k ==> v@[at + j] == pat@[j],
        decreases pat@.len() - k,
    {
        if v[at + k] != pat[k] {
            assert(v@.subrange(at as int, at + pat@.len())[k as int] != pat@[k as int]);
            return false;
        }
        k = k + 1;
    }
    assert(v@.subrange(at as int, at + pat@.len()) =~= pat@);
    true
}

/// Whether `pat` occurs anywhere in `v`.
pub fn contains_seq(v: &Vec<char>, pat: &Vec<char>) -> (r: bool)
    ensures
        r == contains(v@, pat@),
{
    let mut at: usize = 0;
    while at < v.len()
        invariant
            at <= v@.len(),
            forall|a: int| 0 <= a < at ==> !occurs_at(v@, pat@, a),
        decreases v@.len() - at,
    {
        if matches_at(v, pat, at) {
            return true;
        }
        at = at + 1;
    }
    if matches_at(v, pat, at) {
        return true;
    }
    assert forall|a: int| !occurs_at(v@, pat@, a) by {
        if 0 <= a && a < at {
        }
    }
    false
}

/// Whether two texts are equal.
pub fn text_eq(a: &str, b: &str) -> (r: bool)
    ensures
        r == (a@ == b@),
{
    let x = chars_of(a);
    let y = chars_of(b);
    if x.len() != y.len() {
        return false;
    }
    let r = matches_at(&x, &y, 0);
    proof {
        if r {
            assert(x@.subrange(0, y@.len() as int) =~= x@);
        } else {
            assert(x@.subrange(0, y@.len() as int) =~= x@);
        }
    }
    r
}

/// Case-insensitive (ASCII) equality of two character vectors.
pub fn chars_eq_ignore_ascii_case(a: &Vec<char>, b: &Vec<char>) -> (r: bool)
    ensures
        r == eq_ignore_ascii_case(a@, b@),
{
    if a.len() != b.len() {
        return false;
    }
    let mut i: usize = 0;
    while i < a.len()
        invariant
            a@.len() == b@.len(),
            i <= a@.len(),
            forall|k: int| 0 <= k < i ==> ascii_lower(a@[k]) == ascii_lower(b@[k]),
        decreases a@.len() - i,
    {
        if char_ascii_lower(a[i]) != char_ascii_lower(b[i]) {
            return false;
        }
        i = i + 1;
    }
    true
}

// ---------------------------------------------------------------------
// Conversion between text and characters
// ---------------------------------------------------------------------

/// Appends one character to the end of `s` (`String::push`).
#[verifier::external_body]
pub(crate) fn push_char(s: &mut String, c: char)
    ensures
        final(s)@ == old(s)@.push(c),
{
    s.push(c);
}

/// The characters of `s`, in order.
pub fn chars_of(s: &str) -> (r: Vec<char>)
    ensures
        r@ == s@,
{
    let mut out: Vec<char> = Vec::new();
    let mut it = s.chars();
    let ghost all = s@;
    loop
        invariant
            it.remaining() == all.skip(out@.len() as int),
            out@ == all.take(out@.len() as int),
            out@.len() <= all.len(),
        ensures
            out@ == all,
        decreases all.len() - out@.len(),
    {
        let c = it.next();
        match c {
            Some(ch) => {
                out.push(ch);
            },
            None => {
                assert(all.skip(out@.len() as int).len() == 0);
                assert(out@ =~= all);
                break ;
            },
        }
    }
    out
}

/// Appends `v[lo..hi]` to `s`.
pub fn push_range(s: &mut String, v: &Vec<char>, lo: usize, hi: usize)
    requires
        lo <= hi <= v@.len(),
    ensures
        final(s)@ == old(s)@ + v@.subrange(lo as int, hi as int),
{
    let ghost start = s@;
    let mut i = lo;
    while i < hi
        invariant
            lo <= i <= hi <= v@.len(),
            s@ == start + v@.subrange(lo as int, i as int),
        decreases hi - i,
    {
        push_char(s, v[i]);
        assert(v@.subrange(lo as int, i + 1) =~= v@.subrange(lo as int, i as int).push(v@[i as int]));
        i = i + 1;
    }
}

/// A new `String` holding `v[lo..hi]`.
pub fn string_of_range(v: &Vec<char>, lo: usize, hi: usize) -> (r: String)
    requires
        lo <= hi <= v@.len(),
    ensures
        r@ == v@.subrange(lo as int, hi as int),
{
    let mut s = String::new();
    push_range(&mut s, v, lo, hi);
    assert(Seq::<char>::empty() + v@.subrange(lo as int, hi as int) =~= v@.subrange(
        lo as int,
        hi as int,
    ));
    s
}

/// A new vector holding `v[lo..hi]`.
pub fn vec_of_range(v: &Vec<char>, lo: usize, hi: usize) -> (r: Vec<char>)
    requires
        lo <= hi <= v@.len(),
    ensures
        r@ == v@.subrange(lo as int, hi as int),
{
    let mut out: Vec<char> = Vec::new();
    let mut i = lo;
    while i < hi
        invariant
            lo <= i <= hi <= v@.len(),
            out@ == v@.subrange(lo as int, i as int),
        decreases hi - i,
    {
        out.push(v[i]);
        assert(v@.subrange(lo as int, i + 1) =~= v@.subrange(lo as int, i as int).push(v@[i as int]));
        i = i + 1;
    }
    out
}

// ---------------------------------------------------------------------
// Decimal numbers
// ---------------------------------------------------------------------

/// The ASCII digit for `d` (`d < 10`).
pub open spec fn digit(d: nat) -> char {
    ((48 + d) as u32) as char
}

/// The decimal representation of `n` without leading zeros (`"0"` for 0),
/// as `format!("{}", n)` prints an unsigned integer.
pub open spec fn decimal(n: nat) -> Seq<char>
    decreases n,
{
    if n < 10 {
        seq![digit(n)]
    } else {
        decimal(n / 10).push(digit(n % 10))
    }
}

/// `decimal(n)` left-padded with zeros to at least `width` characters, as
/// `format!("{:0width$}", n)`.
pub open spec fn zero_padded(n: nat, width: nat) -> Seq<char> {
    let d = decimal(n);
    if d.len() < width {
        Seq::new((width - d.len()) as nat, |i: int| '0') + d
    } else {
        d
    }
}

/// A signed integer in decimal, as `format!("{}", n)`.
pub open spec fn signed_decimal(n: int) -> Seq<char> {
    if n < 0 {
        seq!['-'] + decimal((-n) as nat)
    } else {
        decimal(n as nat)
    }
}

pub proof fn lemma_decimal_nonempty(n: nat)
    ensures
        decimal(n).len() >= 1,
    decreases n,
{
    if n >= 10 {
        lemma_decimal_nonempty(n / 10);
    }
}

proof fn lemma_digit_zero()
    ensures
        digit(0) == '0',
{
    assert(('0' as u32) == 48);
    assert((digit(0) as u32) == 48);
}

/// A zero-padded number is never shorter than its width.
pub proof fn lemma_zero_padded_len(n: nat, width: nat)
    ensures
        zero_padded(n, width).len() >= width,
{
}

/// Two-digit zero padding of a number below 100: its tens digit, then its
/// units digit.
pub proof fn lemma_zero_padded_two(n: nat)
    requires
        n < 100,
    ensures
        zero_padded(n, 2) == seq![digit(n / 10), digit(n % 10)],
{
    lemma_digit_zero();
    if n < 10 {
        assert(decimal(n) == seq![digit(n)]);
        assert(zero_padded(n, 2) =~= seq![digit(n / 10), digit(n % 10)]);
    } else {
        assert(decimal(n / 10) == seq![digit(n / 10)]);
        assert(decimal(n) =~= seq![digit(n / 10), digit(n % 10)]);
    }
}

/// Four-digit zero padding of a number below 10000: its thousands,
/// hundreds, tens and units digits.
pub proof fn lemma_zero_padded_four(n: nat)
    requires
        n < 10000,
    ensures
        zero_padded(n, 4) == seq![
            digit(n / 1000),
            digit((n / 100) % 10),
            digit((n / 10) % 10),
            digit(n % 10),
        ],
{
    lemma_digit_zero();
    let q = n / 10;
    if n < 10 {
        assert(decimal(n) == seq![digit(n)]);
    } else if n < 100 {
        assert(decimal(q) == seq![digit(q)]);
        assert(decimal(n) =~= seq![digit(q), digit(n % 10)]);
    } else if n < 1000 {
        assert(decimal(q / 10) == seq![digit(q / 10)]);
        assert(decimal(q) =~= seq![digit(q / 10), digit(q % 10)]);
        assert(decimal(n) =~= seq![digit(q / 10), digit(q % 10), digit(n % 10)]);
    } else {
        assert(decimal(q / 100) == seq![digit(q / 100)]);
        assert(decimal(q / 10) =~= seq![digit(q / 100), digit((q / 10) % 10)]);
        assert(decimal(q) =~= seq![digit(q / 100), digit((q / 10) % 10), digit(q % 10)]);
        assert(decimal(n) =~= seq![digit(q / 100), digit((q / 10) % 10), digit(q % 10), digit(n % 10)]);
    }
    assert(n / 1000 == q / 100);
    assert((n / 100) % 10 == (q / 10) % 10);
    assert(zero_padded(n, 4) =~= seq![
        digit(n / 1000),
        digit((n / 100) % 10),
        digit((n / 10) % 10),
        digit(n % 10),
    ]);
}

pub fn digit_char(d: u64) -> (r: char)
    requires
        d < 10,
    ensures
        r == digit(d as nat),
{
    let b: u8 = (48 + d) as u8;
    b as char
}

/// Appends the decimal representation of `n` to `s`.
pub fn push_decimal(s: &mut String, n: u64)
    ensures
        final(s)@ == old(s)@ + decimal(n as nat),
    decreases n,
{
    if n >= 10 {
        push_decimal(s, n / 10);
    }
    push_char(s, digit_char(n % 10));
    proof {
        if n >= 10 {
            assert(old(s)@ + decimal(n as nat) =~= old(s)@ + decimal((n / 10) as nat) + seq![
                digit((n % 10) as nat),
            ]);
        } else {
            assert(old(s)@ + decimal(n as nat) =~= old(s)@.push(digit((n % 10) as nat)));
        }
    }
}

/// Appends `n` in decimal, left-padded with zeros to `width` characters.
pub fn push_zero_padded(s: &mut String, n: u64, width: usize)
    ensures
        final(s)@ == old(s)@ + zero_padded(n as nat, width as nat),
{
    let mut digits = String::new();
    push_decimal(&mut digits, n);
    let ghost d = decimal(n as nat);
    assert(Seq::<char>::empty() + d =~= d);
    let len = digits.as_str().unicode_len();
    let ghost start = s@;
    if len < width {
        let mut k: usize = 0;
        while k < width - len
            invariant
                len < width,
                k <= width - len,
                s@ == start + Seq::new(k as nat, |i: int| '0'),
            decreases width - len - k,
        {
            push_char(s, '0');
            assert(Seq::new((k + 1) as nat, |i: int| '0') =~= Seq::new(k as nat, |i: int| '0').push(
                '0',
            ));
            k = k + 1;
        }
    }
    s.append(digits.as_str());
    assert(s@ =~= start + zero_padded(n as nat, width as nat));
}

/// Appends a signed integer in decimal.
pub fn push_signed_decimal(s: &mut String, n: i64)
    ensures
        final(s)@ == old(s)@ + signed_decimal(n as int),
{
    if n < 0 {
        push_char(s, '-');
        let m: u64 = if n == i64::MIN {
            9223372036854775808u64
        } else {
            (-n) as u64
        };
        push_decimal(s, m);
        assert(old(s)@ + signed_decimal(n as int) =~= old(s)@.push('-') + decimal(m as nat));
    } else {
        push_decimal(s, n as u64);
    }
}

} // verus!
