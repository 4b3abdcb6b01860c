//! Layout decisions of the card grid and of the CPU core heat-map, in whole
//! cells and columns; the pixel sizes stay with the painter.
use crate::text::{decimal, push_char, push_decimal};
use vstd::prelude::*;

verus! {

// ---------------------------------------------------------------------
// The card grid
// ---------------------------------------------------------------------

/// One slot in the ordered card list. `Gpu(i)` refers to the `i`-th GPU of
/// the snapshot.
#[derive(Debug, Clone, Copy, PartialEq, Eq, Structural)]
pub enum Card {
    Cpu,
    Gpu(usize),
    Ram,
    Storage,
    Sensors,
    Network,
}

/// How many grid columns `c` spans: only Storage is double-width.
pub open spec fn span_of(c: Card) -> int {
    match c {
        Card::Storage => 2,
        _ => 1,
    }
}

impl Card {
    /// How many grid columns this card spans.
    pub fn span(self) -> (r: usize)
        ensures
            r == span_of(self),
    {
        match self {
            Card::Storage => 2,
            _ => 1,
        }
    }
}

/// The cards to draw, in order: the CPU card when the snapshot has a CPU
/// section, one card per GPU, RAM and Storage when present, then Sensors
/// and Network, which always show.
pub open spec fn card_order(has_cpu: bool, gpu_count: nat, has_ram: bool, has_storage: bool) -> Seq<Card> {
    (if has_cpu {
        seq![Card::Cpu]
    } else {
        Seq::empty()
    }) + Seq::new(gpu_count, |i: int| Card::Gpu(i as usize)) + (if has_ram {
        seq![Card::Ram]
    } else {
        Seq::empty()
    }) + (if has_storage {
        seq![Card::Storage]
    } else {
        Seq::empty()
    }) + seq![Card::Sensors, Card::Network]
}

/// Law: each card shows exactly when its section does. The CPU, RAM and
/// Storage cards appear exactly when their sections are present, `Gpu(i)`
/// exactly for the snapshot's GPUs, and Sensors and Network always; the
/// list holds one card per item, CPU first, then the GPUs in order, RAM,
/// Storage, and Sensors and Network last.
pub proof fn lemma_card_order_sections(has_cpu: bool, gpu_count: nat, has_ram: bool, has_storage: bool)
    ensures
        ({
            let s = card_order(has_cpu, gpu_count, has_ram, has_storage);
            let c: int = if has_cpu { 1 } else { 0 };
            let r: int = if has_ram { 1 } else { 0 };
            let t: int = if has_storage { 1 } else { 0 };
            &&& s.contains(Card::Cpu) <==> has_cpu
            &&& s.contains(Card::Ram) <==> has_ram
            &&& s.contains(Card::Storage) <==> has_storage
            &&& forall|i: usize| #[trigger] s.contains(Card::Gpu(i)) <==> i < gpu_count
            &&& s.contains(Card::Sensors) && s.contains(Card::Network)
            &&& s.len() == c + gpu_count + r + t + 2
            &&& has_cpu ==> s[0] == Card::Cpu
            &&& forall|i: int| 0 <= i < gpu_count ==> #[trigger] s[c + i] == Card::Gpu(i as usize)
            &&& has_ram ==> s[c + gpu_count] == Card::Ram
            &&& has_storage ==> s[c + gpu_count + r] == Card::Storage
            &&& s[s.len() - 2] == Card::Sensors
            &&& s[s.len() - 1] == Card::Network
        }),
{
    let s = card_order(has_cpu, gpu_count, has_ram, has_storage);
    let c: int = if has_cpu { 1 } else { 0 };
    let r: int = if has_ram { 1 } else { 0 };
    let t: int = if has_storage { 1 } else { 0 };
    let g = gpu_count as int;
    let a = if has_cpu { seq![Card::Cpu] } else { Seq::<Card>::empty() };
    let gs = Seq::new(gpu_count, |i: int| Card::Gpu(i as usize));
    let rs = if has_ram { seq![Card::Ram] } else { Seq::<Card>::empty() };
    let ts = if has_storage { seq![Card::Storage] } else { Seq::<Card>::empty() };
    let tail = seq![Card::Sensors, Card::Network];
    assert(s == a + gs + rs + ts + tail);
    assert(s.len() == c + g + r + t + 2);
    assert forall|k: int| 0 <= k < s.len() implies #[trigger] s[k] == if k < c {
        Card::Cpu
    } else if k < c + g {
        Card::Gpu((k - c) as usize)
    } else if k < c + g + r {
        Card::Ram
    } else if k < c + g + r + t {
        Card::Storage
    } else if k == c + g + r + t {
        Card::Sensors
    } else {
        Card::Network
    } by {
        if k < c + g + r + t {
            assert(s[k] == (a + gs + rs + ts)[k]);
            if k < c + g + r {
                assert(s[k] == (a + gs + rs)[k]);
                if k < c + g {
                    assert(s[k] == (a + gs)[k]);
                }
            }
        }
    }
    if has_cpu {
        assert(s[0] == Card::Cpu);
    }
    if has_ram {
        assert(s[c + g] == Card::Ram);
    }
    if has_storage {
        assert(s[c + g + r] == Card::Storage);
    }
    assert(s[c + g + r + t] == Card::Sensors);
    assert(s[c + g + r + t + 1] == Card::Network);
    assert forall|i: int| 0 <= i < gpu_count implies #[trigger] s[c + i] == Card::Gpu(i as usize) by {
        assert(s[c + i] == Card::Gpu(((c + i) - c) as usize));
    }
    assert forall|i: usize| #[trigger] s.contains(Card::Gpu(i)) <==> i < gpu_count by {
        if i < gpu_count {
            assert(s[c + i as int] == Card::Gpu(i));
        }
        if s.contains(Card::Gpu(i)) {
            let k = choose|k: int| 0 <= k < s.len() && s[k] == Card::Gpu(i);
            assert(c <= k < c + g);
            if k - c <= usize::MAX {
                assert(((k - c) as usize) as int == k - c);
            }
        }
    }
}

/// The ordered card list for a snapshot with the given sections.
pub fn card_list(has_cpu: bool, gpu_count: usize, has_ram: bool, has_storage: bool) -> (r: Vec<Card>)
    ensures
        r@ == card_order(has_cpu, gpu_count as nat, has_ram, has_storage),
{
    let mut cards: Vec<Card> = Vec::new();
    if has_cpu {
        cards.push(Card::Cpu);
    }
    let ghost head = cards@;
    let mut i: usize = 0;
    while i < gpu_count
        invariant
            i <= gpu_count,
            cards@ == head + Seq::new(i as nat, |k: int| Card::Gpu(k as usize)),
        decreases gpu_count - i,
    {
        cards.push(Card::Gpu(i));
        assert(Seq::new((i + 1) as nat, |k: int| Card::Gpu(k as usize)) =~= Seq::new(
            i as nat,
            |k: int| Card::Gpu(k as usize),
        ).push(Card::Gpu(i)));
        i = i + 1;
    }
    if has_ram {
        cards.push(Card::Ram);
    }
    if has_storage {
        cards.push(Card::Storage);
    }
    cards.push(Card::Sensors);
    cards.push(Card::Network);
    assert(cards@ =~= card_order(has_cpu, gpu_count as nat, has_ram, has_storage));
    cards
}

/// The columns `c` takes in a grid of `cols` columns: its span, capped at
/// the grid width.
pub open spec fn width_in(c: Card, cols: int) -> int {
    if span_of(c) <= cols {
        span_of(c)
    } else {
        cols
    }
}

/// The columns a row of cards takes.
pub open spec fn row_width(row: Seq<Card>, cols: int) -> int
    decreases row.len(),
{
    if row.len() == 0 {
        0
    } else {
        row_width(row.drop_last(), cols) + width_in(row.last(), cols)
    }
}

/// The cards of all rows, in order.
pub open spec fn flatten(rows: Seq<Seq<Card>>) -> Seq<Card>
    decreases rows.len(),
{
    if rows.len() == 0 {
        Seq::empty()
    } else {
        flatten(rows.drop_last()) + rows.last()
    }
}

/// `rows` lays out `cards` greedily in a grid of `cols` columns: the rows
/// hold the cards in order, every row is non-empty and fits, and each row
/// is full in the sense that the first card of the next row would not have
/// fitted on it.
pub open spec fn is_greedy_rows(cards: Seq<Card>, cols: int, rows: Seq<Seq<Card>>) -> bool {
    &&& flatten(rows) == cards
    &&& forall|i: int|
        0 <= i < rows.len() ==> #[trigger] rows[i].len() > 0 && row_width(rows[i], cols) <= cols
    &&& forall|i: int|
        0 <= i < rows.len() - 1 ==> row_width(#[trigger] rows[i], cols) + width_in(
            rows[i + 1][0],
            cols,
        ) > cols
}

proof fn lemma_flatten_push(rows: Seq<Seq<Card>>, row: Seq<Card>)
    ensures
        flatten(rows.push(row)) == flatten(rows) + row,
{
    assert(rows.push(row).drop_last() =~= rows);
}

proof fn lemma_flatten_front(rows: Seq<Seq<Card>>)
    requires
        rows.len() > 0,
    ensures
        flatten(rows) == rows[0] + flatten(rows.drop_first()),
    decreases rows.len(),
{
    if rows.len() == 1 {
        assert(rows.drop_last() =~= Seq::<Seq<Card>>::empty());
        assert(rows.drop_first() =~= Seq::<Seq<Card>>::empty());
        assert(flatten(rows) =~= rows[0] + flatten(rows.drop_first()));
    } else {
        lemma_flatten_front(rows.drop_last());
        assert(rows.drop_last()[0] == rows[0]);
        assert(rows.drop_last().drop_first() =~= rows.drop_first().drop_last());
        assert(rows.drop_first().last() == rows.last());
        assert(flatten(rows) =~= rows[0] + flatten(rows.drop_first()));
    }
}

proof fn lemma_row_width_push(row: Seq<Card>, c: Card, cols: int)
    ensures
        row_width(row.push(c), cols) == row_width(row, cols) + width_in(c, cols),
{
    assert(row.push(c).drop_last() =~= row);
}

proof fn lemma_row_width_prefix(row: Seq<Card>, k: int, cols: int)
    requires
        0 <= k <= row.len(),
        cols >= 0,
    ensures
        row_width(row.take(k), cols) <= row_width(row, cols),
    decreases row.len() - k,
{
    if k < row.len() {
        lemma_row_width_prefix(row, k + 1, cols);
        assert(row.take(k + 1) =~= row.take(k).push(row[k]));
        lemma_row_width_push(row.take(k), row[k], cols);
    } else {
        assert(row.take(k) =~= row);
    }
}

/// `is_greedy_rows`, kept folded while the uniqueness proof recurses.
#[verifier::opaque]
spec fn greedy_split(cards: Seq<Card>, cols: int, rows: Seq<Seq<Card>>) -> bool {
    is_greedy_rows(cards, cols, rows)
}

/// A splitting of some cards is empty exactly when the cards are, and its
/// first row is a non-empty prefix of them.
proof fn lemma_greedy_head(cards: Seq<Card>, cols: int, r: Seq<Seq<Card>>)
    requires
        greedy_split(cards, cols, r),
    ensures
        cards.len() == 0 <==> r.len() == 0,
        r.len() > 0 ==> r[0].len() > 0 && r[0].len() <= cards.len() && r[0] == cards.take(
            r[0].len() as int,
        ),
{
    reveal(greedy_split);
    if r.len() > 0 {
        lemma_flatten_front(r);
        assert(r[0].len() > 0);
        assert(r[0] =~= cards.take(r[0].len() as int));
    } else {
        assert(flatten(r) =~= Seq::<Card>::empty());
    }
}

proof fn lemma_greedy_split_unique(cards: Seq<Card>, cols: int, r1: Seq<Seq<Card>>, r2: Seq<Seq<Card>>)
    requires
        cols >= 0,
        greedy_split(cards, cols, r1),
        greedy_split(cards, cols, r2),
    ensures
        r1 == r2,
    decreases cards.len(),
{
    lemma_greedy_head(cards, cols, r1);
    lemma_greedy_head(cards, cols, r2);
    if cards.len() == 0 {
        assert(r1 =~= r2);
    } else {
        lemma_greedy_first_row(cards, cols, r1, r2);
        lemma_greedy_first_row(cards, cols, r2, r1);
        assert(r1[0] == r2[0]);
        lemma_greedy_tail(cards, cols, r1);
        lemma_greedy_tail(cards, cols, r2);
        lemma_greedy_split_unique(cards.skip(r1[0].len() as int), cols, r1.drop_first(), r2.drop_first());
        assert(r1 =~= seq![r1[0]] + r1.drop_first());
        assert(r2 =~= seq![r2[0]] + r2.drop_first());
    }
}

/// A greedy first row is at least as long as the first row of any other
/// splitting whose rows fit.
proof fn lemma_greedy_first_row(cards: Seq<Card>, cols: int, r1: Seq<Seq<Card>>, r2: Seq<Seq<Card>>)
    requires
        cols >= 0,
        greedy_split(cards, cols, r1),
        greedy_split(cards, cols, r2),
        r1.len() > 0,
        r2.len() > 0,
    ensures
        r2[0].len() <= r1[0].len(),
{
    reveal(greedy_split);
    if r1[0].len() >= r2[0].len() {
        return;
    }
    let a = r1[0];
    let b = r2[0];
    let k = a.len() as int;
    lemma_flatten_front(r1);
    lemma_flatten_front(r2);
    assert(r2[0].len() > 0);
    assert(b =~= cards.take(b.len() as int));
    assert(a =~= cards.take(k));
    if r1.len() == 1 {
        assert(r1.drop_first() =~= Seq::<Seq<Card>>::empty());
        assert(flatten(r1.drop_first()) =~= Seq::<Card>::empty());
        assert(cards.len() == k);
    } else {
        lemma_flatten_front(r1.drop_first());
        assert(r1.drop_first()[0] == r1[1]);
        assert(r1[1].len() > 0);
        assert(cards[k] == r1[1][0]);
        assert(b[k] == cards[k]);
        assert(row_width(r1[0], cols) + width_in(r1[1][0], cols) > cols);
        assert(b.take(k + 1) =~= a.push(b[k]));
        lemma_row_width_push(a, b[k], cols);
        lemma_row_width_prefix(b, k + 1, cols);
        assert(row_width(b, cols) <= cols);
    }
}

/// The rows after a greedy first row lay out the remaining cards greedily.
proof fn lemma_greedy_tail(cards: Seq<Card>, cols: int, r: Seq<Seq<Card>>)
    requires
        greedy_split(cards, cols, r),
        r.len() > 0,
    ensures
        greedy_split(cards.skip(r[0].len() as int), cols, r.drop_first()),
        r[0].len() > 0,
{
    reveal(greedy_split);
    lemma_flatten_front(r);
    assert(r[0].len() > 0);
    assert(flatten(r.drop_first()) =~= cards.skip(r[0].len() as int));
    let t = r.drop_first();
    assert forall|i: int| 0 <= i < t.len() implies #[trigger] t[i].len() > 0 && row_width(t[i], cols)
        <= cols by {
        assert(t[i] == r[i + 1]);
    }
    assert forall|i: int| 0 <= i < t.len() - 1 implies row_width(#[trigger] t[i], cols) + width_in(
        t[i + 1][0],
        cols,
    ) > cols by {
        assert(t[i] == r[i + 1]);
        assert(t[i + 1] == r[i + 2]);
    }
}

/// Law: the greedy packing is unique. Two row splittings of the same cards
/// that both fill rows greedily are the same rows, so `pack_rows` has only
/// one possible answer.
pub proof fn lemma_greedy_rows_unique(cards: Seq<Card>, cols: int, r1: Seq<Seq<Card>>, r2: Seq<Seq<Card>>)
    requires
        cols >= 0,
        is_greedy_rows(cards, cols, r1),
        is_greedy_rows(cards, cols, r2),
    ensures
        r1 == r2,
{
    reveal(greedy_split);
    lemma_greedy_split_unique(cards, cols, r1, r2);
}

/// Split the cards into grid rows of `cols` columns, filling each row
/// greedily in order.
pub fn pack_rows(cards: &[Card], cols: usize) -> (r: Vec<Vec<Card>>)
    ensures
        is_greedy_rows(cards@, cols as int, r@.map_values(|row: Vec<Card>| row@)),
{
    let mut rows: Vec<Vec<Card>> = Vec::new();
    let ghost mut views: Seq<Seq<Card>> = Seq::empty();
    let mut idx: usize = 0;
    while idx < cards.len()
        invariant
            idx <= cards@.len(),
            views == rows@.map_values(|row: Vec<Card>| row@),
            flatten(views) == cards@.take(idx as int),
            forall|i: int|
                0 <= i < views.len() ==> #[trigger] views[i].len() > 0 && row_width(views[i], cols as int)
                    <= cols,
            forall|i: int|
                0 <= i < views.len() - 1 ==> row_width(#[trigger] views[i], cols as int) + width_in(
                    views[i + 1][0],
                    cols as int,
                ) > cols,
            views.len() > 0 && idx < cards@.len() ==> row_width(views.last(), cols as int)
                + width_in(cards@[idx as int], cols as int) > cols,
        decreases cards@.len() - idx,
    {
        let start = idx;
        let mut row: Vec<Card> = Vec::new();
        let mut used: usize = 0;
        while idx < cards.len()
            invariant
                start <= idx <= cards@.len(),
                row@ == cards@.subrange(start as int, idx as int),
                used == row_width(row@, cols as int),
                used <= cols,
            ensures
                start <= idx <= cards@.len(),
                row@ == cards@.subrange(start as int, idx as int),
                used == row_width(row@, cols as int),
                used <= cols,
                idx < cards@.len() ==> used + width_in(cards@[idx as int], cols as int) > cols,
            decreases cards@.len() - idx,
        {
            let s = cards[idx].span();
            let span = if s <= cols {
                s
            } else {
                cols
            };
            if span > cols - used {
                break;
            }
            used = used + span;
            row.push(cards[idx]);
            assert(row@.drop_last() =~= cards@.subrange(start as int, idx as int));
            idx = idx + 1;
        }
        proof {
            if idx == start {
                assert(width_in(cards@[idx as int], cols as int) <= cols);
                assert(false);
            }
            lemma_flatten_push(views, row@);
            assert(cards@.take(idx as int) =~= cards@.take(start as int) + row@);
            assert(row@[0] == cards@[start as int]);
            views = views.push(row@);
        }
        rows.push(row);
        assert(views =~= rows@.map_values(|row: Vec<Card>| row@));
    }
    assert(cards@.take(idx as int) =~= cards@);
    rows
}

// ---------------------------------------------------------------------
// The CPU core heat-map
// ---------------------------------------------------------------------

/// How many whole cells fit the heat-map's budget, for each of the two
/// cell sizes: `cols_*` is how many cells fit across the available width
/// and `rows_*` how many rows fit the height budget, each rounded down.
#[derive(Debug, Clone, Copy, PartialEq, Eq, Structural)]
pub struct CellBudget {
    pub cols_default: usize,
    pub rows_default: usize,
    pub cols_compact: usize,
    pub rows_compact: usize,
}

/// How the heat-map lays out: `cols` x `rows` cells of the default or the
/// compact size; `shown` cores get a cell and `hidden` overflow into a
/// trailing "+N" cell.
#[derive(Debug, Clone, Copy, PartialEq, Eq, Structural)]
pub struct CellPlan {
    pub cols: usize,
    pub rows: usize,
    pub compact: bool,
    pub shown: usize,
    pub hidden: usize,
}

/// `n / d` rounded up.
pub open spec fn ceil_div(n: int, d: int) -> int {
    (n + d - 1) / d
}

/// At least one.
pub open spec fn at_least_one(x: int) -> int {
    if x >= 1 {
        x
    } else {
        1
    }
}

/// The layout for `n` cores: default cells when every row of them fits the
/// height budget; otherwise compact cells, every core seated when the
/// rows fit (at least one row is always planned); and otherwise as many
/// compact cells as fit, the last one reserved for the "+N" marker.
pub open spec fn cell_plan(n: int, b: CellBudget) -> (int, int, bool, int, int) {
    let cd = at_least_one(b.cols_default as int);
    let cc = at_least_one(b.cols_compact as int);
    let rc = at_least_one(b.rows_compact as int);
    if ceil_div(n, cd) <= b.rows_default {
        (cd, ceil_div(n, cd), false, n, 0)
    } else if ceil_div(n, cc) <= rc {
        (cc, ceil_div(n, cc), true, n, 0)
    } else {
        (cc, rc, true, cc * rc - 1, n - (cc * rc - 1))
    }
}

proof fn lemma_ceil_div(n: int, d: int)
    requires
        n >= 0,
        d >= 1,
    ensures
        ceil_div(n, d) == n / d + if n % d != 0 {
            1int
        } else {
            0
        },
        ceil_div(n, d) * d >= n,
        n >= 1 ==> ceil_div(n, d) >= 1,
        (ceil_div(n, d) - 1) * d < n || n == 0,
{
    assert(ceil_div(n, d) == n / d + if n % d != 0 {
        1int
    } else {
        0
    }) by (nonlinear_arith)
        requires
            n >= 0,
            d >= 1,
    ;
    assert(ceil_div(n, d) * d >= n) by (nonlinear_arith)
        requires
            n >= 0,
            d >= 1,
    ;
    assert((ceil_div(n, d) - 1) * d < n || n == 0) by (nonlinear_arith)
        requires
            n >= 0,
            d >= 1,
    ;
    assert(n >= 1 ==> ceil_div(n, d) >= 1) by (nonlinear_arith)
        requires
            n >= 0,
            d >= 1,
    ;
}

proof fn lemma_overflow_product(n: int, c: int, m: int)
    requires
        n >= 0,
        c >= 1,
        m >= 1,
        ceil_div(n, c) > m,
    ensures
        c * m < n,
{
    lemma_ceil_div(n, c);
    assert(c * m <= c * (ceil_div(n, c) - 1)) by (nonlinear_arith)
        requires
            c >= 1,
            m <= ceil_div(n, c) - 1,
    ;
    assert(c * (ceil_div(n, c) - 1) == (ceil_div(n, c) - 1) * c) by (nonlinear_arith);
}

fn div_ceil(n: usize, d: usize) -> (r: usize)
    requires
        d >= 1,
    ensures
        r == ceil_div(n as int, d as int),
{
    proof {
        lemma_ceil_div(n as int, d as int);
    }
    if n % d != 0 {
        assert(n / d < usize::MAX) by (nonlinear_arith)
            requires
                d >= 1,
                n % d != 0,
        ;
        n / d + 1
    } else {
        n / d
    }
}

/// Choose the heat-map layout for `n` cores under `budget`.
pub fn plan_cells(n: usize, budget: CellBudget) -> (r: CellPlan)
    ensures
        (r.cols as int, r.rows as int, r.compact, r.shown as int, r.hidden as int) == cell_plan(
            n as int,
            budget,
        ),
{
    let cols = if budget.cols_default >= 1 {
        budget.cols_default
    } else {
        1
    };
    let rows_needed = div_ceil(n, cols);
    if rows_needed <= budget.rows_default {
        return CellPlan { cols, rows: rows_needed, compact: false, shown: n, hidden: 0 };
    }
    let cols = if budget.cols_compact >= 1 {
        budget.cols_compact
    } else {
        1
    };
    let max_rows = if budget.rows_compact >= 1 {
        budget.rows_compact
    } else {
        1
    };
    let rows_needed = div_ceil(n, cols);
    if rows_needed <= max_rows {
        return CellPlan { cols, rows: rows_needed, compact: true, shown: n, hidden: 0 };
    }
    proof {
        lemma_overflow_product(n as int, cols as int, max_rows as int);
        assert(cols * max_rows >= 1) by (nonlinear_arith)
            requires
                cols >= 1,
                max_rows >= 1,
        ;
    }
    let capacity = cols * max_rows;
    let shown = capacity - 1;
    CellPlan { cols, rows: max_rows, compact: true, shown, hidden: n - shown }
}

/// Law: every core is accounted for — seated in a cell or counted in the
/// "+N" marker — and the seats never outnumber the cells; when cores
/// overflow, the seats fill every cell but the marker's. At least one row
/// is planned whenever there is a core, and the rows never exceed the
/// height budget of their cell size, except for the single compact row
/// planned when not even one fits.
pub proof fn lemma_cell_plan_accounts(n: int, b: CellBudget)
    requires
        n >= 0,
    ensures
        ({
            let (cols, rows, compact, shown, hidden) = cell_plan(n, b);
            &&& shown + hidden == n
            &&& 0 <= shown <= cols * rows
            &&& hidden > 0 ==> shown + 1 == cols * rows
            &&& n >= 1 ==> rows >= 1
            &&& cols >= 1
            &&& !compact ==> rows <= b.rows_default
            &&& compact ==> rows <= at_least_one(b.rows_compact as int)
        }),
{
    let cd = at_least_one(b.cols_default as int);
    let cc = at_least_one(b.cols_compact as int);
    let rc = at_least_one(b.rows_compact as int);
    lemma_ceil_div(n, cd);
    lemma_ceil_div(n, cc);
    if ceil_div(n, cd) <= b.rows_default {
        assert(ceil_div(n, cd) * cd == cd * ceil_div(n, cd)) by (nonlinear_arith);
    } else if ceil_div(n, cc) <= rc {
        assert(ceil_div(n, cc) * cc == cc * ceil_div(n, cc)) by (nonlinear_arith);
    } else {
        lemma_overflow_product(n, cc, rc);
        assert(cc * rc >= 1) by (nonlinear_arith)
            requires
                cc >= 1,
                rc >= 1,
        ;
    }
}

/// `ceil_div(n, d) <= m` says that `m` rows of `d` cells seat `n` cores.
proof fn lemma_ceil_le(n: int, d: int, m: int)
    requires
        n >= 0,
        d >= 1,
        m >= 0,
    ensures
        ceil_div(n, d) <= m <==> n <= d * m,
{
    lemma_ceil_div(n, d);
    let q = ceil_div(n, d);
    assert(n == 0 ==> q == 0) by (nonlinear_arith)
        requires
            q == (n + d - 1) / d,
            d >= 1,
    ;
    assert(q <= m ==> n <= d * m) by (nonlinear_arith)
        requires
            q * d >= n,
            d >= 1,
    ;
    assert(n <= d * m ==> q <= m) by (nonlinear_arith)
        requires
            (q - 1) * d < n || n == 0,
            n == 0 ==> q == 0,
            d >= 1,
            m >= 0,
            n >= 0,
    {
        if n <= d * m && q > m && n > 0 {
            assert((q - 1) * d >= m * d);
        }
    }
}

/// Law: the heat-map's cells fit the card. Default-size cells are used
/// exactly when they seat every core within the default row budget, and the
/// planned columns are then the default width budget; compact cells use
/// the compact width budget (each at least one column). Every core is
/// seated exactly when one of the two sizes seats them all, and then the
/// rows are the fewest that do; otherwise the compact row budget is filled.
pub proof fn lemma_cell_plan_fits(n: int, b: CellBudget)
    requires
        n >= 0,
    ensures
        ({
            let (cols, rows, compact, shown, hidden) = cell_plan(n, b);
            let cd: int = if b.cols_default >= 1 { b.cols_default as int } else { 1 };
            let cc: int = if b.cols_compact >= 1 { b.cols_compact as int } else { 1 };
            let rc: int = if b.rows_compact >= 1 { b.rows_compact as int } else { 1 };
            &&& !compact <==> n <= cd * b.rows_default
            &&& !compact ==> cols == cd
            &&& compact ==> cols == cc
            &&& hidden == 0 <==> (n <= cd * b.rows_default || n <= cc * rc)
            &&& hidden == 0 ==> shown == n && n <= cols * rows && (n == 0 || (rows - 1) * cols < n)
            &&& hidden > 0 ==> rows == rc
        }),
{
    let cd = at_least_one(b.cols_default as int);
    let cc = at_least_one(b.cols_compact as int);
    let rc = at_least_one(b.rows_compact as int);
    lemma_ceil_le(n, cd, b.rows_default as int);
    lemma_ceil_le(n, cc, rc);
    lemma_ceil_div(n, cd);
    lemma_ceil_div(n, cc);
    assert(ceil_div(n, cd) * cd == cd * ceil_div(n, cd)) by (nonlinear_arith);
    assert(ceil_div(n, cc) * cc == cc * ceil_div(n, cc)) by (nonlinear_arith);
    assert((ceil_div(n, cd) - 1) * cd == cd * (ceil_div(n, cd) - 1)) by (nonlinear_arith);
    assert((ceil_div(n, cc) - 1) * cc == cc * (ceil_div(n, cc) - 1)) by (nonlinear_arith);
    lemma_cell_plan_accounts(n, b);
}

/// Display tag for core `i`: with `p_core_count = Some(n)` the first `n`
/// cores read `P1..Pn` and the rest `E1..Em`; without it, `C0..Cn`.
pub open spec fn core_tag_text(i: nat, p_core_count: Option<usize>) -> Seq<char> {
    match p_core_count {
        Some(n) => if i < n {
            seq!['P'] + decimal(i + 1)
        } else {
            seq!['E'] + decimal((i - n + 1) as nat)
        },
        None => seq!['C'] + decimal(i),
    }
}

/// Display tag for core `i`, shared by the cell corner and the hover text.
pub fn core_tag(i: usize, p_core_count: Option<usize>) -> (r: String)
    requires
        p_core_count == Some(0usize) ==> i < usize::MAX,
    ensures
        r@ == core_tag_text(i as nat, p_core_count),
{
    let mut s = String::new();
    match p_core_count {
        Some(n) => {
            if i < n {
                push_char(&mut s, 'P');
                push_decimal(&mut s, (i + 1) as u64);
            } else {
                push_char(&mut s, 'E');
                push_decimal(&mut s, (i - n + 1) as u64);
            }
        },
        None => {
            push_char(&mut s, 'C');
            push_decimal(&mut s, i as u64);
        },
    }
    proof {
        assert(Seq::<char>::empty().push('P') =~= seq!['P']);
        assert(Seq::<char>::empty().push('E') =~= seq!['E']);
        assert(Seq::<char>::empty().push('C') =~= seq!['C']);
    }
    s
}

} // verus!
