//! The per-card rendering budget and the priority-ranked selection of stat
//! rows that fits it.
use crate::theme::Color;
use vstd::prelude::*;

verus! {

/// Per-panel rendering budget computed from the card's allocated width:
/// `rows` is the most priority-ranked stat rows a panel emits, `columns`
/// whether they render in a 2-column split or stacked.
#[derive(Debug, Clone, Copy, PartialEq, Eq, Structural)]
pub struct Capacity {
    pub rows: usize,
    pub columns: usize,
}

/// One stat-row candidate. `priority == 0` is the highest priority (kept
/// first); higher numbers drop earlier as capacity shrinks.
#[derive(Debug, Clone)]
pub struct StatCandidate {
    pub priority: u8,
    pub label: &'static str,
    pub value: String,
    pub color: Option<Color>,
    pub tooltip_key: &'static str,
}

/// The priorities of `c`, in order.
pub open spec fn priorities(c: Seq<StatCandidate>) -> Seq<u8> {
    c.map_values(|x: StatCandidate| x.priority)
}

/// Whether entry `i` comes before entry `j` when ranked by priority, ties
/// kept in list order.
pub open spec fn ranks_before(prios: Seq<u8>, i: int, j: int) -> bool {
    prios[i] < prios[j] || (prios[i] == prios[j] && i < j)
}

/// `sel` lists, best first, the `min(rows, len)` entries of `prios` that
/// rank first: every listed entry ranks before every later listed one and
/// before every entry left out.
pub open spec fn is_priority_selection(prios: Seq<u8>, rows: int, sel: Seq<int>) -> bool {
    &&& sel.len() == if rows <= prios.len() {
        rows
    } else {
        prios.len() as int
    }
    &&& forall|k: int| 0 <= k < sel.len() ==> 0 <= #[trigger] sel[k] < prios.len()
    &&& forall|k1: int, k2: int|
        0 <= k1 < k2 < sel.len() ==> #[trigger] ranks_before(prios, sel[k1], sel[k2])
    &&& forall|i: int, k: int|
        0 <= i < prios.len() && !sel.contains(i) && 0 <= k < sel.len() ==> #[trigger] ranks_before(
            prios,
            sel[k],
            i,
        )
}

/// A list of distinct positions below `n` is at most `n` long, and exactly
/// `n` long when it holds every such position.
proof fn lemma_positions_len(sel: Seq<int>, n: int)
    requires
        0 <= n,
        sel.no_duplicates(),
        forall|k: int| 0 <= k < sel.len() ==> 0 <= #[trigger] sel[k] < n,
    ensures
        sel.len() <= n,
        (forall|j: int| 0 <= j < n ==> #[trigger] sel.contains(j)) ==> sel.len() == n,
{
    sel.unique_seq_to_set();
    vstd::set_lib::lemma_int_range(0, n);
    let r = vstd::set_lib::set_int_range(0, n);
    assert(sel.to_set().subset_of(r)) by {
        assert forall|x: int| sel.to_set().contains(x) implies r.contains(x) by {
            let k = choose|k: int| 0 <= k < sel.len() && sel[k] == x;
        }
    }
    vstd::set_lib::lemma_len_subset(sel.to_set(), r);
    if forall|j: int| 0 <= j < n ==> #[trigger] sel.contains(j) {
        assert(r.subset_of(sel.to_set()));
        vstd::set_lib::lemma_len_subset(r, sel.to_set());
    }
}

/// The positions of the entries that fit `rows`, best first.
fn select_positions(prios: &Vec<u8>, rows: usize) -> (r: Vec<usize>)
    ensures
        is_priority_selection(prios@, rows as int, r@.map_values(|i: usize| i as int)),
{
    let n = prios.len();
    let mut out: Vec<usize> = Vec::new();
    let ghost mut sel: Seq<int> = Seq::empty();
    let mut p: u16 = 0;
    while p < 256 && out.len() < rows
        invariant
            n == prios@.len(),
            p <= 256,
            sel == out@.map_values(|i: usize| i as int),
            sel.len() <= rows,
            forall|k: int| 0 <= k < sel.len() ==> 0 <= #[trigger] sel[k] < n && prios@[sel[k]] < p,
            forall|k1: int, k2: int|
                0 <= k1 < k2 < sel.len() ==> #[trigger] ranks_before(prios@, sel[k1], sel[k2]),
            forall|j: int, k: int|
                0 <= j < n && !sel.contains(j) && 0 <= k < sel.len() ==> #[trigger] ranks_before(
                    prios@,
                    sel[k],
                    j,
                ),
            sel.len() < rows ==> forall|j: int|
                0 <= j < n && prios@[j] < p ==> #[trigger] sel.contains(j),
        decreases 256 - p,
    {
        let mut i: usize = 0;
        while i < n && out.len() < rows
            invariant
                n == prios@.len(),
                p < 256,
                i <= n,
                sel == out@.map_values(|i: usize| i as int),
                sel.len() <= rows,
                forall|k: int|
                    0 <= k < sel.len() ==> 0 <= #[trigger] sel[k] < n && (prios@[sel[k]] < p || (
                    prios@[sel[k]] == p && sel[k] < i)),
                forall|k1: int, k2: int|
                    0 <= k1 < k2 < sel.len() ==> #[trigger] ranks_before(prios@, sel[k1], sel[k2]),
                forall|j: int, k: int|
                    0 <= j < n && !sel.contains(j) && 0 <= k < sel.len() ==> #[trigger] ranks_before(
                        prios@,
                        sel[k],
                        j,
                    ),
                sel.len() < rows ==> forall|j: int|
                    0 <= j < n && (prios@[j] < p || (prios@[j] == p && j < i)) ==> #[trigger] sel.contains(j),
            decreases n - i,
        {
            if prios[i] as u16 == p {
                let ghost old_sel = sel;
                out.push(i);
                proof {
                    sel = sel.push(i as int);
                    assert(sel =~= out@.map_values(|i: usize| i as int));
                    assert forall|k1: int, k2: int|
                        0 <= k1 < k2 < sel.len() implies #[trigger] ranks_before(prios@, sel[k1], sel[k2]) by {
                        if k2 == old_sel.len() {
                            assert(sel[k1] == old_sel[k1]);
                        }
                    }
                    assert forall|j: int, k: int|
                        0 <= j < n && !sel.contains(j) && 0 <= k < sel.len() implies #[trigger] ranks_before(
                            prios@, sel[k], j) by {
                        assert(!old_sel.contains(j)) by {
                            if old_sel.contains(j) {
                                let k3 = choose|k3: int| 0 <= k3 < old_sel.len() && old_sel[k3] == j;
                                assert(sel[k3] == j);
                            }
                        }
                        assert(sel[old_sel.len() as int] == i);
                        if k == old_sel.len() {
                            assert(j != i);
                        }
                    }
                    assert forall|j: int|
                        0 <= j < n && (prios@[j] < p || (prios@[j] == p && j < i + 1)) && sel.len() < rows
                            implies #[trigger] sel.contains(j) by {
                        if j == i {
                            assert(sel[old_sel.len() as int] == j);
                        } else {
                            assert(old_sel.contains(j));
                            let k3 = choose|k3: int| 0 <= k3 < old_sel.len() && old_sel[k3] == j;
                            assert(sel[k3] == j);
                        }
                    }
                }
            }
            i = i + 1;
        }
        p = p + 1;
    }
    proof {
        assert(sel.no_duplicates()) by {
            assert forall|k1: int, k2: int| 0 <= k1 < sel.len() && 0 <= k2 < sel.len() && k1 != k2 implies sel[k1] != sel[k2] by {
                if k1 < k2 {
                    assert(ranks_before(prios@, sel[k1], sel[k2]));
                } else {
                    assert(ranks_before(prios@, sel[k2], sel[k1]));
                }
            }
        }
        lemma_positions_len(sel, n as int);
        if sel.len() < rows {
            assert forall|j: int| 0 <= j < n implies #[trigger] sel.contains(j) by {
                assert(prios@[j] < p);
            }
        }
    }
    out
}

/// One more position on which two selections agree, given that they agree
/// before it.
proof fn lemma_selection_step(prios: Seq<u8>, rows: int, s1: Seq<int>, s2: Seq<int>, k: int)
    requires
        is_priority_selection(prios, rows, s1),
        is_priority_selection(prios, rows, s2),
        0 <= k < s1.len(),
        forall|k1: int| 0 <= k1 < k ==> s1[k1] == s2[k1],
    ensures
        s1[k] == s2[k],
{
    let a = s1[k];
    let b = s2[k];
    if a != b {
        if ranks_before(prios, a, b) {
            if s2.contains(a) {
                let k2 = choose|k2: int| 0 <= k2 < s2.len() && s2[k2] == a;
                if k2 < k {
                    assert(ranks_before(prios, s1[k2], s1[k]));
                } else {
                    assert(ranks_before(prios, s2[k], s2[k2]));
                }
            } else {
                assert(ranks_before(prios, s2[k], a));
            }
        } else {
            assert(ranks_before(prios, b, a));
            if s1.contains(b) {
                let k1 = choose|k1: int| 0 <= k1 < s1.len() && s1[k1] == b;
                if k1 < k {
                    assert(ranks_before(prios, s2[k1], s2[k]));
                } else {
                    assert(ranks_before(prios, s1[k], s1[k1]));
                }
            } else {
                assert(ranks_before(prios, s1[k], b));
            }
        }
    }
}

proof fn lemma_selection_prefix(prios: Seq<u8>, rows: int, s1: Seq<int>, s2: Seq<int>, k: int)
    requires
        is_priority_selection(prios, rows, s1),
        is_priority_selection(prios, rows, s2),
        0 <= k <= s1.len(),
    ensures
        forall|k1: int| 0 <= k1 < k ==> s1[k1] == s2[k1],
    decreases k,
{
    if k > 0 {
        lemma_selection_prefix(prios, rows, s1, s2, k - 1);
        lemma_selection_step(prios, rows, s1, s2, k - 1);
    }
}

/// Law: the selection is determined by the priorities and the budget
/// alone; two lists that both satisfy it are the same list.
pub proof fn lemma_selection_unique(prios: Seq<u8>, rows: int, s1: Seq<int>, s2: Seq<int>)
    requires
        is_priority_selection(prios, rows, s1),
        is_priority_selection(prios, rows, s2),
    ensures
        s1 == s2,
{
    lemma_selection_prefix(prios, rows, s1, s2, s1.len() as int);
    assert(s1 =~= s2);
}

/// Law: shrinking the budget only drops rows from the end: the selection
/// for a smaller budget is the start of the selection for a larger one, so
/// the best-ranked rows survive at every capacity.
pub proof fn lemma_selection_shrinks_from_the_end(
    prios: Seq<u8>,
    rows1: int,
    rows2: int,
    s1: Seq<int>,
    s2: Seq<int>,
)
    requires
        0 <= rows1 <= rows2,
        is_priority_selection(prios, rows1, s1),
        is_priority_selection(prios, rows2, s2),
    ensures
        s1 == s2.take(s1.len() as int),
{
    let p = s2.take(s1.len() as int);
    assert forall|i: int, k: int|
        0 <= i < prios.len() && !p.contains(i) && 0 <= k < p.len() implies #[trigger] ranks_before(
            prios,
            p[k],
            i,
        ) by {
        if s2.contains(i) {
            let k2 = choose|k2: int| 0 <= k2 < s2.len() && s2[k2] == i;
            if k2 < p.len() {
                assert(p[k2] == i);
            }
            assert(ranks_before(prios, s2[k], s2[k2]));
        }
    }
    assert forall|k1: int, k2: int| 0 <= k1 < k2 < p.len() implies #[trigger] ranks_before(
        prios,
        p[k1],
        p[k2],
    ) by {
        assert(ranks_before(prios, s2[k1], s2[k2]));
    }
    lemma_selection_unique(prios, rows1, s1, p);
}

/// The candidates a list of references points at.
pub open spec fn deref_all(s: Seq<&StatCandidate>) -> Seq<StatCandidate> {
    s.map_values(|x: &StatCandidate| *x)
}

/// The entries at positions `sel`, in that order.
pub open spec fn picked(c: Seq<StatCandidate>, sel: Seq<int>) -> Seq<StatCandidate> {
    sel.map_values(|i: int| c[i])
}

/// The candidates that fit `capacity`, best priority first: the
/// `capacity.rows` highest-priority candidates (all of them if there are
/// fewer), ties kept in list order.
pub fn select<'a>(candidates: &'a [StatCandidate], capacity: Capacity) -> (r: Vec<&'a StatCandidate>)
    ensures
        exists|sel: Seq<int>|
            is_priority_selection(priorities(candidates@), capacity.rows as int, sel)
                && deref_all(r@) == picked(candidates@, sel),
{
    let mut prios: Vec<u8> = Vec::new();
    let mut i: usize = 0;
    while i < candidates.len()
        invariant
            i <= candidates@.len(),
            prios@ == priorities(candidates@.take(i as int)),
        decreases candidates@.len() - i,
    {
        prios.push(candidates[i].priority);
        assert(candidates@.take(i + 1) =~= candidates@.take(i as int).push(candidates@[i as int]));
        i = i + 1;
    }
    assert(candidates@.take(i as int) =~= candidates@);
    let pos = select_positions(&prios, capacity.rows);
    let ghost sel = pos@.map_values(|i: usize| i as int);
    let mut out: Vec<&'a StatCandidate> = Vec::new();
    let mut k: usize = 0;
    while k < pos.len()
        invariant
            k <= pos@.len(),
            prios@ == priorities(candidates@),
            sel == pos@.map_values(|i: usize| i as int),
            is_priority_selection(prios@, capacity.rows as int, sel),
            out@.len() == k,
            deref_all(out@) == picked(candidates@, sel.take(k as int)),
        decreases pos@.len() - k,
    {
        assert(0 <= sel[k as int] < prios@.len());
        let ghost before = out@;
        let c: &'a StatCandidate = &candidates[pos[k]];
        assert(*c == candidates@[sel[k as int]]);
        out.push(c);
        assert forall|j: int| 0 <= j < k + 1 implies #[trigger] deref_all(out@)[j] == picked(candidates@, sel.take(k + 1))[j] by {
            if j < k {
                assert(out@[j] == before[j]);
                assert(deref_all(before)[j] == picked(candidates@, sel.take(k as int))[j]);
            }
        }
        assert(deref_all(out@) =~= picked(candidates@, sel.take(k + 1)));
        k = k + 1;
    }
    assert(sel.take(k as int) =~= sel);
    out
}

/// How many of `count` selected rows go in the left column of a
/// two-column split: the left column takes the extra row of an odd count.
pub fn left_column_len(count: usize) -> (r: usize)
    ensures
        r + r == count || r + r == count + 1,
        r <= count,
{
    count / 2 + count % 2
}

} // verus!
