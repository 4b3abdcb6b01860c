//! Sparkline history: fixed-capacity ring buffers of samples, and the
//! per-component collection of them that each snapshot feeds.
//!
//! The buffers are generic over the sample type; the dashboard stores
//! `f32` load and throughput readings in them.
use crate::text::{decimal, digit, lemma_decimal_nonempty, push_char, push_decimal};
use vstd::prelude::*;

verus! {

/// Sparkline retention: ~4 minutes at the 1 s default refresh rate.
pub const HISTORY_CAPACITY: usize = 240;

/// The samples a buffer of capacity `cap` holds after `v` is pushed onto a
/// buffer holding `s`: the oldest sample drops out once the buffer is full.
pub open spec fn window_push<T>(s: Seq<T>, v: T, cap: nat) -> Seq<T> {
    if s.len() < cap {
        s.push(v)
    } else {
        s.drop_first().push(v)
    }
}

/// The last `cap` elements of `h` (all of them when there are fewer).
pub open spec fn last_n<T>(h: Seq<T>, cap: nat) -> Seq<T> {
    if h.len() <= cap {
        h
    } else {
        h.subrange(h.len() - cap, h.len() as int)
    }
}

/// Law: one push keeps the window. Pushing `v` onto the last `cap`
/// samples of a history gives the last `cap` samples of the history
/// extended by `v`.
pub proof fn lemma_window_keeps_last<T>(h: Seq<T>, v: T, cap: nat)
    requires
        cap >= 1,
    ensures
        window_push(last_n(h, cap), v, cap) == last_n(h.push(v), cap),
{
    if h.len() < cap {
        assert(last_n(h.push(v), cap) =~= h.push(v));
    } else if h.len() == cap {
        assert(last_n(h.push(v), cap) =~= h.drop_first().push(v));
    } else {
        assert(window_push(last_n(h, cap), v, cap) =~= last_n(h.push(v), cap));
    }
}

/// The samples a buffer of capacity `cap` holds after each of `xs` is
/// pushed, in order, onto a buffer holding `s`.
pub open spec fn pushes<T>(s: Seq<T>, xs: Seq<T>, cap: nat) -> Seq<T>
    decreases xs.len(),
{
    if xs.len() == 0 {
        s
    } else {
        window_push(pushes(s, xs.drop_last(), cap), xs.last(), cap)
    }
}

/// Law: a buffer keeps exactly the last `capacity` samples pushed into it,
/// oldest first. After pushing `xs` onto a buffer holding `s`, it holds the
/// last `cap` samples of `s` followed by `xs`: all of them while they fit,
/// and exactly `cap` once they do not.
pub proof fn lemma_buffer_keeps_last_pushed<T>(s: Seq<T>, xs: Seq<T>, cap: nat)
    requires
        cap >= 1,
        s.len() <= cap,
    ensures
        pushes(s, xs, cap) == last_n(s + xs, cap),
        pushes(s, xs, cap).len() == if s.len() + xs.len() <= cap {
            s.len() + xs.len()
        } else {
            cap
        },
    decreases xs.len(),
{
    if xs.len() == 0 {
        assert(s + xs =~= s);
    } else {
        let init = xs.drop_last();
        lemma_buffer_keeps_last_pushed(s, init, cap);
        lemma_window_keeps_last(s + init, xs.last(), cap);
        assert((s + init).push(xs.last()) =~= s + xs);
    }
}

/// Law: a new buffer of capacity `cap` that has been pushed each of `xs`
/// holds the last `min(|xs|, cap)` of them, oldest first, and is empty
/// exactly when nothing was pushed.
pub proof fn lemma_new_buffer_keeps_last_pushed<T>(xs: Seq<T>, cap: nat)
    requires
        cap >= 1,
    ensures
        ({
            let m = if xs.len() <= cap {
                xs.len() as int
            } else {
                cap as int
            };
            &&& pushes(Seq::<T>::empty(), xs, cap) == xs.subrange(xs.len() - m, xs.len() as int)
            &&& pushes(Seq::<T>::empty(), xs, cap).len() == m
            &&& (pushes(Seq::<T>::empty(), xs, cap).len() == 0 <==> xs.len() == 0)
        }),
{
    lemma_buffer_keeps_last_pushed(Seq::<T>::empty(), xs, cap);
    assert(Seq::<T>::empty() + xs =~= xs);
    if xs.len() <= cap {
        assert(xs.subrange(0, xs.len() as int) =~= xs);
    }
}

/// A fixed-capacity ring buffer of samples. Once full, each `push`
/// overwrites the oldest sample.
#[derive(Debug, Clone)]
pub struct RingBuffer<T> {
    data: Vec<T>,
    capacity: usize,
    /// Index where the next sample will be written.
    head: usize,
    full: bool,
}

/// The physical slot of the `i`-th oldest sample when the oldest one sits
/// at `head`.
pub open spec fn slot(head: int, i: int, cap: int) -> int {
    if head + i < cap {
        head + i
    } else {
        head + i - cap
    }
}

impl<T> RingBuffer<T> {
    /// The buffer's internal consistency: the write index stays inside the
    /// capacity and, before the first wrap, sits just past the last sample.
    pub closed spec fn wf(&self) -> bool {
        &&& self.capacity >= 1
        &&& self.data@.len() <= self.capacity
        &&& self.head < self.capacity
        &&& (!self.full ==> self.head as int == (if self.data@.len() == self.capacity {
            0
        } else {
            self.data@.len() as int
        }))
        &&& (self.full ==> self.data@.len() == self.capacity)
    }

    /// How many samples the buffer retains.
    pub closed spec fn cap(&self) -> nat {
        self.capacity as nat
    }

    /// The retained samples, oldest first.
    pub closed spec fn samples(&self) -> Seq<T> {
        if self.data@.len() == self.capacity {
            Seq::new(
                self.capacity as nat,
                |i: int| self.data@[slot(self.head as int, i, self.capacity as int)],
            )
        } else {
            self.data@
        }
    }
}

impl<T> View for RingBuffer<T> {
    type V = Seq<T>;

    open spec fn view(&self) -> Seq<T> {
        self.samples()
    }
}

impl<T: Copy> RingBuffer<T> {
    /// An empty buffer keeping the last `capacity` samples (at least one).
    pub fn new(capacity: usize) -> (r: Self)
        ensures
            r.wf(),
            r@ == Seq::<T>::empty(),
            r.cap() == if capacity == 0 {
                1
            } else {
                capacity as nat
            },
    {
        let cap = if capacity == 0 {
            1
        } else {
            capacity
        };
        let r = RingBuffer { data: Vec::new(), capacity: cap, head: 0, full: false };
        r
    }

    /// Append a sample, dropping the oldest one once the buffer is full.
    pub fn push(&mut self, value: T)
        requires
            old(self).wf(),
        ensures
            final(self).wf(),
            final(self).cap() == old(self).cap(),
            final(self)@ == window_push(old(self)@, value, old(self).cap()),
    {
        let cap = self.capacity;
        let ghost old_view = self@;
        if self.data.len() < cap {
            self.data.push(value);
            self.head = if self.head < cap - 1 {
                self.head + 1
            } else {
                0
            };
            proof {
                if self.data@.len() == cap {
                    assert forall|i: int| 0 <= i < cap implies #[trigger] self.samples()[i]
                        == old_view.push(value)[i] by {
                        assert(slot(0, i, cap as int) == i);
                    }
                    assert(self.samples() =~= old_view.push(value));
                }
            }
        } else {
            let h = self.head;
            self.data.set(h, value);
            self.full = true;
            self.head = if h < cap - 1 {
                h + 1
            } else {
                0
            };
            proof {
                let new_view = old_view.drop_first().push(value);
                assert forall|i: int| 0 <= i < cap implies #[trigger] self.samples()[i]
                    == new_view[i] by {
                    if i < cap - 1 {
                        assert(slot(self.head as int, i, cap as int) == slot(
                            h as int,
                            i + 1,
                            cap as int,
                        ));
                    } else {
                        assert(slot(self.head as int, i, cap as int) == h);
                    }
                }
                assert(self.samples() =~= new_view);
            }
        }
    }

    /// Number of samples currently held.
    pub fn len(&self) -> (r: usize)
        requires
            self.wf(),
        ensures
            r == self@.len(),
            r <= self.cap(),
    {
        self.data.len()
    }

    pub fn is_empty(&self) -> (r: bool)
        requires
            self.wf(),
        ensures
            r == (self@.len() == 0),
    {
        self.data.len() == 0
    }

    /// Samples from oldest to newest.
    pub fn iter_oldest_first(&self) -> (r: Vec<T>)
        requires
            self.wf(),
        ensures
            r@ == self@,
    {
        let cap = self.capacity;
        let n = self.data.len();
        let (start, count) = if n == cap {
            (self.head, cap)
        } else {
            (0, n)
        };
        let mut out: Vec<T> = Vec::new();
        let mut i: usize = 0;
        while i < count
            invariant
                self.wf(),
                cap == self.capacity,
                n == self.data@.len(),
                count <= n,
                start < cap,
                n == cap ==> start == self.head && count == cap,
                n != cap ==> start == 0 && count == n,
                i <= count,
                out@.len() == i,
                forall|k: int| 0 <= k < i ==> out@[k] == self@[k],
            decreases count - i,
        {
            let idx = if i < cap - start {
                start + i
            } else {
                i - (cap - start)
            };
            proof {
                if n != cap {
                    assert(slot(0, i as int, cap as int) == i);
                }
            }
            out.push(self.data[idx]);
            i = i + 1;
        }
        assert(out@ =~= self@);
        out
    }
}

impl<T: Copy> Default for RingBuffer<T> {
    fn default() -> (r: Self)
        ensures
            r.wf(),
            r@ == Seq::<T>::empty(),
            r.cap() == HISTORY_CAPACITY,
    {
        Self::new(HISTORY_CAPACITY)
    }
}

/// Oldest-first samples of an optional buffer; `None` yields no samples.
pub fn samples_or_empty<T: Copy>(buf: Option<&RingBuffer<T>>) -> (r: Vec<T>)
    requires
        buf matches Some(b) ==> b.wf(),
    ensures
        r@ == match buf {
            Some(b) => b@,
            None => Seq::<T>::empty(),
        },
{
    match buf {
        Some(b) => b.iter_oldest_first(),
        None => Vec::new(),
    }
}

/// Per-GPU sparkline history: compute load and memory-controller load.
#[derive(Debug, Clone)]
pub struct GpuHistory<T> {
    pub load: RingBuffer<T>,
    pub memory_load: RingBuffer<T>,
}

impl<T: Copy> GpuHistory<T> {
    pub fn new(capacity: usize) -> (r: Self)
        ensures
            r.load.wf() && r.memory_load.wf(),
            r.load@ == Seq::<T>::empty() && r.memory_load@ == Seq::<T>::empty(),
            r.load.cap() == r.memory_load.cap(),
            capacity >= 1 ==> r.load.cap() == capacity,
    {
        GpuHistory { load: RingBuffer::new(capacity), memory_load: RingBuffer::new(capacity) }
    }
}

/// Network throughput history: download and upload, in bytes per second.
#[derive(Debug, Clone)]
pub struct NetThroughputHistory<T> {
    pub down: RingBuffer<T>,
    pub up: RingBuffer<T>,
}

impl<T: Copy> NetThroughputHistory<T> {
    pub fn new(capacity: usize) -> (r: Self)
        ensures
            r.down.wf() && r.up.wf(),
            r.down@ == Seq::<T>::empty() && r.up@ == Seq::<T>::empty(),
            r.down.cap() == r.up.cap(),
            capacity >= 1 ==> r.down.cap() == capacity,
    {
        NetThroughputHistory { down: RingBuffer::new(capacity), up: RingBuffer::new(capacity) }
    }
}

// ---------------------------------------------------------------------
// Per-component history
// ---------------------------------------------------------------------

/// One GPU's readings from a snapshot.
#[derive(Debug, Clone)]
pub struct GpuSample<T> {
    pub name: String,
    pub load: T,
    pub memory_load: T,
}

/// The network adapter's throughput readings from a snapshot.
#[derive(Debug, Clone, Copy)]
pub struct NetSample<T> {
    pub down: T,
    pub up: T,
}

/// The readings one snapshot contributes to the sparkline history. A
/// section is `None` when the snapshot lacks it.
#[derive(Debug, Clone)]
pub struct HistorySample<T> {
    pub cpu: Option<T>,
    pub ram: Option<T>,
    pub gpus: Option<Vec<GpuSample<T>>>,
    pub net: Option<NetSample<T>>,
}

/// How many of `names[..n]` equal `x`.
pub open spec fn count_eq(names: Seq<Seq<char>>, x: Seq<char>, n: int) -> nat
    decreases n,
{
    if n <= 0 {
        0
    } else {
        count_eq(names, x, n - 1) + if names[n - 1] == x {
            1nat
        } else {
            0nat
        }
    }
}

/// The history key of the `i`-th GPU: its name, with `#k` appended for the
/// `k`-th repeat of a name within the same snapshot (twin cards).
pub open spec fn gpu_key(names: Seq<Seq<char>>, i: int) -> Seq<char> {
    let k = count_eq(names, names[i], i);
    if k == 0 {
        names[i]
    } else {
        names[i] + seq!['#'] + decimal(k)
    }
}

pub open spec fn gpu_keys(names: Seq<Seq<char>>) -> Seq<Seq<char>> {
    Seq::new(names.len(), |i: int| gpu_key(names, i))
}

/// The two sample windows kept for one GPU.
pub type GpuWindows<T> = (Seq<T>, Seq<T>);

/// Record one GPU's readings under `k`, starting empty windows for a key
/// seen for the first time.
pub open spec fn push_gpu<T>(m: Map<Seq<char>, (Seq<T>, Seq<T>)>, k: Seq<char>, a: T, b: T) -> Map<
    Seq<char>,
    (Seq<T>, Seq<T>),
> {
    let prev = if m.contains_key(k) {
        m[k]
    } else {
        (Seq::<T>::empty(), Seq::<T>::empty())
    };
    m.insert(
        k,
        (
            window_push(prev.0, a, HISTORY_CAPACITY as nat),
            window_push(prev.1, b, HISTORY_CAPACITY as nat),
        ),
    )
}

/// The GPU windows after the first `n` GPUs of a snapshot are recorded.
pub open spec fn fold_gpus<T>(
    m: Map<Seq<char>, (Seq<T>, Seq<T>)>,
    keys: Seq<Seq<char>>,
    samples: Seq<GpuSample<T>>,
    n: int,
) -> Map<Seq<char>, (Seq<T>, Seq<T>)>
    decreases n,
{
    if n <= 0 {
        m
    } else {
        push_gpu(
            fold_gpus(m, keys, samples, n - 1),
            keys[n - 1],
            samples[n - 1].load,
            samples[n - 1].memory_load,
        )
    }
}

pub open spec fn sample_names<T>(samples: Seq<GpuSample<T>>) -> Seq<Seq<char>> {
    samples.map_values(|g: GpuSample<T>| g.name@)
}

/// The samples held by an optional buffer (none when absent).
pub open spec fn opt_samples<T>(b: Option<RingBuffer<T>>) -> Seq<T> {
    match b {
        Some(r) => r@,
        None => Seq::<T>::empty(),
    }
}

/// The sparkline history of every component.
///
/// GPU buffers are keyed by a name-derived key (repeated names get an
/// occurrence suffix), so a GPU briefly missing from one snapshot keeps its
/// history. `gpu_order` mirrors the latest snapshot's GPU list so panels can
/// address GPU history by index.
#[derive(Debug)]
pub struct History<T> {
    pub cpu: Option<RingBuffer<T>>,
    pub ram: Option<RingBuffer<T>>,
    gpu_keys: Vec<String>,
    gpu_bufs: Vec<GpuHistory<T>>,
    gpu_order: Vec<String>,
    pub network: Option<NetThroughputHistory<T>>,
}

/// The windows kept under each key of `keys`, from the parallel `bufs`.
pub closed spec fn gpu_map_of<T>(keys: Seq<String>, bufs: Seq<GpuHistory<T>>) -> Map<
    Seq<char>,
    (Seq<T>, Seq<T>),
> {
    Map::new(
        |k: Seq<char>| exists|i: int| 0 <= i < keys.len() && keys[i]@ == k,
        |k: Seq<char>|
            {
                let i = choose|i: int| 0 <= i < keys.len() && keys[i]@ == k;
                (bufs[i].load@, bufs[i].memory_load@)
            },
    )
}

/// A buffer that `History` manages: consistent and of the standard size.
pub open spec fn managed<T>(b: RingBuffer<T>) -> bool {
    b.wf() && b.cap() == HISTORY_CAPACITY
}

impl<T> History<T> {
    /// Every buffer is consistent and of the standard size, GPU keys are
    /// unique, and every key in the GPU order has buffers.
    pub closed spec fn wf(&self) -> bool {
        &&& (self.cpu matches Some(b) ==> managed(b))
        &&& (self.ram matches Some(b) ==> managed(b))
        &&& (self.network matches Some(n) ==> managed(n.down) && managed(n.up))
        &&& self.wf_gpus()
    }

    pub closed spec fn wf_gpus(&self) -> bool {
        &&& self.gpu_keys@.len() == self.gpu_bufs@.len()
        &&& forall|i: int, j: int|
            0 <= i < j < self.gpu_keys@.len() ==> self.gpu_keys@[i]@ != self.gpu_keys@[j]@
        &&& forall|i: int|
            0 <= i < self.gpu_bufs@.len() ==> managed(#[trigger] self.gpu_bufs@[i].load)
                && managed(self.gpu_bufs@[i].memory_load)
        &&& forall|i: int|
            0 <= i < self.gpu_order@.len() ==> self.gpu_map().contains_key(
                #[trigger] self.gpu_order@[i]@,
            )
    }

    /// The sample windows kept for each GPU key.
    pub closed spec fn gpu_map(&self) -> Map<Seq<char>, (Seq<T>, Seq<T>)> {
        gpu_map_of(self.gpu_keys@, self.gpu_bufs@)
    }

    /// The GPU keys in the order of the latest snapshot's GPU list.
    pub closed spec fn gpu_order(&self) -> Seq<Seq<char>> {
        self.gpu_order@.map_values(|k: String| k@)
    }

    /// The CPU load buffer.
    pub closed spec fn cpu_buf(&self) -> Option<RingBuffer<T>> {
        self.cpu
    }

    /// The RAM load buffer.
    pub closed spec fn ram_buf(&self) -> Option<RingBuffer<T>> {
        self.ram
    }

    /// The network throughput buffers.
    pub closed spec fn net_buf(&self) -> Option<NetThroughputHistory<T>> {
        self.network
    }

    /// A consistent history holds consistent buffers of the standard size.
    pub proof fn lemma_wf_buffers(&self)
        requires
            self.wf(),
        ensures
            self.cpu_buf() matches Some(b) ==> managed(b),
            self.ram_buf() matches Some(b) ==> managed(b),
            self.net_buf() matches Some(n) ==> managed(n.down) && managed(n.up),
    {
    }

    proof fn lemma_gpu_map_at(&self, i: int)
        requires
            self.wf_gpus(),
            0 <= i < self.gpu_keys@.len(),
        ensures
            self.gpu_map().contains_key(self.gpu_keys@[i]@),
            self.gpu_map()[self.gpu_keys@[i]@] == (
                self.gpu_bufs@[i].load@,
                self.gpu_bufs@[i].memory_load@,
            ),
    {
        let k = self.gpu_keys@[i]@;
        assert(exists|j: int| 0 <= j < self.gpu_keys@.len() && self.gpu_keys@[j]@ == k);
        let j = choose|j: int| 0 <= j < self.gpu_keys@.len() && self.gpu_keys@[j]@ == k;
        if j != i {
            if j < i {
                assert(self.gpu_keys@[j]@ != self.gpu_keys@[i]@);
            } else {
                assert(self.gpu_keys@[i]@ != self.gpu_keys@[j]@);
            }
        }
    }
}

/// Law: a GPU missing from a snapshot keeps its history. Recording a
/// snapshot leaves the windows of every key that none of its GPUs maps to
/// unchanged (present or absent as before).
pub proof fn lemma_absent_gpu_keeps_history<T>(
    m: Map<Seq<char>, (Seq<T>, Seq<T>)>,
    keys: Seq<Seq<char>>,
    samples: Seq<GpuSample<T>>,
    n: int,
    k: Seq<char>,
)
    requires
        0 <= n <= keys.len(),
        n <= samples.len(),
        forall|i: int| 0 <= i < n ==> keys[i] != k,
    ensures
        fold_gpus(m, keys, samples, n).contains_key(k) == m.contains_key(k),
        m.contains_key(k) ==> fold_gpus(m, keys, samples, n)[k] == m[k],
    decreases n,
{
    if n > 0 {
        lemma_absent_gpu_keeps_history(m, keys, samples, n - 1, k);
    }
}

proof fn lemma_count_eq_le(names: Seq<Seq<char>>, x: Seq<char>, a: int, b: int)
    requires
        0 <= a <= b,
    ensures
        count_eq(names, x, a) <= count_eq(names, x, b),
    decreases b - a,
{
    if a < b {
        lemma_count_eq_le(names, x, a, b - 1);
    }
}

proof fn lemma_digit_injective(x: nat, y: nat)
    requires
        x < 10,
        y < 10,
        digit(x) == digit(y),
    ensures
        x == y,
{
    assert((digit(x) as u32) == 48 + x);
    assert((digit(y) as u32) == 48 + y);
}

pub proof fn lemma_decimal_injective(a: nat, b: nat)
    requires
        decimal(a) == decimal(b),
    ensures
        a == b,
    decreases a + b,
{
    lemma_decimal_nonempty(a / 10);
    lemma_decimal_nonempty(b / 10);
    if a < 10 && b < 10 {
        assert(decimal(a) == seq![digit(a)]);
        assert(decimal(b) == seq![digit(b)]);
        assert(decimal(a)[0] == digit(a));
        assert(decimal(b)[0] == digit(b));
        lemma_digit_injective(a, b);
    } else if a < 10 {
        assert(decimal(b).len() >= 2);
    } else if b < 10 {
        assert(decimal(a).len() >= 2);
    } else {
        assert(decimal(a) == decimal(a / 10).push(digit(a % 10)));
        assert(decimal(b) == decimal(b / 10).push(digit(b % 10)));
        assert(decimal(a).last() == digit(a % 10));
        assert(decimal(b).last() == digit(b % 10));
        lemma_digit_injective(a % 10, b % 10);
        assert(decimal(a).drop_last() =~= decimal(a / 10));
        assert(decimal(b).drop_last() =~= decimal(b / 10));
        lemma_decimal_injective(a / 10, b / 10);
    }
}

/// Law: twin GPUs keep separate buffers. Two GPUs of one snapshot that
/// share a name get different history keys.
pub proof fn lemma_twin_gpus_distinct_keys(names: Seq<Seq<char>>, i: int, j: int)
    requires
        0 <= i < j < names.len(),
        names[i] == names[j],
    ensures
        gpu_key(names, i) != gpu_key(names, j),
{
    let x = names[i];
    lemma_count_eq_le(names, x, i + 1, j);
    let ki = count_eq(names, x, i);
    let kj = count_eq(names, x, j);
    assert(count_eq(names, x, i + 1) == ki + 1);
    assert(kj > ki);
    if ki == 0 {
        assert(gpu_key(names, j).len() > x.len());
    } else if gpu_key(names, i) == gpu_key(names, j) {
        let di = decimal(ki);
        let dj = decimal(kj);
        assert((x + seq!['#'] + di).len() == (x + seq!['#'] + dj).len());
        assert(di =~= gpu_key(names, i).subrange(x.len() + 1int, gpu_key(names, i).len() as int));
        assert(dj =~= gpu_key(names, j).subrange(x.len() + 1int, gpu_key(names, j).len() as int));
        lemma_decimal_injective(ki, kj);
    }
}

impl<T: Copy> History<T> {
    /// An empty history.
    pub fn new() -> (r: Self)
        ensures
            r.wf(),
            r.cpu_buf() is None && r.ram_buf() is None && r.net_buf() is None,
            r.gpu_map() == Map::<Seq<char>, (Seq<T>, Seq<T>)>::empty(),
            r.gpu_order() == Seq::<Seq<char>>::empty(),
    {
        let r = History {
            cpu: None,
            ram: None,
            gpu_keys: Vec::new(),
            gpu_bufs: Vec::new(),
            gpu_order: Vec::new(),
            network: None,
        };
        assert(r.gpu_map() =~= Map::<Seq<char>, (Seq<T>, Seq<T>)>::empty());
        assert(r.gpu_order() =~= Seq::<Seq<char>>::empty());
        r
    }

    /// History for the GPU at `index` in the latest recorded GPU list, or
    /// `None` before the first record (or for an out-of-range index).
    pub fn gpu(&self, index: usize) -> (r: Option<&GpuHistory<T>>)
        requires
            self.wf(),
        ensures
            index < self.gpu_order().len() <==> r is Some,
            r matches Some(g) ==> self.gpu_map()[self.gpu_order()[index as int]] == (
                g.load@,
                g.memory_load@,
            ),
            r matches Some(g) ==> managed(g.load) && managed(g.memory_load),
    {
        if index >= self.gpu_order.len() {
            return None;
        }
        let key = &self.gpu_order[index];
        let mut i: usize = 0;
        while i < self.gpu_keys.len()
            invariant
                self.wf(),
                index < self.gpu_order@.len(),
                *key == self.gpu_order@[index as int],
                i <= self.gpu_keys@.len(),
                forall|j: int| 0 <= j < i ==> self.gpu_keys@[j]@ != key@,
            decreases self.gpu_keys@.len() - i,
        {
            if self.gpu_keys[i] == *key {
                proof {
                    self.lemma_gpu_map_at(i as int);
                }
                return Some(&self.gpu_bufs[i]);
            }
            i = i + 1;
        }
        proof {
            assert(self.gpu_map().contains_key(self.gpu_order@[index as int]@));
            let j = choose|j: int|
                0 <= j < self.gpu_keys@.len() && self.gpu_keys@[j]@ == key@;
            assert(false);
        }
        None
    }

    /// The index of the buffers kept under `key`, if any.
    fn find_gpu(&self, key: &String) -> (r: Option<usize>)
        requires
            self.wf_gpus(),
        ensures
            r matches Some(i) ==> i < self.gpu_keys@.len() && self.gpu_keys@[i as int]@ == key@,
            r is None <==> !self.gpu_map().contains_key(key@),
    {
        let mut i: usize = 0;
        while i < self.gpu_keys.len()
            invariant
                self.wf_gpus(),
                i <= self.gpu_keys@.len(),
                forall|j: int| 0 <= j < i ==> self.gpu_keys@[j]@ != key@,
            decreases self.gpu_keys@.len() - i,
        {
            if self.gpu_keys[i] == *key {
                return Some(i);
            }
            i = i + 1;
        }
        None
    }

    /// Record one GPU's readings under `key`.
    fn push_gpu_exec(&mut self, key: &String, load: T, memory_load: T)
        requires
            old(self).wf_gpus(),
        ensures
            final(self).wf_gpus(),
            final(self).gpu_map() == push_gpu(old(self).gpu_map(), key@, load, memory_load),
            final(self).gpu_order@ == old(self).gpu_order@,
            final(self).cpu_buf() == old(self).cpu_buf(),
            final(self).ram_buf() == old(self).ram_buf(),
            final(self).net_buf() == old(self).net_buf(),
    {
        let ghost m0 = self.gpu_map();
        let pos = match self.find_gpu(key) {
            Some(p) => p,
            None => {
                self.gpu_keys.push(key.clone());
                self.gpu_bufs.push(GpuHistory::new(HISTORY_CAPACITY));
                let p = self.gpu_keys.len() - 1;
                proof {
                    assert forall|k: Seq<char>| #[trigger] self.gpu_map().contains_key(k) == (
                    m0.contains_key(k) || k == key@) by {
                        if m0.contains_key(k) {
                            let j = choose|j: int|
                                0 <= j < old(self).gpu_keys@.len() && old(
                                    self,
                                ).gpu_keys@[j]@ == k;
                            assert(self.gpu_keys@[j] == old(self).gpu_keys@[j]);
                        }
                        if k == key@ {
                            assert(self.gpu_keys@[p as int]@ == k);
                        }
                    }
                    assert forall|i: int|
                        0 <= i < self.gpu_order@.len() implies self.gpu_map().contains_key(
                        #[trigger] self.gpu_order@[i]@,
                    ) by {
                        assert(m0.contains_key(self.gpu_order@[i]@));
                    }
                }
                p
            },
        };
        let ghost keys1 = self.gpu_keys@;
        let ghost bufs1 = self.gpu_bufs@;
        proof {
            assert(self.wf_gpus());
            self.lemma_gpu_map_at(pos as int);
        }
        let ghost prev = self.gpu_map()[key@];
        assert(prev == if m0.contains_key(key@) {
            m0[key@]
        } else {
            (Seq::<T>::empty(), Seq::<T>::empty())
        }) by {
            if m0.contains_key(key@) {
                let j = choose|j: int|
                    0 <= j < old(self).gpu_keys@.len() && old(self).gpu_keys@[j]@ == key@;
                assert(old(self).wf_gpus());
                old(self).lemma_gpu_map_at(j);
                if j != pos {
                    if j < pos {
                        assert(self.gpu_keys@[j]@ != self.gpu_keys@[pos as int]@);
                    } else {
                        assert(self.gpu_keys@[pos as int]@ != self.gpu_keys@[j]@);
                    }
                }
            }
        }
        self.gpu_bufs[pos].load.push(load);
        self.gpu_bufs[pos].memory_load.push(memory_load);
        proof {
            let m1 = self.gpu_map();
            let target = push_gpu(m0, key@, load, memory_load);
            assert(self.gpu_keys@ == keys1);
            assert(forall|i: int|
                0 <= i < self.gpu_bufs@.len() && i != pos ==> self.gpu_bufs@[i] == bufs1[i]);
            assert forall|k: Seq<char>| #[trigger] m1.contains_key(k) == target.contains_key(k) by {
                if k == key@ {
                    assert(self.gpu_keys@[pos as int]@ == k);
                }
                if target.contains_key(k) && k != key@ {
                    let j = choose|j: int|
                        0 <= j < old(self).gpu_keys@.len() && old(self).gpu_keys@[j]@ == k;
                    assert(self.gpu_keys@[j] == old(self).gpu_keys@[j]);
                }
                if m1.contains_key(k) && k != key@ {
                    let j = choose|j: int| 0 <= j < self.gpu_keys@.len() && self.gpu_keys@[j]@ == k;
                    if j < old(self).gpu_keys@.len() {
                        assert(old(self).gpu_keys@[j] == self.gpu_keys@[j]);
                    }
                }
            }
            assert forall|k: Seq<char>| #[trigger] m1.contains_key(k) implies m1[k] == target[k] by {
                let j = choose|j: int| 0 <= j < self.gpu_keys@.len() && self.gpu_keys@[j]@ == k;
                self.lemma_gpu_map_at(j);
                if k != key@ {
                    assert(j != pos);
                    assert(j < old(self).gpu_keys@.len()) by {
                        if j >= old(self).gpu_keys@.len() {
                            assert(self.gpu_keys@[j]@ == key@);
                        }
                    }
                    old(self).lemma_gpu_map_at(j);
                }
            }
            assert(m1 =~= target);
            assert forall|i: int|
                0 <= i < self.gpu_order@.len() implies self.gpu_map().contains_key(
                #[trigger] self.gpu_order@[i]@,
            ) by {
                assert(m0.contains_key(self.gpu_order@[i]@));
            }
        }
    }

    /// Count the GPUs before `idx` whose name equals the name at `idx`.
    fn occurrences(gpus: &Vec<GpuSample<T>>, idx: usize) -> (r: u64)
        requires
            idx < gpus@.len(),
        ensures
            r == count_eq(sample_names(gpus@), gpus@[idx as int].name@, idx as int),
    {
        let ghost names = sample_names(gpus@);
        let mut c: u64 = 0;
        let mut j: usize = 0;
        while j < idx
            invariant
                idx < gpus@.len(),
                names == sample_names(gpus@),
                j <= idx,
                c == count_eq(names, gpus@[idx as int].name@, j as int),
                c <= j,
            decreases idx - j,
        {
            if gpus[j].name == gpus[idx].name {
                c = c + 1;
            }
            j = j + 1;
        }
        c
    }

    /// Append one snapshot's readings to the matching buffers, creating
    /// buffers on first sight of a component.
    pub fn record(&mut self, sample: &HistorySample<T>)
        requires
            old(self).wf(),
        ensures
            final(self).wf(),
            opt_samples(final(self).cpu_buf()) == match sample.cpu {
                Some(v) => window_push(opt_samples(old(self).cpu_buf()), v, HISTORY_CAPACITY as nat),
                None => opt_samples(old(self).cpu_buf()),
            },
            final(self).cpu_buf() is Some <==> (old(self).cpu_buf() is Some || sample.cpu is Some),
            opt_samples(final(self).ram_buf()) == match sample.ram {
                Some(v) => window_push(opt_samples(old(self).ram_buf()), v, HISTORY_CAPACITY as nat),
                None => opt_samples(old(self).ram_buf()),
            },
            final(self).ram_buf() is Some <==> (old(self).ram_buf() is Some || sample.ram is Some),
            match sample.gpus {
                Some(g) => {
                    &&& final(self).gpu_order() == gpu_keys(sample_names(g@))
                    &&& final(self).gpu_map() == fold_gpus(
                        old(self).gpu_map(),
                        gpu_keys(sample_names(g@)),
                        g@,
                        g@.len() as int,
                    )
                },
                None => {
                    &&& final(self).gpu_order() == old(self).gpu_order()
                    &&& final(self).gpu_map() == old(self).gpu_map()
                },
            },
            match sample.net {
                Some(s) => final(self).net_buf() matches Some(n) && n.down@ == window_push(
                    match old(self).net_buf() {
                        Some(o) => o.down@,
                        None => Seq::<T>::empty(),
                    },
                    s.down,
                    HISTORY_CAPACITY as nat,
                ) && n.up@ == window_push(
                    match old(self).net_buf() {
                        Some(o) => o.up@,
                        None => Seq::<T>::empty(),
                    },
                    s.up,
                    HISTORY_CAPACITY as nat,
                ),
                None => final(self).net_buf() == old(self).net_buf(),
            },
    {
        if let Some(v) = sample.cpu {
            let mut b = match self.cpu.take() {
                Some(b) => b,
                None => RingBuffer::new(HISTORY_CAPACITY),
            };
            b.push(v);
            self.cpu = Some(b);
        }
        assert(self.wf_gpus());
        if let Some(v) = sample.ram {
            let mut b = match self.ram.take() {
                Some(b) => b,
                None => RingBuffer::new(HISTORY_CAPACITY),
            };
            b.push(v);
            self.ram = Some(b);
        }
        if let Some(gpus) = &sample.gpus {
            let ghost names = sample_names(gpus@);
            let ghost keys = gpu_keys(names);
            let ghost m0 = self.gpu_map();
            self.gpu_order = Vec::new();
            proof {
                assert(self.gpu_order() =~= keys.take(0));
            }
            let mut idx: usize = 0;
            while idx < gpus.len()
                invariant
                    self.wf(),
                    names == sample_names(gpus@),
                    keys == gpu_keys(names),
                    idx <= gpus@.len(),
                    self.gpu_order() == keys.take(idx as int),
                    self.gpu_map() == fold_gpus(m0, keys, gpus@, idx as int),
                    self.cpu == old(self).cpu || sample.cpu is Some,
                    opt_samples(self.cpu) == match sample.cpu {
                        Some(v) => window_push(opt_samples(old(self).cpu), v, HISTORY_CAPACITY as nat),
                        None => opt_samples(old(self).cpu),
                    },
                    self.cpu is Some <==> (old(self).cpu is Some || sample.cpu is Some),
                    opt_samples(self.ram) == match sample.ram {
                        Some(v) => window_push(opt_samples(old(self).ram), v, HISTORY_CAPACITY as nat),
                        None => opt_samples(old(self).ram),
                    },
                    self.ram is Some <==> (old(self).ram is Some || sample.ram is Some),
                    self.network == old(self).network,
                decreases gpus@.len() - idx,
            {
                let occurrence = Self::occurrences(gpus, idx);
                let mut key = gpus[idx].name.clone();
                if occurrence != 0 {
                    push_char(&mut key, '#');
                    push_decimal(&mut key, occurrence);
                }
                assert(key@ == keys[idx as int]);
                self.push_gpu_exec(&key, gpus[idx].load, gpus[idx].memory_load);
                let ghost order_before = self.gpu_order@;
                let ghost order_view = self.gpu_order();
                let ghost key_view = key@;
                self.gpu_order.push(key);
                proof {
                    assert(self.gpu_order@ == order_before.push(key));
                    assert(self.gpu_order() =~= order_view.push(key_view));
                    assert(self.gpu_order() =~= keys.take(idx + 1));
                    assert(self.gpu_map().contains_key(key@));
                    assert forall|i: int|
                        0 <= i < self.gpu_order@.len() implies self.gpu_map().contains_key(
                        #[trigger] self.gpu_order@[i]@,
                    ) by {
                        if i < order_before.len() {
                            assert(self.gpu_order@[i] == order_before[i]);
                        }
                    }
                }
                idx = idx + 1;
            }
            assert(keys.take(gpus@.len() as int) =~= keys);
        }
        assert(self.wf_gpus());
        if let Some(s) = sample.net {
            let mut n = match self.network.take() {
                Some(n) => n,
                None => NetThroughputHistory::new(HISTORY_CAPACITY),
            };
            n.down.push(s.down);
            n.up.push(s.up);
            self.network = Some(n);
        }
        assert(self.wf_gpus());
        assert(self.cpu matches Some(b) ==> managed(b));
        assert(self.ram matches Some(b) ==> managed(b));
        assert(self.network matches Some(n) ==> managed(n.down) && managed(n.up));
    }
}

impl<T: Copy> Default for History<T> {
    fn default() -> (r: Self)
        ensures
            r.wf(),
            r.cpu_buf() is None && r.ram_buf() is None && r.net_buf() is None,
            r.gpu_map() == Map::<Seq<char>, (Seq<T>, Seq<T>)>::empty(),
            r.gpu_order() == Seq::<Seq<char>>::empty(),
    {
        Self::new()
    }
}

} // verus!
