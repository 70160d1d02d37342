//! Reductions: the associative operators that the shaders apply, and the CPU
//! reference that a result read back from the GPU is checked against.

use vstd::prelude::*;

verus! {

/// An associative operator used both by a colour-blend stage and by the CPU
/// reference reduction.
#[derive(Clone, Copy, Debug, PartialEq, Eq, Structural, PartialOrd, Ord, Hash)]
pub enum BlendMethod {
    Add,
    Min,
}

/// `a` combined with `b`. Addition wraps at 2^32, as GPU integer arithmetic does.
pub open spec fn combine_spec(m: BlendMethod, a: u32, b: u32) -> u32 {
    match m {
        BlendMethod::Add => ((a + b) % 0x1_0000_0000) as u32,
        BlendMethod::Min => if a <= b {
            a
        } else {
            b
        },
    }
}

/// Left-to-right reduction of a non-empty sequence.
pub open spec fn reduce_spec(m: BlendMethod, s: Seq<u32>) -> u32
    recommends
        s.len() > 0,
    decreases s.len(),
{
    if s.len() <= 1 {
        s[0]
    } else {
        combine_spec(m, reduce_spec(m, s.drop_last()), s.last())
    }
}

impl BlendMethod {
    /// Combines two values with this operator.
    pub fn combine(self, a: u32, b: u32) -> (r: u32)
        ensures
            r == combine_spec(self, a, b),
    {
        match self {
            BlendMethod::Add => a.wrapping_add(b),
            BlendMethod::Min => if a <= b {
                a
            } else {
                b
            },
        }
    }
}

/// Reduces `data` from left to right; `None` when it is empty.
pub fn reduce(method: BlendMethod, data: &Vec<u32>) -> (r: Option<u32>)
    ensures
        data@.len() == 0 ==> r is None,
        data@.len() > 0 ==> r == Some(reduce_spec(method, data@)),
{
    if data.len() == 0 {
        return None;
    }
    let mut acc: u32 = data[0];
    let mut i: usize = 1;
    assert(data@.subrange(0, 1).drop_last() =~= seq![]);
    while i < data.len()
        invariant
            1 <= i <= data@.len(),
            acc == reduce_spec(method, data@.subrange(0, i as int)),
        decreases data@.len() - i,
    {
        assert(data@.subrange(0, i + 1).drop_last() =~= data@.subrange(0, i as int));
        acc = method.combine(acc, data[i]);
        i = i + 1;
    }
    assert(data@.subrange(0, data@.len() as int) =~= data@);
    Some(acc)
}

/// The operator is associative: `(a . b) . c == a . (b . c)`.
pub proof fn lemma_combine_associative(m: BlendMethod, a: u32, b: u32, c: u32)
    ensures
        combine_spec(m, combine_spec(m, a, b), c) == combine_spec(m, a, combine_spec(m, b, c)),
{
    match m {
        BlendMethod::Add => {
            let n: int = 0x1_0000_0000;
            assert(((((a + b) % n) + c) % n) == ((a + ((b + c) % n)) % n)) by (nonlinear_arith)
                requires
                    n == 0x1_0000_0000,
                    0 <= a < n,
                    0 <= b < n,
                    0 <= c < n,
            {
                vstd::arithmetic::div_mod::lemma_add_mod_noop(a as int, b as int, n);
                vstd::arithmetic::div_mod::lemma_add_mod_noop(b as int, c as int, n);
                vstd::arithmetic::div_mod::lemma_add_mod_noop(a + b, c as int, n);
                vstd::arithmetic::div_mod::lemma_add_mod_noop(a as int, b + c, n);
                vstd::arithmetic::div_mod::lemma_mod_twice(a as int, n);
                vstd::arithmetic::div_mod::lemma_mod_twice(c as int, n);
            }
        },
        BlendMethod::Min => {},
    }
}

/// The operator is commutative: `a . b == b . a`.
pub proof fn lemma_combine_commutative(m: BlendMethod, a: u32, b: u32)
    ensures
        combine_spec(m, a, b) == combine_spec(m, b, a),
{
}

/// Reducing a concatenation is combining the reductions of its two parts.
/// This is what lets a GPU reduce chunks of the data independently.
pub proof fn lemma_reduce_concat(m: BlendMethod, a: Seq<u32>, b: Seq<u32>)
    requires
        a.len() > 0,
        b.len() > 0,
    ensures
        reduce_spec(m, a + b) == combine_spec(m, reduce_spec(m, a), reduce_spec(m, b)),
    decreases b.len(),
{
    if b.len() == 1 {
        assert((a + b).drop_last() =~= a);
    } else {
        assert((a + b).drop_last() =~= a + b.drop_last());
        lemma_reduce_concat(m, a, b.drop_last());
        lemma_combine_associative(m, reduce_spec(m, a), reduce_spec(m, b.drop_last()), b.last());
    }
}

/// All the chunks laid end to end.
pub open spec fn flatten_chunks(chunks: Seq<Seq<u32>>) -> Seq<u32>
    decreases chunks.len(),
{
    if chunks.len() == 0 {
        seq![]
    } else {
        flatten_chunks(chunks.drop_last()) + chunks.last()
    }
}

/// The reduction of each chunk, in order: what a GPU that reduces chunk by
/// chunk writes to its output buffer.
pub open spec fn chunk_reductions(m: BlendMethod, chunks: Seq<Seq<u32>>) -> Seq<u32> {
    chunks.map_values(|c: Seq<u32>| reduce_spec(m, c))
}

/// Reducing the per-chunk reductions of a split of the data into non-empty
/// chunks gives the reduction of the whole data.
pub proof fn lemma_two_level_reduction(m: BlendMethod, chunks: Seq<Seq<u32>>)
    requires
        chunks.len() > 0,
        forall|i: int| 0 <= i < chunks.len() ==> (#[trigger] chunks[i]).len() > 0,
    ensures
        flatten_chunks(chunks).len() > 0,
        reduce_spec(m, chunk_reductions(m, chunks)) == reduce_spec(m, flatten_chunks(chunks)),
    decreases chunks.len(),
{
    let rs = chunk_reductions(m, chunks);
    if chunks.len() == 1 {
        assert(chunks.drop_last() =~= seq![]);
        assert(flatten_chunks(chunks) =~= chunks[0]);
    } else {
        let init = chunks.drop_last();
        lemma_two_level_reduction(m, init);
        assert(rs.drop_last() =~= chunk_reductions(m, init));
        lemma_reduce_concat(m, flatten_chunks(init), chunks.last());
    }
}

/// `n` zeros.
pub open spec fn zeros(n: nat) -> Seq<u32> {
    Seq::new(n, |i: int| 0u32)
}

/// Zeros appended to the data do not change a sum: an output buffer that is
/// larger than needed and cleared beforehand still sums to the same value.
pub proof fn lemma_sum_ignores_zero_padding(s: Seq<u32>, n: nat)
    requires
        s.len() > 0,
    ensures
        reduce_spec(BlendMethod::Add, s + zeros(n)) == reduce_spec(BlendMethod::Add, s),
    decreases n,
{
    if n > 0 {
        let m = (n - 1) as nat;
        assert((s + zeros(n)).drop_last() =~= s + zeros(m));
        lemma_sum_ignores_zero_padding(s, m);
        let r = reduce_spec(BlendMethod::Add, s);
        assert((r + 0) % 0x1_0000_0000 == r);
    }
}

/// The minimum of a non-empty sequence is one of its elements and is no
/// greater than any of them.
pub proof fn lemma_min_is_minimum(s: Seq<u32>)
    requires
        s.len() > 0,
    ensures
        s.contains(reduce_spec(BlendMethod::Min, s)),
        forall|i: int| 0 <= i < s.len() ==> reduce_spec(BlendMethod::Min, s) <= #[trigger] s[i],
    decreases s.len(),
{
    if s.len() > 1 {
        let init = s.drop_last();
        lemma_min_is_minimum(init);
        let r = reduce_spec(BlendMethod::Min, init);
        assert forall|i: int| 0 <= i < s.len() implies reduce_spec(BlendMethod::Min, s)
            <= #[trigger] s[i] by {
            if i < s.len() - 1 {
                assert(init[i] == s[i]);
            }
        }
        if r <= s.last() {
            let k = choose|k: int| 0 <= k < init.len() && init[k] == r;
            assert(s[k] == init[k]);
        } else {
            assert(s[s.len() - 1] == s.last());
        }
    } else {
        assert(s[0] == reduce_spec(BlendMethod::Min, s));
    }
}

/// The value a correct GPU run must reduce to, with the operator that produced it.
#[derive(Clone, Copy, Debug, PartialEq, Eq, Structural)]
pub struct ReferenceResult {
    pub method: BlendMethod,
    pub expected: u32,
}

/// Whether `output` reduces to the value that `r` expects; an empty output never does.
pub open spec fn accepts_spec(r: ReferenceResult, output: Seq<u32>) -> bool {
    output.len() > 0 && reduce_spec(r.method, output) == r.expected
}

impl ReferenceResult {
    /// The reference for `data`; `None` when there is nothing to reduce.
    pub fn from_data(method: BlendMethod, data: &Vec<u32>) -> (r: Option<ReferenceResult>)
        ensures
            data@.len() == 0 ==> r is None,
            data@.len() > 0 ==> r == Some(
                (ReferenceResult { method, expected: reduce_spec(method, data@) }),
            ),
    {
        match reduce(method, data) {
            Some(expected) => Some(ReferenceResult { method, expected }),
            None => None,
        }
    }

    /// Whether an output read back from the GPU reduces to the expected value.
    /// An empty output is never accepted.
    pub fn accepts(&self, output: &Vec<u32>) -> (r: bool)
        ensures
            r == accepts_spec(*self, output@),
    {
        match reduce(self.method, output) {
            Some(v) => v == self.expected,
            None => false,
        }
    }
}

/// A GPU run that reduces the data chunk by chunk passes the check: for any
/// split of the data into non-empty chunks, the per-chunk reductions are
/// accepted, and for a sum they still are with cleared (zero) entries after them.
pub proof fn lemma_chunked_output_accepted(
    r: ReferenceResult,
    chunks: Seq<Seq<u32>>,
    padding: nat,
)
    requires
        chunks.len() > 0,
        forall|i: int| 0 <= i < chunks.len() ==> (#[trigger] chunks[i]).len() > 0,
        r.expected == reduce_spec(r.method, flatten_chunks(chunks)),
    ensures
        accepts_spec(r, chunk_reductions(r.method, chunks)),
        r.method == BlendMethod::Add ==> accepts_spec(
            r,
            chunk_reductions(r.method, chunks) + zeros(padding),
        ),
{
    lemma_two_level_reduction(r.method, chunks);
    if r.method == BlendMethod::Add {
        lemma_sum_ignores_zero_padding(chunk_reductions(r.method, chunks), padding);
    }
}

} // verus!
