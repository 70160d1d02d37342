//! Turning the per-pixel output of a subgroup-visualisation shader into
//! images: a colour per subgroup id, and the raw channels.

use sha3::Digest;
use vstd::prelude::*;

verus! {

/// The SHA3-256 digest of `data`.
pub uninterp spec fn sha3_256_of(data: Seq<u8>) -> Seq<u8>;

/// Relies on sha3's `Sha3_256::digest` (through `digest::Digest`): the
/// 32-byte SHA3-256 digest of the bytes, which depends on them alone.
#[verifier::external_body]
fn sha3_256(data: &[u8; 4]) -> (r: Vec<u8>)
    ensures
        r@ == sha3_256_of(data@),
        r@.len() == 32,
{
    sha3::Sha3_256::digest(data).to_vec()
}

/// The colour a sample is drawn in: the first three bytes of its digest,
/// so that equal samples share a colour and different ones almost never do.
pub open spec fn sample_colour(sample: [u8; 4]) -> Seq<u8> {
    sha3_256_of(sample@).take(3)
}

/// The RGB bytes of an image that colours each sample by its digest.
pub open spec fn hashed_colours_spec(samples: Seq<[u8; 4]>) -> Seq<u8>
    decreases samples.len(),
{
    if samples.len() == 0 {
        seq![]
    } else {
        hashed_colours_spec(samples.drop_last()) + sample_colour(samples.last())
    }
}

/// The RGB bytes of an image that keeps the first three channels of each sample.
pub open spec fn rgb_channels_spec(samples: Seq<[u8; 4]>) -> Seq<u8>
    decreases samples.len(),
{
    if samples.len() == 0 {
        seq![]
    } else {
        rgb_channels_spec(samples.drop_last()) + samples.last()@.take(3)
    }
}

/// The colour for a digest: its first three bytes.
pub fn digest_colour(digest: &Vec<u8>) -> (r: [u8; 3])
    requires
        digest@.len() >= 3,
    ensures
        r@ == digest@.take(3),
{
    let r = [digest[0], digest[1], digest[2]];
    assert(r@ =~= digest@.take(3));
    r
}

/// Three colour bytes per sample, from each sample's SHA3-256 digest.
pub fn hashed_colours(samples: &Vec<[u8; 4]>) -> (r: Vec<u8>)
    ensures
        r@ == hashed_colours_spec(samples@),
        r@.len() == 3 * samples@.len(),
{
    let mut out: Vec<u8> = Vec::new();
    let mut i: usize = 0;
    while i < samples.len()
        invariant
            i <= samples@.len(),
            out@ == hashed_colours_spec(samples@.subrange(0, i as int)),
            out@.len() == 3 * i,
        decreases samples@.len() - i,
    {
        let digest = sha3_256(&samples[i]);
        let colour = digest_colour(&digest);
        out.push(colour[0]);
        out.push(colour[1]);
        out.push(colour[2]);
        assert(samples@.subrange(0, i + 1).drop_last() =~= samples@.subrange(0, i as int));
        assert(colour@ =~= seq![colour[0], colour[1], colour[2]]);
        i = i + 1;
    }
    assert(samples@.subrange(0, samples@.len() as int) =~= samples@);
    out
}

/// The first three channels of each sample, in order.
pub fn rgb_channels(samples: &Vec<[u8; 4]>) -> (r: Vec<u8>)
    ensures
        r@ == rgb_channels_spec(samples@),
        r@.len() == 3 * samples@.len(),
{
    let mut out: Vec<u8> = Vec::new();
    let mut i: usize = 0;
    while i < samples.len()
        invariant
            i <= samples@.len(),
            out@ == rgb_channels_spec(samples@.subrange(0, i as int)),
            out@.len() == 3 * i,
        decreases samples@.len() - i,
    {
        let s = samples[i];
        out.push(s[0]);
        out.push(s[1]);
        out.push(s[2]);
        assert(samples@.subrange(0, i + 1).drop_last() =~= samples@.subrange(0, i as int));
        assert(s@.take(3) =~= seq![s[0], s[1], s[2]]);
        i = i + 1;
    }
    assert(samples@.subrange(0, samples@.len() as int) =~= samples@);
    out
}

/// How often `v` occurs in `s`.
pub open spec fn occurrences(s: Seq<[u8; 4]>, v: [u8; 4]) -> nat
    decreases s.len(),
{
    if s.len() == 0 {
        0
    } else {
        occurrences(s.drop_last(), v) + if s.last() == v {
            1nat
        } else {
            0nat
        }
    }
}

/// Whether position `i` holds the first occurrence of its value.
pub open spec fn is_first_occurrence(s: Seq<[u8; 4]>, i: int) -> bool {
    forall|j: int| 0 <= j < i ==> s[j] != s[i]
}

/// How many distinct values among the first `n` positions of `s` occur
/// exactly `k` times in the whole of `s`.
pub open spec fn distinct_with_count(s: Seq<[u8; 4]>, k: nat, n: int) -> nat
    decreases n,
{
    if n <= 0 {
        0
    } else {
        distinct_with_count(s, k, n - 1) + if is_first_occurrence(s, n - 1) && occurrences(
            s,
            s[n - 1],
        ) == k {
            1nat
        } else {
            0nat
        }
    }
}

/// For each group size `k` from 1 up to `upto` that some value of `s` has,
/// in ascending order: `k` and the number of distinct values that occur
/// exactly `k` times.
pub open spec fn group_histogram_spec(s: Seq<[u8; 4]>, upto: nat) -> Seq<(usize, usize)>
    decreases upto,
{
    if upto == 0 {
        seq![]
    } else {
        let c = distinct_with_count(s, upto, s.len() as int);
        group_histogram_spec(s, (upto - 1) as nat) + if c > 0 {
            seq![(upto as usize, c as usize)]
        } else {
            seq![]
        }
    }
}

/// Whether two samples are equal.
fn same_sample(a: [u8; 4], b: [u8; 4]) -> (r: bool)
    ensures
        r == (a == b),
{
    let r = a[0] == b[0] && a[1] == b[1] && a[2] == b[2] && a[3] == b[3];
    if r {
        assert(a@ =~= b@);
        assert(a == b);
    }
    r
}

/// How often `v` occurs in `s`.
fn occurrence_count(s: &Vec<[u8; 4]>, v: [u8; 4]) -> (r: usize)
    ensures
        r == occurrences(s@, v),
{
    let mut c: usize = 0;
    let mut i: usize = 0;
    while i < s.len()
        invariant
            i <= s@.len(),
            c == occurrences(s@.subrange(0, i as int), v),
            c <= i,
        decreases s@.len() - i,
    {
        assert(s@.subrange(0, i + 1).drop_last() =~= s@.subrange(0, i as int));
        if same_sample(s[i], v) {
            c = c + 1;
        }
        i = i + 1;
    }
    assert(s@.subrange(0, s@.len() as int) =~= s@);
    c
}

/// Whether position `i` holds the first occurrence of its value.
fn first_occurrence(s: &Vec<[u8; 4]>, i: usize) -> (r: bool)
    requires
        i < s@.len(),
    ensures
        r == is_first_occurrence(s@, i as int),
{
    let mut j: usize = 0;
    while j < i
        invariant
            j <= i < s@.len(),
            forall|t: int| 0 <= t < j ==> s@[t] != s@[i as int],
        decreases i - j,
    {
        if same_sample(s[j], s[i]) {
            return false;
        }
        j = j + 1;
    }
    true
}

/// How many distinct samples form groups of each size: for each size `k`
/// that occurs, ascending, `k` and the number of distinct sample values seen
/// exactly `k` times. Quadratic in the number of samples.
pub fn group_size_histogram(samples: &Vec<[u8; 4]>) -> (r: Vec<(usize, usize)>)
    ensures
        r@ == group_histogram_spec(samples@, samples@.len()),
{
    let n = samples.len();
    let mut firsts: Vec<bool> = Vec::new();
    let mut counts: Vec<usize> = Vec::new();
    let mut i: usize = 0;
    while i < n
        invariant
            n == samples@.len(),
            i <= n,
            firsts@.len() == i,
            counts@.len() == i,
            forall|t: int| 0 <= t < i ==> #[trigger] firsts@[t] == is_first_occurrence(samples@, t),
            forall|t: int| 0 <= t < i ==> #[trigger] counts@[t] == occurrences(samples@, samples@[t]),
        decreases n - i,
    {
        firsts.push(first_occurrence(samples, i));
        counts.push(occurrence_count(samples, samples[i]));
        i = i + 1;
    }
    let mut out: Vec<(usize, usize)> = Vec::new();
    let mut done: usize = 0;
    while done < n
        invariant
            n == samples@.len(),
            done <= n,
            firsts@.len() == n,
            counts@.len() == n,
            forall|t: int| 0 <= t < n ==> #[trigger] firsts@[t] == is_first_occurrence(samples@, t),
            forall|t: int| 0 <= t < n ==> #[trigger] counts@[t] == occurrences(samples@, samples@[t]),
            out@ == group_histogram_spec(samples@, done as nat),
        decreases n - done,
    {
        let k = done + 1;
        let mut c: usize = 0;
        let mut t: usize = 0;
        while t < n
            invariant
                n == samples@.len(),
                t <= n,
                firsts@.len() == n,
                counts@.len() == n,
                forall|u: int| 0 <= u < n ==> #[trigger] firsts@[u] == is_first_occurrence(samples@, u),
                forall|u: int| 0 <= u < n ==> #[trigger] counts@[u] == occurrences(samples@, samples@[u]),
                c == distinct_with_count(samples@, k as nat, t as int),
                c <= t,
            decreases n - t,
        {
            if firsts[t] && counts[t] == k {
                c = c + 1;
            }
            t = t + 1;
        }
        if c > 0 {
            out.push((k, c));
        }
        assert(out@ =~= group_histogram_spec(samples@, k as nat));
        done = k;
    }
    out
}

} // verus!
