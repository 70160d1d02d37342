//! Choosing a physical device and the sizes that its limits allow.

use itertools::Itertools;
use vstd::prelude::*;

verus! {

/// The kind of a physical device, as the driver reports it.
#[derive(Clone, Copy, Debug, PartialEq, Eq, Structural)]
pub enum DeviceType {
    DiscreteGpu,
    IntegratedGpu,
    VirtualGpu,
    Cpu,
    Other,
    /// A kind this crate does not know of.
    Unknown,
}

/// Preference of a device kind: lower is preferred.
pub open spec fn rank_spec(t: DeviceType) -> u32 {
    match t {
        DeviceType::DiscreteGpu => 0,
        DeviceType::IntegratedGpu => 1,
        DeviceType::VirtualGpu => 2,
        DeviceType::Cpu => 3,
        DeviceType::Other => 4,
        DeviceType::Unknown => 5,
    }
}

impl DeviceType {
    /// Preference of this kind: discrete, integrated, virtual, CPU, other, unknown.
    pub fn rank(self) -> (r: u32)
        ensures
            r == rank_spec(self),
    {
        match self {
            DeviceType::DiscreteGpu => 0,
            DeviceType::IntegratedGpu => 1,
            DeviceType::VirtualGpu => 2,
            DeviceType::Cpu => 3,
            DeviceType::Other => 4,
            DeviceType::Unknown => 5,
        }
    }
}

/// What a queue family of a device can run.
#[derive(Clone, Copy, Debug, PartialEq, Eq, Structural)]
pub struct QueueFamily {
    pub graphics: bool,
    pub compute: bool,
}

/// A physical device as far as the choice between devices goes.
pub struct DeviceCandidate {
    pub device_type: DeviceType,
    pub queue_families: Vec<QueueFamily>,
}

/// The device chosen and its queue families.
#[derive(Clone, Copy, Debug, PartialEq, Eq, Structural)]
pub struct DeviceChoice {
    /// Index of the device among the candidates.
    pub device: usize,
    pub graphics_family: usize,
    pub compute_family: usize,
}

/// What is asked of a queue family: graphics, compute, and possibly that it
/// runs no graphics.
#[derive(Clone, Copy, Debug, PartialEq, Eq, Structural)]
pub struct FamilyNeed {
    pub graphics: bool,
    pub compute: bool,
    pub no_graphics: bool,
}

/// Needs graphics.
pub open spec fn graphics_need() -> FamilyNeed {
    FamilyNeed { graphics: true, compute: false, no_graphics: false }
}

/// Needs compute.
pub open spec fn compute_need() -> FamilyNeed {
    FamilyNeed { graphics: false, compute: true, no_graphics: false }
}

/// Needs compute on a family that runs no graphics.
pub open spec fn compute_only_need() -> FamilyNeed {
    FamilyNeed { graphics: false, compute: true, no_graphics: true }
}

/// Whether family `q` meets `need`.
pub open spec fn meets(q: QueueFamily, need: FamilyNeed) -> bool {
    (!need.graphics || q.graphics) && (!need.compute || q.compute) && (!need.no_graphics
        || !q.graphics)
}

/// Whether `i` is the first index of a family of `fams` that meets `need`.
pub open spec fn is_first(fams: Seq<QueueFamily>, i: int, need: FamilyNeed) -> bool {
    &&& 0 <= i < fams.len()
    &&& meets(fams[i], need)
    &&& forall|j: int| 0 <= j < i ==> !meets(#[trigger] fams[j], need)
}

/// Whether some family of `fams` meets `need`.
pub open spec fn any_family(fams: Seq<QueueFamily>, need: FamilyNeed) -> bool {
    exists|i: int| 0 <= i < fams.len() && meets(#[trigger] fams[i], need)
}

/// The compute family of a device: the first compute family without
/// graphics, so that compute work gets a queue of its own, else the first
/// compute family.
pub open spec fn is_compute_family(fams: Seq<QueueFamily>, i: int) -> bool {
    if any_family(fams, compute_only_need()) {
        is_first(fams, i, compute_only_need())
    } else {
        is_first(fams, i, compute_need())
    }
}

/// A device can be used when it has a graphics family and a compute family.
pub open spec fn usable(fams: Seq<QueueFamily>) -> bool {
    any_family(fams, graphics_need()) && any_family(fams, compute_need())
}

/// The first family of `fams` that meets `need`.
fn first_family(fams: &Vec<QueueFamily>, need: FamilyNeed) -> (r: Option<usize>)
    ensures
        r is None <==> !any_family(fams@, need),
        r matches Some(i) ==> is_first(fams@, i as int, need),
{
    let mut i: usize = 0;
    while i < fams.len()
        invariant
            i <= fams@.len(),
            forall|j: int| 0 <= j < i ==> !meets(#[trigger] fams@[j], need),
        decreases fams@.len() - i,
    {
        let q = fams[i];
        if (!need.graphics || q.graphics) && (!need.compute || q.compute) && (!need.no_graphics
            || !q.graphics) {
            return Some(i);
        }
        i = i + 1;
    }
    None
}

/// The graphics and compute families of a device; `None` when it lacks either.
fn family_pair(fams: &Vec<QueueFamily>) -> (r: Option<(usize, usize)>)
    ensures
        r is None <==> !usable(fams@),
        r matches Some((g, c)) ==> is_first(fams@, g as int, graphics_need()) && is_compute_family(
            fams@,
            c as int,
        ),
{
    let g = match first_family(fams, FamilyNeed { graphics: true, compute: false, no_graphics: false }) {
        Some(g) => g,
        None => return None,
    };
    match first_family(fams, FamilyNeed { graphics: false, compute: true, no_graphics: true }) {
        Some(c) => {
            assert(meets(fams@[c as int], compute_need()));
            Some((g, c))
        },
        None => match first_family(fams, FamilyNeed { graphics: false, compute: true, no_graphics: false }) {
            Some(c) => Some((g, c)),
            None => None,
        },
    }
}

/// The queue families of candidate `i`.
pub open spec fn families(cands: Seq<DeviceCandidate>, i: int) -> Seq<QueueFamily> {
    cands[i].queue_families@
}

/// Whether `ch` is the device to use among `cands`: a usable device of the
/// most preferred kind, the first of them where several are, with its first
/// graphics family and its compute family.
pub open spec fn is_best_choice(cands: Seq<DeviceCandidate>, ch: DeviceChoice) -> bool {
    let d = ch.device as int;
    &&& 0 <= d < cands.len()
    &&& usable(families(cands, d))
    &&& is_first(families(cands, d), ch.graphics_family as int, graphics_need())
    &&& is_compute_family(families(cands, d), ch.compute_family as int)
    &&& forall|j: int|
        0 <= j < cands.len() && usable(#[trigger] families(cands, j)) ==> rank_spec(
            cands[d].device_type,
        ) <= rank_spec(cands[j].device_type)
    &&& forall|j: int|
        0 <= j < d && usable(#[trigger] families(cands, j)) ==> rank_spec(cands[d].device_type)
            < rank_spec(cands[j].device_type)
}

/// Picks the device to run on: among the devices that have a graphics and a
/// compute queue family, one of the most preferred kind, the first of them on
/// a tie. `None` when no device is usable.
pub fn select_device(candidates: &Vec<DeviceCandidate>) -> (r: Option<DeviceChoice>)
    ensures
        r is None <==> forall|j: int|
            0 <= j < candidates@.len() ==> !usable(#[trigger] families(candidates@, j)),
        r matches Some(ch) ==> is_best_choice(candidates@, ch),
{
    let mut best: Option<DeviceChoice> = None;
    let mut best_rank: u32 = 0;
    let mut i: usize = 0;
    while i < candidates.len()
        invariant
            i <= candidates@.len(),
            best is None <==> forall|j: int|
                0 <= j < i ==> !usable(#[trigger] families(candidates@, j)),
            best matches Some(ch) ==> {
                &&& ch.device < i
                &&& best_rank == rank_spec(candidates@[ch.device as int].device_type)
                &&& usable(families(candidates@, ch.device as int))
                &&& is_first(
                    families(candidates@, ch.device as int),
                    ch.graphics_family as int,
                    graphics_need(),
                )
                &&& is_compute_family(families(candidates@, ch.device as int), ch.compute_family as int)
                &&& forall|j: int|
                    0 <= j < i && usable(#[trigger] families(candidates@, j)) ==> best_rank
                        <= rank_spec(candidates@[j].device_type)
                &&& forall|j: int|
                    0 <= j < ch.device && usable(#[trigger] families(candidates@, j)) ==> best_rank
                        < rank_spec(candidates@[j].device_type)
            },
        decreases candidates@.len() - i,
    {
        let c = &candidates[i];
        assert(families(candidates@, i as int) == c.queue_families@);
        match family_pair(&c.queue_families) {
            Some((g, q)) => {
                let rank = c.device_type.rank();
                let better = match best {
                    None => true,
                    Some(_) => rank < best_rank,
                };
                if better {
                    best = Some(DeviceChoice { device: i, graphics_family: g, compute_family: q });
                    best_rank = rank;
                }
            },
            None => {},
        }
        proof {
            if let Some(ch) = best {
                assert(usable(families(candidates@, ch.device as int)));
            }
        }
        i = i + 1;
    }
    best
}

impl DeviceChoice {
    /// Whether compute work gets a queue of its own, so that two queues are
    /// created rather than one.
    pub fn separate_compute_queue(&self) -> (r: bool)
        ensures
            r == (self.graphics_family != self.compute_family),
    {
        self.graphics_family != self.compute_family
    }
}

/// The limits of the chosen device that the benchmarks size themselves by.
#[derive(Clone, Copy, Debug, PartialEq, Eq, Structural)]
pub struct DeviceLimits {
    /// The largest square a render can cover: the smaller of the largest 2D
    /// image and the widest viewport.
    pub max_size: u32,
    pub supports_fill_rectangle: bool,
}

/// The sizes tried before they are rounded: one, every fourth power of two
/// below `2^29` (`2^0, 2^2, ..., 2^28`), and `2^29`.
pub open spec fn candidate_sizes() -> Seq<u32> {
    seq![1u32] + Seq::new(15, |k: int| (1u32 << (2 * k) as u32)) + seq![1u32 << 29u32]
}

/// The smallest multiple of `m` that is not below `v`.
pub open spec fn round_up_spec(v: int, m: int) -> int {
    if v % m == 0 {
        v
    } else {
        v - v % m + m
    }
}

/// Relies on itertools' `Itertools::unique`: each distinct value once, with
/// nothing added.
#[verifier::external_body]
fn unique_values(v: Vec<u32>) -> (r: Vec<u32>)
    ensures
        r@.no_duplicates(),
        forall|x: u32| r@.contains(x) <==> v@.contains(x),
{
    v.into_iter().unique().collect()
}

/// Relies on itertools' `Itertools::sorted`: the same values in ascending order.
#[verifier::external_body]
fn sorted_values(v: Vec<u32>) -> (r: Vec<u32>)
    ensures
        r@.to_multiset() == v@.to_multiset(),
        forall|i: int, j: int| 0 <= i < j < r@.len() ==> r@[i] <= r@[j],
{
    v.into_iter().sorted().collect()
}

impl DeviceLimits {
    /// The limits of a device, from its largest 2D image and its widest
    /// viewport; `None` when either is zero, so that nothing could be drawn.
    pub fn new(max_image_dimension2_d: u32, max_viewport_width: u32, supports_fill_rectangle: bool) -> (r:
        Option<DeviceLimits>)
        ensures
            (max_image_dimension2_d == 0 || max_viewport_width == 0) ==> r is None,
            (max_image_dimension2_d > 0 && max_viewport_width > 0) ==> r == Some(
                DeviceLimits {
                    max_size: if max_image_dimension2_d <= max_viewport_width {
                        max_image_dimension2_d
                    } else {
                        max_viewport_width
                    },
                    supports_fill_rectangle,
                },
            ),
    {
        if max_image_dimension2_d == 0 || max_viewport_width == 0 {
            return None;
        }
        let max_size = if max_image_dimension2_d <= max_viewport_width {
            max_image_dimension2_d
        } else {
            max_viewport_width
        };
        Some(DeviceLimits { max_size, supports_fill_rectangle })
    }

    /// A usable device has a positive size limit.
    pub open spec fn wf(&self) -> bool {
        self.max_size > 0
    }

    /// Threads a GPU launch of the largest size runs: the size limit.
    pub fn gpu_thread_count(&self) -> (r: u32)
        ensures
            r == self.max_size,
    {
        self.max_size
    }

    /// The quad methods this device can draw with.
    pub fn quad_methods(&self) -> (r: Vec<crate::launch::QuadMethod>)
        ensures
            self.supports_fill_rectangle ==> r@ == seq![
                crate::launch::QuadMethod::two_triangles,
                crate::launch::QuadMethod::large_triangle,
                crate::launch::QuadMethod::fill_rectangle,
            ],
            !self.supports_fill_rectangle ==> r@ == seq![
                crate::launch::QuadMethod::two_triangles,
                crate::launch::QuadMethod::large_triangle,
            ],
    {
        crate::launch::QuadMethod::all(self.supports_fill_rectangle)
    }

    /// The data sizes a profiling run steps through: each candidate size
    /// rounded up to a multiple of the size limit, each once, ascending.
    pub fn profiling_sizes(&self) -> (r: Vec<u32>)
        requires
            self.wf(),
        ensures
            forall|i: int, j: int| 0 <= i < j < r@.len() ==> r@[i] < r@[j],
            forall|x: u32|
                r@.contains(x) <==> exists|k: int|
                    0 <= k < candidate_sizes().len() && x == round_up_spec(
                        #[trigger] candidate_sizes()[k] as int,
                        self.max_size as int,
                    ),
    {
        let m = self.max_size;
        let mut sizes: Vec<u32> = Vec::new();
        sizes.push(1);
        let mut l: u32 = 0;
        while l < 29
            invariant
                l % 2 == 0,
                l <= 30,
                sizes@ == seq![1u32] + Seq::new((l / 2) as nat, |k: int| (1u32 << (2 * k) as u32)),
            decreases 30 - l,
        {
            sizes.push(1u32 << l);
            proof {
                let k = (l / 2) as int;
                assert(2 * k == l);
            }
            assert(sizes@ =~= seq![1u32] + Seq::new(((l + 2) / 2) as nat, |k: int| (1u32 << (2 * k) as u32)));
            l = l + 2;
        }
        sizes.push(1u32 << 29u32);
        assert(sizes@ =~= candidate_sizes());
        let mut rounded: Vec<u32> = Vec::new();
        let mut i: usize = 0;
        while i < sizes.len()
            invariant
                i <= sizes@.len(),
                sizes@ == candidate_sizes(),
                m == self.max_size,
                m > 0,
                rounded@.len() == i,
                forall|k: int| 0 <= k < i ==> rounded@[k] == round_up_spec(
                    #[trigger] sizes@[k] as int,
                    m as int,
                ),
            decreases sizes@.len() - i,
        {
            let v = sizes[i];
            proof {
                lemma_candidate_bounds(i as int);
            }
            let rem = v % m;
            let up: u32 = if rem == 0 {
                v
            } else {
                proof {
                    lemma_round_up_fits(v, m);
                }
                v - rem + m
            };
            rounded.push(up);
            i = i + 1;
        }
        let unique = unique_values(rounded);
        let r = sorted_values(unique);
        proof {
            unique@.lemma_multiset_has_no_duplicates();
            assert forall|x: u32| r@.to_multiset().contains(x) implies r@.to_multiset().count(x)
                == 1 by {
                assert(unique@.to_multiset().contains(x));
            }
            r@.lemma_multiset_has_no_duplicates_conv();
            assert forall|x: u32| r@.contains(x) <==> unique@.contains(x) by {
                vstd::seq_lib::to_multiset_contains(r@, x);
                vstd::seq_lib::to_multiset_contains(unique@, x);
            }
            assert forall|x: u32| rounded@.contains(x) <==> exists|k: int|
                0 <= k < candidate_sizes().len() && x == round_up_spec(
                    #[trigger] candidate_sizes()[k] as int,
                    self.max_size as int,
                ) by {
                if rounded@.contains(x) {
                    let k = choose|k: int| 0 <= k < rounded@.len() && rounded@[k] == x;
                    assert(x == round_up_spec(candidate_sizes()[k] as int, self.max_size as int));
                }
                if exists|k: int|
                    0 <= k < candidate_sizes().len() && x == round_up_spec(
                        #[trigger] candidate_sizes()[k] as int,
                        self.max_size as int,
                    ) {
                    let k = choose|k: int|
                        0 <= k < candidate_sizes().len() && x == round_up_spec(
                            #[trigger] candidate_sizes()[k] as int,
                            self.max_size as int,
                        );
                    assert(rounded@[k] == x);
                }
            }
        }
        r
    }
}

/// Every candidate size is between one and `2^29`.
proof fn lemma_candidate_bounds(k: int)
    requires
        0 <= k < candidate_sizes().len(),
    ensures
        1 <= candidate_sizes()[k] <= 0x2000_0000,
{
    let s = candidate_sizes();
    if k == 0 {
    } else if k == 16 {
        assert(s[16] == 1u32 << 29u32);
        assert(1u32 << 29u32 == 0x2000_0000) by (bit_vector);
    } else {
        let e = (2 * (k - 1)) as u32;
        assert(s[k] == 1u32 << e);
        assert(1 <= 1u32 << e <= 0x2000_0000) by (bit_vector)
            requires
                e <= 28,
        ;
    }
}

/// Rounding a value of at most `2^29` up to a multiple of a positive `m`
/// stays within `u32`.
proof fn lemma_round_up_fits(v: u32, m: u32)
    requires
        1 <= v <= 0x2000_0000,
        m > 0,
        v % m != 0,
    ensures
        v - v % m + m <= u32::MAX,
        v % m <= v,
{
    vstd::arithmetic::div_mod::lemma_fundamental_div_mod(v as int, m as int);
    if v < m {
        vstd::arithmetic::div_mod::lemma_small_mod(v as nat, m as nat);
    } else {
        assert(v % m < m) by {
            vstd::arithmetic::div_mod::lemma_mod_pos_bound(v as int, m as int);
        }
        assert(m * ((v / m) as int) >= 0) by {
            vstd::arithmetic::div_mod::lemma_div_pos_is_pos(v as int, m as int);
            vstd::arithmetic::mul::lemma_mul_nonnegative(m as int, (v / m) as int);
        }
    }
}

} // verus!
