use gpu_compute::cache::RenderPassCache;
use gpu_compute::dataset::{
    summarize, Allegiance, Government, PopulatedSystem, Station, StationType,
};
use gpu_compute::device::{select_device, DeviceCandidate, DeviceChoice, DeviceLimits, DeviceType, QueueFamily};
use gpu_compute::image::{pixel_bits, pixel_size_matches, ImageExtent};
use gpu_compute::launch::QuadMethod;
use gpu_compute::subgroup::{digest_colour, group_size_histogram, hashed_colours, rgb_channels};
use gpu_compute::tiles::tile_grid;

fn fam(graphics: bool, compute: bool) -> QueueFamily {
    QueueFamily { graphics, compute }
}

fn cand(device_type: DeviceType, queue_families: Vec<QueueFamily>) -> DeviceCandidate {
    DeviceCandidate { device_type, queue_families }
}

#[test]
fn prefers_discrete_gpu() {
    let c = vec![
        cand(DeviceType::IntegratedGpu, vec![fam(true, true)]),
        cand(DeviceType::DiscreteGpu, vec![fam(true, true), fam(false, true)]),
    ];
    assert_eq!(
        select_device(&c),
        Some(DeviceChoice { device: 1, graphics_family: 0, compute_family: 1 })
    );
}

#[test]
fn skips_device_without_graphics() {
    let c = vec![
        cand(DeviceType::DiscreteGpu, vec![fam(false, true)]),
        cand(DeviceType::Cpu, vec![fam(true, true)]),
    ];
    let ch = select_device(&c).unwrap();
    assert_eq!(ch, DeviceChoice { device: 1, graphics_family: 0, compute_family: 0 });
    assert!(!ch.separate_compute_queue());
}

#[test]
fn first_device_wins_a_tie() {
    let c = vec![
        cand(DeviceType::VirtualGpu, vec![fam(false, false), fam(true, false), fam(true, true)]),
        cand(DeviceType::VirtualGpu, vec![fam(true, true)]),
    ];
    assert_eq!(
        select_device(&c),
        Some(DeviceChoice { device: 0, graphics_family: 1, compute_family: 2 })
    );
}

#[test]
fn no_usable_device() {
    assert_eq!(select_device(&vec![]), None);
    let c = vec![cand(DeviceType::DiscreteGpu, vec![fam(true, false)])];
    assert_eq!(select_device(&c), None);
}

#[test]
fn device_type_ranks() {
    assert_eq!(DeviceType::DiscreteGpu.rank(), 0);
    assert_eq!(DeviceType::Other.rank(), 4);
    assert_eq!(DeviceType::Unknown.rank(), 5);
}

#[test]
fn limits_take_smaller_dimension() {
    let l = DeviceLimits::new(16384, 32768, false).unwrap();
    assert_eq!(l.max_size, 16384);
    assert_eq!(l.gpu_thread_count(), 16384);
    assert_eq!(l.quad_methods(), vec![QuadMethod::two_triangles, QuadMethod::large_triangle]);
    assert_eq!(DeviceLimits::new(0, 4096, true), None);
}

#[test]
fn profiling_sizes_power_of_two_limit() {
    let l = DeviceLimits::new(16384, 16384, true).unwrap();
    assert_eq!(
        l.profiling_sizes(),
        vec![
            16384, 65536, 262144, 1048576, 4194304, 16777216, 67108864, 268435456, 536870912
        ]
    );
}

#[test]
fn profiling_sizes_odd_limit() {
    let l = DeviceLimits::new(3, 3, false).unwrap();
    assert_eq!(
        l.profiling_sizes(),
        vec![
            3, 6, 18, 66, 258, 1026, 4098, 16386, 65538, 262146, 1048578, 4194306, 16777218,
            67108866, 268435458, 536870913
        ]
    );
}

#[test]
fn profiling_sizes_huge_limit() {
    let l = DeviceLimits::new(u32::MAX, u32::MAX, false).unwrap();
    assert_eq!(l.profiling_sizes(), vec![u32::MAX]);
}

#[test]
fn pixel_formats() {
    assert_eq!(pixel_bits([32, 0, 0, 0]), 32);
    assert_eq!(pixel_bits([8, 8, 8, 8]), 32);
    assert!(pixel_size_matches([8, 8, 8, 8], 4));
    assert!(!pixel_size_matches([8, 8, 8, 0], 4));
    assert!(!pixel_size_matches([8, 0, 0, 0], usize::MAX));
}

#[test]
fn texel_counts() {
    assert_eq!(ImageExtent::Dim1d { width: 1024, array_layers: 1 }.texel_count(), Some(1024));
    assert_eq!(
        ImageExtent::Dim2d { width: 16, height: 8, array_layers: 2 }.texel_count(),
        Some(256)
    );
    assert_eq!(ImageExtent::Dim3d { width: 4, height: 4, depth: 4 }.texel_count(), Some(64));
    assert_eq!(
        ImageExtent::Dim2d { width: 0x10000, height: 0x10000, array_layers: 1 }.texel_count(),
        None
    );
}

#[test]
fn digest_colours() {
    let c = hashed_colours(&vec![[0, 0, 0, 0], [1, 2, 3, 4], [0, 0, 0, 0]]);
    assert_eq!(c, vec![139, 10, 35, 150, 109, 189, 139, 10, 35]);
}

#[test]
fn raw_channels() {
    assert_eq!(rgb_channels(&vec![[1, 2, 3, 4], [5, 6, 7, 8]]), vec![1, 2, 3, 5, 6, 7]);
    assert!(rgb_channels(&vec![]).is_empty());
}

#[test]
fn group_sizes() {
    let a = [1, 0, 0, 0];
    let b = [2, 0, 0, 0];
    let c = [3, 0, 0, 0];
    assert_eq!(group_size_histogram(&vec![a, a, b, c, c, c]), vec![(1, 1), (2, 1), (3, 1)]);
    assert_eq!(group_size_histogram(&vec![a, b, a, b, c]), vec![(1, 1), (2, 2)]);
    assert_eq!(group_size_histogram(&vec![a, a, a, a]), vec![(4, 1)]);
    assert!(group_size_histogram(&vec![]).is_empty());
}

fn reference_tiling(w: u32, h: u32, rgb: &[u8]) -> Vec<u8> {
    let t = 4u32;
    let ow = w * t + (w - 1);
    let oh = h * t + (h - 1);
    let mut out = vec![255u8; (ow * oh * 3) as usize];
    let mut put = |x: u32, y: u32, p: [u8; 3]| {
        let i = ((y * ow + x) * 3) as usize;
        out[i..i + 3].copy_from_slice(&p);
    };
    for y in 0..h {
        for x in 0..w {
            let i = ((y * w + x) * 3) as usize;
            let p = [rgb[i], rgb[i + 1], rgb[i + 2]];
            for dx in 0..t {
                for dy in 0..t {
                    put(x * (t + 1) + dx, y * (t + 1) + dy, p);
                }
            }
        }
    }
    for y in (2..h).step_by(2) {
        for x in 0..ow {
            put(x, y * (t + 1) - 1, [0; 3]);
        }
    }
    for x in (2..w).step_by(2) {
        for y in 0..oh {
            put(x * (t + 1) - 1, y, [0; 3]);
        }
    }
    out
}

#[test]
fn tiles_match_layout() {
    for (w, h) in [(1u32, 1u32), (3, 3), (5, 2), (2, 6)] {
        let rgb: Vec<u8> = (0..w * h * 3).map(|i| (i % 250) as u8 + 1).collect();
        let t = tile_grid(w, h, &rgb).unwrap();
        assert_eq!(t.width, w * 5 - 1);
        assert_eq!(t.height, h * 5 - 1);
        assert_eq!(t.rgb, reference_tiling(w, h, &rgb));
    }
}

#[test]
fn tiles_of_empty_image() {
    assert!(tile_grid(0, 3, &vec![]).is_none());
}

fn station(ty: StationType) -> Station {
    Station {
        id: 1,
        market_id: 2,
        ty,
        name: String::from("Dock"),
        have_market: true,
        have_shipyard: false,
        have_outfitting: false,
    }
}

fn system(population: u64, stations: Vec<Station>) -> PopulatedSystem {
    PopulatedSystem {
        id: 7,
        name: String::from("Sol"),
        allegiance: Allegiance::default(),
        government: Government::default(),
        population,
        stations,
    }
}

#[test]
fn dataset_totals() {
    let systems = vec![
        system(100, vec![station(StationType::FleetCarrier), station(StationType::Outpost)]),
        system(u64::MAX, vec![station(StationType::FleetCarrier)]),
        system(5, vec![]),
    ];
    let s = summarize(&systems);
    assert_eq!(s.systems, 3);
    assert_eq!(s.people, 105 + u64::MAX as u128);
    assert_eq!(s.stations, 3);
    assert_eq!(s.fleet_carriers, 2);
}

#[test]
fn dataset_defaults() {
    assert_eq!(Allegiance::default(), Allegiance::Independent);
    assert_eq!(Government::default(), Government::Anarchy);
    let s = summarize(&vec![]);
    assert_eq!(s.people, 0);
}

#[test]
fn render_pass_cache_memoises_per_format() {
    let mut c: RenderPassCache<String> = RenderPassCache::new();
    assert!(c.get(Some(98)).is_none());
    c.insert(Some(98), String::from("r32"));
    c.insert(None, String::from("none"));
    assert_eq!(c.get(Some(98)).map(|s| s.as_str()), Some("r32"));
    assert_eq!(c.get(None).map(|s| s.as_str()), Some("none"));
    assert!(c.get(Some(37)).is_none());
    c.insert(Some(98), String::from("again"));
    assert_eq!(c.get(Some(98)).map(|s| s.as_str()), Some("again"));
}

#[test]
fn colour_of_a_digest() {
    assert_eq!(digest_colour(&vec![9, 8, 7, 6, 5]), [9, 8, 7]);
}
