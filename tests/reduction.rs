use gpu_compute::data::{generate_data, Workload, VALUE_BOUND};
use gpu_compute::reduce::{reduce, BlendMethod, ReferenceResult};

#[test]
fn sum_of_small_values() {
    assert_eq!(reduce(BlendMethod::Add, &vec![1, 2, 3, 4]), Some(10));
}

#[test]
fn sum_wraps_at_u32() {
    assert_eq!(reduce(BlendMethod::Add, &vec![u32::MAX, 2]), Some(1));
}

#[test]
fn min_of_values() {
    assert_eq!(reduce(BlendMethod::Min, &vec![7, 3, 9, 3, 5]), Some(3));
}

#[test]
fn empty_reduces_to_none() {
    assert_eq!(reduce(BlendMethod::Add, &vec![]), None);
    assert_eq!(reduce(BlendMethod::Min, &vec![]), None);
}

#[test]
fn single_value_reduces_to_itself() {
    assert_eq!(reduce(BlendMethod::Min, &vec![42]), Some(42));
}

#[test]
fn combine_operators() {
    assert_eq!(BlendMethod::Add.combine(2, 3), 5);
    assert_eq!(BlendMethod::Min.combine(2, 3), 2);
    assert_eq!(BlendMethod::Add.combine(u32::MAX, u32::MAX), u32::MAX - 1);
}

#[test]
fn chunked_sum_matches_whole_sum() {
    let data = vec![5, 1, 8, 2, 9, 4, 7];
    let whole = reduce(BlendMethod::Add, &data).unwrap();
    let partial = vec![
        reduce(BlendMethod::Add, &vec![5, 1]).unwrap(),
        reduce(BlendMethod::Add, &vec![8, 2, 9]).unwrap(),
        reduce(BlendMethod::Add, &vec![4, 7]).unwrap(),
    ];
    assert_eq!(reduce(BlendMethod::Add, &partial), Some(whole));
}

#[test]
fn chunked_min_matches_whole_min() {
    let partial = vec![
        reduce(BlendMethod::Min, &vec![5, 1]).unwrap(),
        reduce(BlendMethod::Min, &vec![8, 2, 9]).unwrap(),
    ];
    assert_eq!(reduce(BlendMethod::Min, &partial), Some(1));
}

#[test]
fn zero_padding_keeps_sum() {
    let r = ReferenceResult::from_data(BlendMethod::Add, &vec![3, 4]).unwrap();
    assert!(r.accepts(&vec![7, 0, 0, 0]));
    assert!(r.accepts(&vec![3, 4, 0]));
}

#[test]
fn reference_accepts_and_rejects() {
    let r = ReferenceResult::from_data(BlendMethod::Add, &vec![1, 2, 3]).unwrap();
    assert_eq!(r.expected, 6);
    assert_eq!(r.method, BlendMethod::Add);
    assert!(r.accepts(&vec![6]));
    assert!(r.accepts(&vec![1, 5]));
    assert!(!r.accepts(&vec![5]));
    assert!(!r.accepts(&vec![]));
}

#[test]
fn reference_of_empty_data() {
    assert_eq!(ReferenceResult::from_data(BlendMethod::Min, &vec![]), None);
}

#[test]
fn generated_data_has_length_and_bound() {
    let d = generate_data(1000);
    assert_eq!(d.len(), 1000);
    assert!(d.iter().all(|v| *v < VALUE_BOUND));
}

#[test]
fn generated_data_is_deterministic_and_varied() {
    let a = generate_data(200);
    let b = generate_data(200);
    assert_eq!(a, b);
    let distinct = (0..VALUE_BOUND).filter(|v| a.contains(v)).count();
    assert!(distinct > 5);
}

#[test]
fn generated_data_prefix_is_stable() {
    let short = generate_data(10);
    let long = generate_data(50);
    assert_eq!(&long[..10], &short[..]);
}

#[test]
fn generate_empty() {
    assert!(generate_data(0).is_empty());
}

#[test]
fn workload_reference_matches_data() {
    let w = Workload::generate(64, BlendMethod::Add).unwrap();
    assert_eq!(w.data.len(), 64);
    assert_eq!(w.reference.expected, w.data.iter().sum::<u32>());
    let m = Workload::generate(64, BlendMethod::Min).unwrap();
    assert_eq!(m.reference.expected, *m.data.iter().min().unwrap());
}

#[test]
fn workload_of_nothing() {
    assert!(Workload::generate(0, BlendMethod::Add).is_none());
}

#[test]
fn generated_data_first_values() {
    assert_eq!(
        generate_data(20),
        vec![2, 9, 1, 6, 6, 5, 2, 2, 8, 5, 3, 4, 8, 4, 4, 0, 6, 4, 7, 3]
    );
}
