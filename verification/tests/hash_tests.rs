use expr_kernels::errors::KernelError;
use expr_kernels::feature_hasher::{feature_hasher, FeatureHasherKwargs};

fn run(num_buckets: i64, input: &[Option<&str>]) -> Result<Vec<u64>, KernelError> {
    let values: Vec<Option<String>> = input.iter().map(|o| o.map(|s| s.to_string())).collect();
    feature_hasher(&values, FeatureHasherKwargs { num_buckets })
}

#[test]
fn hash_invalid_num_buckets() {
    assert_eq!(run(1, &[Some("a")]), Err(KernelError::InvalidParameter));
    assert_eq!(run(0, &[Some("a")]), Err(KernelError::InvalidParameter));
    assert_eq!(run(-5, &[Some("a")]), Err(KernelError::InvalidParameter));
}

#[test]
fn hash_scenario_ten_buckets() {
    let out = run(10, &[Some("a"), None, Some("a")]).unwrap();
    assert_eq!(out.len(), 3);
    let h = out[0];
    assert!((1..=9).contains(&h));
    assert_eq!(out[1], 0);
    assert_eq!(out[2], h);
}

#[test]
fn hash_two_buckets_always_one() {
    let out = run(2, &[Some("a"), Some(""), Some("some longer value"), None]).unwrap();
    assert_eq!(out, vec![1, 1, 1, 0]);
}

#[test]
fn hash_deterministic_across_calls() {
    let a = run(100, &[Some("feature"), Some("x")]).unwrap();
    let b = run(100, &[Some("x"), None, Some("feature")]).unwrap();
    assert_eq!(a[0], b[2]);
    assert_eq!(a[1], b[0]);
}

#[test]
fn hash_matches_reference_hash() {
    let out = run(10, &[Some("a")]).unwrap();
    let expected = ((fastmurmur3::hash("a".as_bytes()) % 9) + 1) as u64;
    assert_eq!(out[0], expected);
}

#[test]
fn hash_range_over_many_strings() {
    let names: Vec<String> = (0..200).map(|i| format!("feature_{i}")).collect();
    let values: Vec<Option<String>> = names.into_iter().map(Some).collect();
    let out = feature_hasher(&values, FeatureHasherKwargs { num_buckets: 7 }).unwrap();
    for b in out {
        assert!((1..=6).contains(&b));
    }
}

#[test]
fn hash_null_maps_to_zero_only() {
    let out = run(3, &[None, Some("a"), None]).unwrap();
    assert_eq!(out[0], 0);
    assert_eq!(out[2], 0);
    assert!(out[1] != 0);
}

#[test]
fn hash_empty_input() {
    let out = run(4, &[]).unwrap();
    assert!(out.is_empty());
}
