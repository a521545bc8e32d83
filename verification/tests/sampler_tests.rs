use termdash::sampler::{
    make_sample, memory_percent, resolve_cpu, value_or_placeholder, Sample, SamplerError,
};

#[test]
fn memory_percent_example() {
    assert_eq!(memory_percent(1000, 400), Ok(60));
}

#[test]
fn memory_percent_zero_total_is_division_by_zero() {
    assert_eq!(memory_percent(0, 0), Err(SamplerError::DivisionByZero));
}

#[test]
fn memory_percent_stays_in_bounds() {
    for (total, free) in [
        (1u64, 0u64),
        (1, 1),
        (3, 1),
        (1000, 0),
        (1000, 1000),
        (u64::MAX, 0),
        (u64::MAX, u64::MAX),
        (u64::MAX, 1),
    ] {
        let got = memory_percent(total, free).unwrap();
        assert!(got <= 100, "total={total} free={free} got={got}");
    }
}

#[test]
fn memory_percent_boundaries_exact() {
    assert_eq!(memory_percent(1000, 0), Ok(100));
    assert_eq!(memory_percent(1000, 1000), Ok(0));
    assert_eq!(memory_percent(3, 1), Ok(66));
}

#[test]
fn resolve_cpu_clamps_and_absorbs_failure() {
    assert_eq!(resolve_cpu(&Ok(30)), Some(30));
    assert_eq!(resolve_cpu(&Ok(100)), Some(100));
    assert_eq!(resolve_cpu(&Ok(150)), Some(100));
    assert_eq!(resolve_cpu(&Err(SamplerError::Unavailable)), None);
}

#[test]
fn make_sample_combines_readings() {
    let s = make_sample(&Ok(30), 1000, 400);
    assert_eq!(s, Sample { cpu_percent: Some(30), mem_percent: Some(60) });
}

#[test]
fn make_sample_degrades_each_failure_to_placeholder() {
    let s = make_sample(&Err(SamplerError::Unavailable), 0, 0);
    assert_eq!(s, Sample { cpu_percent: None, mem_percent: None });
    let s = make_sample(&Err(SamplerError::Unavailable), 1000, 250);
    assert_eq!(s, Sample { cpu_percent: None, mem_percent: Some(75) });
    let s = make_sample(&Ok(12), 0, 0);
    assert_eq!(s, Sample { cpu_percent: Some(12), mem_percent: None });
}

#[test]
fn placeholder_value_is_zero() {
    assert_eq!(value_or_placeholder(&Some(42)), 42);
    assert_eq!(value_or_placeholder(&None), 0);
}
