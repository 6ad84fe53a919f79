use wark::deterministic_time::{
    clock_time_get, use_deterministic_time, ClockAnswer, MemoryModel, ERRNO_SUCCESS,
};

#[test]
fn the_clock_reads_zero_and_succeeds() {
    assert_eq!(clock_time_get(0, 0), ClockAnswer { time: 0, errno: 0 });
    assert_eq!(ERRNO_SUCCESS, 0);
}

#[test]
fn the_clock_ignores_the_clock_and_the_precision() {
    for clock_id in [0u32, 1, 2, 3, 255, u32::MAX] {
        for precision in [0u64, 1, 1_000_000, u64::MAX] {
            let answer = clock_time_get(clock_id, precision);
            assert_eq!(answer.time, 0);
            assert_eq!(answer.errno, 0);
        }
    }
}

#[test]
fn the_clock_is_overridden_in_five_namespaces() {
    let imports = use_deterministic_time();
    let listed: Vec<(&str, &str, MemoryModel)> = imports
        .iter()
        .map(|import| (import.namespace.as_str(), import.name.as_str(), import.model))
        .collect();
    assert_eq!(
        listed,
        vec![
            ("wasi", "clock_time_get", MemoryModel::Memory32),
            ("wasi_unstable", "clock_time_get", MemoryModel::Memory32),
            ("wasi_snapshot_preview1", "clock_time_get", MemoryModel::Memory32),
            ("wasix_32v1", "clock_time_get", MemoryModel::Memory32),
            ("wasix_64v1", "clock_time_get", MemoryModel::Memory64),
        ]
    );
}
