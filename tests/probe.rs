use cgwasm::decimal::{parse_trimmed_u64, push_decimal, trim_bounds};
use cgwasm::path::path_join;
use cgwasm::probe::{
    budget_from_readings, membership_path, FileRead, PidsCurrent, PidsMax, ProbeError,
    ResourceBudget,
};

fn budget(threads: usize, nproc: u64, nofile: u64, max: PidsMax, cur: PidsCurrent) -> ResourceBudget {
    ResourceBudget { threads_max: threads, nproc, nofile, pids_max: max, pids_current: cur }
}

#[test]
fn unlimited_pids_does_not_reduce_count() {
    let unlimited = budget(4000, 10_000, 1_000_000, PidsMax::Unlimited, PidsCurrent::Value(3990));
    assert_eq!(unlimited.replica_count(), 1000);
    let limited = budget(4000, 10_000, 1_000_000, PidsMax::Limit(400), PidsCurrent::Value(0));
    assert_eq!(limited.replica_count(), 100);
    assert!(unlimited.replica_count() >= limited.replica_count());
}

#[test]
fn all_limits_one_gives_one() {
    let b = budget(1, 1, 1, PidsMax::Limit(1), PidsCurrent::Value(1));
    assert_eq!(b.replica_count(), 1);
    let z = budget(0, 0, 0, PidsMax::Limit(0), PidsCurrent::Missing);
    assert_eq!(z.replica_count(), 1);
}

#[test]
fn count_is_min_of_limits_divided_by_four() {
    assert_eq!(budget(100, 80, 1000, PidsMax::Unavailable, PidsCurrent::Unreadable).replica_count(), 20);
    assert_eq!(budget(100, 1000, 41, PidsMax::Unavailable, PidsCurrent::Unreadable).replica_count(), 10);
    assert_eq!(budget(usize::MAX, u64::MAX, u64::MAX, PidsMax::Unlimited, PidsCurrent::Missing).replica_count(), usize::MAX / 4);
}

#[test]
fn pids_headroom_bounds_count() {
    // pids.current above pids.max leaves no headroom
    assert_eq!(budget(1000, 1000, 1000, PidsMax::Limit(10), PidsCurrent::Value(50)).replica_count(), 1);
    // a missing pids.current uses pids.max directly
    assert_eq!(budget(1000, 1000, 1000, PidsMax::Limit(200), PidsCurrent::Missing).replica_count(), 50);
    // an unreadable pids.current drops the pids bound
    assert_eq!(budget(1000, 1000, 1000, PidsMax::Limit(200), PidsCurrent::Unreadable).replica_count(), 250);
    assert_eq!(budget(1000, 1000, 1000, PidsMax::Limit(200), PidsCurrent::Value(40)).replica_count(), 40);
}

#[test]
fn readings_build_budget() {
    let b = budget_from_readings(
        b"126388\n",
        63194,
        1024,
        &FileRead::Contents(b"max\n".to_vec()),
        &FileRead::Contents(b"junk".to_vec()),
    )
    .unwrap();
    assert_eq!(b.threads_max, 126388);
    assert_eq!(b.pids_max, PidsMax::Unlimited);
    assert_eq!(b.replica_count(), 256);

    let b = budget_from_readings(
        b" 5000 ",
        5000,
        5000,
        &FileRead::Contents(b"1000\n".to_vec()),
        &FileRead::Contents(b"200\n".to_vec()),
    )
    .unwrap();
    assert_eq!(b.pids_max, PidsMax::Limit(1000));
    assert_eq!(b.pids_current, PidsCurrent::Value(200));
    assert_eq!(b.replica_count(), 200);

    let b = budget_from_readings(b"5000", 5000, 5000, &FileRead::NotFound, &FileRead::Failed).unwrap();
    assert_eq!(b.pids_max, PidsMax::Unavailable);
    assert_eq!(b.replica_count(), 1250);

    let b = budget_from_readings(
        b"5000",
        5000,
        5000,
        &FileRead::Contents(b"100".to_vec()),
        &FileRead::NotFound,
    )
    .unwrap();
    assert_eq!(b.pids_current, PidsCurrent::Missing);
    assert_eq!(b.replica_count(), 25);
}

#[test]
fn malformed_readings_are_errors() {
    assert_eq!(
        budget_from_readings(b"many", 1, 1, &FileRead::NotFound, &FileRead::NotFound),
        Err(ProbeError::MalformedThreadsMax)
    );
    assert_eq!(
        budget_from_readings(b"10", 1, 1, &FileRead::Contents(b"-3".to_vec()), &FileRead::NotFound),
        Err(ProbeError::MalformedPidsMax)
    );
    assert_eq!(
        budget_from_readings(
            b"10",
            1,
            1,
            &FileRead::Contents(b"30".to_vec()),
            &FileRead::Contents(b"".to_vec())
        ),
        Err(ProbeError::MalformedPidsCurrent)
    );
}

#[test]
fn membership_record_resolves_under_mount() {
    assert_eq!(membership_path(b"0::/user.slice/app.scope\n"), Some(b"/sys/fs/cgroup/user.slice/app.scope".to_vec()));
    assert_eq!(membership_path(b"0::/\n"), Some(b"/sys/fs/cgroup/".to_vec()));
    assert_eq!(membership_path(b"12:pids:/user.slice\n"), None);
    assert_eq!(membership_path(b""), None);
}

#[test]
fn decimal_parsing_and_printing() {
    assert_eq!(parse_trimmed_u64(b"  +42\t"), Some(42));
    assert_eq!(parse_trimmed_u64(b"18446744073709551615"), Some(u64::MAX));
    assert_eq!(parse_trimmed_u64(b"18446744073709551616"), None);
    assert_eq!(parse_trimmed_u64(b"+"), None);
    assert_eq!(parse_trimmed_u64(b"4 2"), None);
    assert_eq!(trim_bounds(b" \n"), (2, 2));
    let mut out = b"n=".to_vec();
    push_decimal(907, &mut out);
    assert_eq!(out, b"n=907".to_vec());
    let mut zero = Vec::new();
    push_decimal(0, &mut zero);
    assert_eq!(zero, b"0".to_vec());
}

#[test]
fn paths_join_like_std() {
    assert_eq!(path_join(b"/a/b", b"c"), b"/a/b/c".to_vec());
    assert_eq!(path_join(b"/a/b/", b"c"), b"/a/b/c".to_vec());
    assert_eq!(path_join(b"/a", b"/x"), b"/x".to_vec());
    assert_eq!(path_join(b"", b"c"), b"c".to_vec());
}
