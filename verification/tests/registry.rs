use std::io::{Error, ErrorKind};
use std::sync::Arc;
use std::time::Duration;

use tokio::runtime::{Builder, Runtime};
use tokio_go::config::{resolve_profile, wait_limit, Context, DEFAULT_PROFILE};
use tokio_go::registry::{init_runtime, Registry};
use tokio_go::table::{Ensured, SlotTable, SLOTS};

#[test]
fn a_new_table_is_empty() {
    let table = SlotTable::new();
    assert_eq!(SLOTS, 256);
    for p in 0..=255u8 {
        assert!(!table.is_populated(p));
    }
}

#[test]
fn ensure_builds_once_and_then_finds() {
    let mut table = SlotTable::new();
    assert_eq!(table.ensure(5).unwrap(), Ensured::Constructed);
    assert!(table.is_populated(5));
    assert_eq!(table.ensure(5).unwrap(), Ensured::AlreadyPresent);
    assert_eq!(table.ensure(5).unwrap(), Ensured::AlreadyPresent);
    for p in 0..=255u8 {
        assert_eq!(table.is_populated(p), p == 5);
    }
}

#[test]
fn ensure_reaches_both_ends_of_the_table() {
    let mut table = SlotTable::new();
    assert_eq!(table.ensure(0).unwrap(), Ensured::Constructed);
    assert_eq!(table.ensure(255).unwrap(), Ensured::Constructed);
    assert!(table.is_populated(0));
    assert!(table.is_populated(255));
    assert!(!table.is_populated(1));
    assert!(!table.is_populated(254));
}

#[test]
fn a_failed_build_leaves_the_slot_empty_and_can_be_retried() {
    let mut table = SlotTable::new();
    let failed = table.install(9, Err(Error::new(ErrorKind::OutOfMemory, "no threads left")));
    let cause = failed.unwrap_err().cause;
    assert_eq!(cause.kind(), ErrorKind::OutOfMemory);
    assert!(!table.is_populated(9));
    assert_eq!(table.install(9, Runtime::new()).unwrap(), Ensured::Constructed);
    assert!(table.is_populated(9));
}

#[test]
fn a_filled_slot_is_not_replaced() {
    let mut table = SlotTable::new();
    assert_eq!(table.install(3, Runtime::new()).unwrap(), Ensured::Constructed);
    assert_eq!(table.install(3, Runtime::new()).unwrap(), Ensured::AlreadyPresent);
    let late = table.install(3, Err(Error::new(ErrorKind::Other, "too late to matter")));
    assert_eq!(late.unwrap(), Ensured::AlreadyPresent);
    assert!(table.is_populated(3));
}

#[test]
fn table_spawn_runs_the_work() {
    let mut table = SlotTable::new();
    table.ensure(8).unwrap();
    let (tx, rx) = tokio::sync::oneshot::channel::<u16>();
    table.spawn(8, async move {
        let _ = tx.send(808);
    });
    assert_eq!(rx.blocking_recv(), Ok(808));
}

#[test]
fn init_runtime_fills_only_the_slot_asked_for() {
    let registry = Registry::new();
    assert!(!registry.is_populated(1));
    assert_eq!(init_runtime(&registry, 1).unwrap(), Ensured::Constructed);
    assert!(registry.is_populated(1));
    assert!(!registry.is_populated(0));
    assert!(!registry.is_populated(2));
    assert_eq!(init_runtime(&registry, 1).unwrap(), Ensured::AlreadyPresent);
}

#[test]
fn submit_builds_the_backend_when_it_is_missing() {
    let registry = Registry::new();
    let (tx, rx) = tokio::sync::oneshot::channel::<u16>();
    let first = registry.submit(6, async move {
        let _ = tx.send(66);
    });
    assert_eq!(first.unwrap(), Ensured::Constructed);
    assert_eq!(rx.blocking_recv(), Ok(66));
    let (tx, rx) = tokio::sync::oneshot::channel::<u16>();
    let second = registry.submit(6, async move {
        let _ = tx.send(67);
    });
    assert_eq!(second.unwrap(), Ensured::AlreadyPresent);
    assert_eq!(rx.blocking_recv(), Ok(67));
}

#[test]
fn concurrent_callers_build_one_backend() {
    let registry = Arc::new(Registry::new());
    let pool = Builder::new_multi_thread().worker_threads(2).max_blocking_threads(16).build().unwrap();
    let mut calls = Vec::new();
    for _ in 0..16 {
        let shared = registry.clone();
        calls.push(pool.spawn_blocking(move || {
            let outcome = init_runtime(&shared, 42).unwrap();
            (outcome, shared.is_populated(42))
        }));
    }
    let mut built: u32 = 0;
    let mut found: u32 = 0;
    for call in calls {
        let (outcome, populated) = pool.block_on(call).unwrap();
        assert!(populated);
        match outcome {
            Ensured::Constructed => built += 1,
            Ensured::AlreadyPresent => found += 1,
        }
    }
    assert_eq!(built, 1);
    assert_eq!(found, 15);
    assert!(registry.is_populated(42));
}

#[test]
fn concurrent_callers_on_every_profile() {
    let registry = Arc::new(Registry::new());
    let pool = Builder::new_multi_thread().worker_threads(2).max_blocking_threads(8).build().unwrap();
    let mut calls = Vec::new();
    for round in 0..3u32 {
        for p in [0u8, 1, 127, 128, 255] {
            let shared = registry.clone();
            calls.push((p, round, pool.spawn_blocking(move || init_runtime(&shared, p).unwrap())));
        }
    }
    let mut built = vec![0u32; 256];
    for (p, _round, call) in calls {
        if pool.block_on(call).unwrap() == Ensured::Constructed {
            built[p as usize] += 1;
        }
    }
    for p in 0..=255u8 {
        let wanted = [0u8, 1, 127, 128, 255].contains(&p);
        assert_eq!(built[p as usize], if wanted { 1 } else { 0 });
        assert_eq!(registry.is_populated(p), wanted);
    }
}

#[test]
fn profile_comes_from_the_configuration_or_is_the_default() {
    assert_eq!(DEFAULT_PROFILE, 0);
    assert_eq!(resolve_profile(&None), 0);
    assert_eq!(resolve_profile(&Some(Context { profile: 0, timeout: Duration::ZERO })), 0);
    assert_eq!(resolve_profile(&Some(Context { profile: 1, timeout: Duration::from_secs(1) })), 1);
    assert_eq!(resolve_profile(&Some(Context { profile: 255, timeout: Duration::ZERO })), 255);
}

#[test]
fn zero_timeout_means_no_limit() {
    assert_eq!(wait_limit(&None), None);
    assert_eq!(wait_limit(&Some(Context { profile: 1, timeout: Duration::ZERO })), None);
    assert_eq!(wait_limit(&Some(Context { profile: 1, timeout: Duration::new(0, 0) })), None);
    assert_eq!(
        wait_limit(&Some(Context { profile: 1, timeout: Duration::from_secs(1) })),
        Some(Duration::from_secs(1))
    );
    assert_eq!(
        wait_limit(&Some(Context { profile: 0, timeout: Duration::from_nanos(1) })),
        Some(Duration::from_nanos(1))
    );
    assert_eq!(
        wait_limit(&Some(Context { profile: 9, timeout: Duration::MAX })),
        Some(Duration::MAX)
    );
}
