use kanto::{CoreAllocation, NativeConfig, NativeThreadRuntime, SpawnError, TokioConfig};

fn pool(max_threads: usize, core_allocation: CoreAllocation) -> NativeThreadRuntime {
    NativeThreadRuntime::new(NativeConfig {
        core_allocation,
        max_threads,
        priority: 0,
        name_base: "native".to_string(),
        stack_size_bytes: 65536,
    })
}

#[test]
fn default_configurations() {
    let tokio = TokioConfig::default();
    assert_eq!(tokio.worker_threads, 1);
    assert_eq!(tokio.max_blocking_threads, 1);
    assert_eq!(tokio.priority, 0);
    assert_eq!(tokio.stack_size_bytes, 2 * 1024 * 1024);
    assert_eq!(tokio.event_interval, 61);
    assert!(matches!(tokio.core_allocation, CoreAllocation::OsDefault));
    let native = NativeConfig::default();
    assert_eq!(native.max_threads, 10);
    assert_eq!(native.priority, 0);
    assert_eq!(native.stack_size_bytes, 2 * 1024 * 1024);
    assert_eq!(native.name_base, "thread");
    assert!(matches!(native.core_allocation, CoreAllocation::OsDefault));
}

#[test]
fn new_pool_has_no_threads() {
    let pool = NativeThreadRuntime::new(NativeConfig::default());
    assert_eq!(pool.id_count, 0);
    assert_eq!(pool.running_count, 0);
    assert_eq!(pool.config.name_base, "thread");
}

#[test]
fn admitted_thread_has_name_stack_and_cores() {
    let mut pool = pool(2, CoreAllocation::DedicatedCoreSet { min: 1, max: 3 });
    let order = pool.spawn().unwrap();
    assert_eq!(order.name, "native-0");
    assert_eq!(order.stack_size_bytes, 65536);
    assert_eq!(order.cores, vec![1, 2]);
    assert_eq!(pool.id_count, 1);
    assert_eq!(pool.running_count, 0);
}

#[test]
fn thread_without_allocation_may_use_all_cores() {
    let mut pool = pool(2, CoreAllocation::OsDefault);
    let order = pool.spawn_on(3).unwrap();
    assert_eq!(order.cores, vec![0, 1, 2]);
    let order = pool.spawn().unwrap();
    assert_eq!(order.name, "native-1");
    assert_eq!(order.cores.len(), affinity::get_core_num());
    assert_eq!(order.cores[0], 0);
}

#[test]
fn full_pool_refuses_until_a_thread_is_joined() {
    let mut pool = pool(2, CoreAllocation::DedicatedCoreSet { min: 0, max: 1 });
    assert_eq!(pool.spawn().unwrap().name, "native-0");
    let mut first = pool.started("first");
    assert_eq!(pool.spawn().unwrap().name, "native-1");
    let second = pool.started("second");
    assert_eq!(pool.running_count, 2);
    let refusal = pool.spawn().unwrap_err();
    assert_eq!(refusal, SpawnError::AllThreadsSpawned);
    assert_eq!(
        refusal.message(),
        "All allowed threads in this pool are already spawned"
    );
    assert_eq!(pool.id_count, 2);

    assert!(first.needs_join());
    assert_eq!(first.join_inner(), "first");
    assert!(!first.needs_join());
    pool.joined();
    assert_eq!(pool.running_count, 1);
    assert_eq!(pool.spawn().unwrap().name, "native-2");
    assert_eq!(second.join(), "second");
    pool.joined();
    assert_eq!(pool.running_count, 0);
}

#[test]
fn thread_that_did_not_start_is_not_counted() {
    let mut pool = pool(1, CoreAllocation::DedicatedCoreSet { min: 0, max: 1 });
    assert_eq!(pool.spawn().unwrap().name, "native-0");
    assert_eq!(pool.running_count, 0);
    assert_eq!(pool.spawn().unwrap().name, "native-1");
}

#[test]
fn pool_of_no_threads_refuses_whatever_its_cores() {
    let mut pool = pool(0, CoreAllocation::PinnedCores { min: 0, max: 4 });
    assert!(pool.spawn().is_err());
}

#[test]
fn numbers_wrap_around() {
    let mut pool = pool(1, CoreAllocation::OsDefault);
    pool.id_count = usize::MAX;
    assert_eq!(
        pool.spawn_on(1).unwrap().name,
        format!("native-{}", usize::MAX)
    );
    assert_eq!(pool.spawn_on(1).unwrap().name, "native-0");
}

#[test]
fn joined_thread_is_finished() {
    let mut pool = pool(1, CoreAllocation::OsDefault);
    let mut handle = pool.started(7u32);
    assert!(!handle.is_finished(|_: &u32| false));
    assert!(handle.is_finished(|h: &u32| *h == 7));
    handle.join_inner();
    assert!(handle.is_finished(|_: &u32| false));
}

#[test]
fn order_binds_the_current_thread() {
    let core = affinity::get_thread_affinity().unwrap()[0];
    let mut pool = pool(
        1,
        CoreAllocation::DedicatedCoreSet { min: core, max: core + 1 },
    );
    let order = pool.spawn().unwrap();
    order.bind().unwrap();
    assert_eq!(affinity::get_thread_affinity().unwrap(), vec![core]);
}
