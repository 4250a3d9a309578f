use kanto::manager::{is_startable_runtime, num_workers};
use kanto::tokio_builder::WORKER_LIMIT;
use kanto::{CoreAllocation, ManagerError, RuntimeManager, RuntimeManagerConfig, TokioConfig};
use std::sync::mpsc;
use std::time::Duration;

fn usable_core() -> usize {
    affinity::get_thread_affinity().unwrap()[0]
}

fn two_runtimes() -> RuntimeManagerConfig {
    let core = usable_core();
    let mut config = RuntimeManagerConfig::default();
    for name in ["tokio1", "tokio2"] {
        let mut tokio = TokioConfig::default();
        tokio.core_allocation = CoreAllocation::DedicatedCoreSet { min: core, max: core + 1 };
        tokio.worker_threads = 2;
        config.tokio_configs.insert(name.to_string(), tokio);
    }
    config
        .tokio_runtime_mapping
        .insert("axum1".to_string(), "tokio1".to_string());
    config
        .tokio_runtime_mapping
        .insert("axum2".to_string(), "tokio2".to_string());
    config
}

/// The cores that the thread of a task is bound to.
fn cores_of_tasks(runtime: &kanto::TokioRuntime) -> Vec<usize> {
    let (sender, receiver) = mpsc::channel();
    runtime.tokio.spawn(async move {
        sender
            .send(affinity::get_thread_affinity().unwrap())
            .unwrap();
    });
    receiver.recv_timeout(Duration::from_secs(10)).unwrap()
}

/// The name of a thread that does blocking work.
fn name_of_blocking_thread(runtime: &kanto::TokioRuntime) -> String {
    runtime.tokio.block_on(async {
        tokio::fs::read_to_string("/proc/thread-self/comm")
            .await
            .unwrap()
            .trim()
            .to_string()
    })
}

#[test]
fn default_configuration_makes_an_empty_manager() {
    let config = RuntimeManagerConfig::default();
    assert_eq!(config.tokio_configs.len(), 0);
    assert_eq!(config.tokio_runtime_mapping.len(), 0);
    assert_eq!(config.native_configs.len(), 0);
    assert_eq!(config.find_unstartable(1), None);
    let manager = RuntimeManager::new(config).unwrap();
    assert_eq!(manager.tokio_runtimes.len(), 0);
    assert!(manager.get_tokio("tokio1").is_none());
    assert_eq!(RuntimeManager::default().tokio_runtimes.len(), 0);
}

#[test]
fn mapped_names_find_their_runtimes() {
    let config = two_runtimes();
    assert_eq!(config.find_unstartable(1), None);
    let manager = RuntimeManager::new(config).unwrap();
    assert_eq!(manager.tokio_runtimes.len(), 2);
    let core = usable_core();
    for (name, third_thread) in [("axum1", "tokio1-2"), ("axum2", "tokio2-2")] {
        let runtime = manager.get_tokio(name).unwrap();
        assert_eq!(runtime.config.worker_threads, 2);
        assert_eq!(runtime.tokio.metrics().num_workers(), 2);
        assert_eq!(cores_of_tasks(runtime), vec![core]);
        assert_eq!(name_of_blocking_thread(runtime), third_thread);
        assert_eq!(runtime.tokio.block_on(async { 40 + 2 }), 42);
    }
}

#[test]
fn other_names_find_nothing() {
    let mut config = two_runtimes();
    config
        .tokio_runtime_mapping
        .insert("axum3".to_string(), "tokio3".to_string());
    let manager = RuntimeManager::new(config).unwrap();
    assert!(manager.get_tokio("axum3").is_none());
    assert!(manager.get_tokio("tokio1").is_none());
    assert!(manager.get_tokio("").is_none());
}

#[test]
fn names_of_one_runtime_find_the_same() {
    let mut config = two_runtimes();
    config
        .tokio_runtime_mapping
        .insert("other".to_string(), "tokio1".to_string());
    let manager = RuntimeManager::new(config).unwrap();
    let first = manager.get_tokio("axum1").unwrap();
    let second = manager.get_tokio("other").unwrap();
    assert!(std::ptr::eq(first, second));
}

#[test]
fn native_pools_are_not_made() {
    let mut config = RuntimeManagerConfig::default();
    config
        .native_configs
        .insert("pool".to_string(), kanto::NativeConfig::default());
    let manager = RuntimeManager::new(config).unwrap();
    assert_eq!(manager.native_thread_runtimes.len(), 0);
}

#[test]
fn single_worker_is_the_waiting_thread() {
    let mut config = RuntimeManagerConfig::default();
    config
        .tokio_configs
        .insert("single".to_string(), TokioConfig::default());
    config
        .tokio_runtime_mapping
        .insert("main".to_string(), "single".to_string());
    let manager = RuntimeManager::new(config).unwrap();
    let runtime = manager.get_tokio("main").unwrap();
    let here = thread_priority::thread_native_id();
    let there = runtime
        .tokio
        .block_on(async { thread_priority::thread_native_id() });
    assert_eq!(here, there);
    assert_eq!(name_of_blocking_thread(runtime), "single-0");
}

#[test]
fn threads_are_numbered_by_runtime() {
    let mut config = RuntimeManagerConfig::default();
    for name in ["first", "second"] {
        config
            .tokio_configs
            .insert(name.to_string(), TokioConfig::default());
        config
            .tokio_runtime_mapping
            .insert(name.to_string(), name.to_string());
    }
    let manager = RuntimeManager::new(config).unwrap();
    for name in ["first", "second"] {
        let runtime = manager.get_tokio(name).unwrap();
        assert_eq!(name_of_blocking_thread(runtime), format!("{name}-0"));
    }
}

#[test]
fn zero_workers_stand_for_one_per_core() {
    let mut config = RuntimeManagerConfig::default();
    let mut tokio = TokioConfig::default();
    tokio.worker_threads = 0;
    config.tokio_configs.insert("all".to_string(), tokio);
    config
        .tokio_runtime_mapping
        .insert("all".to_string(), "all".to_string());
    let manager = RuntimeManager::new(config).unwrap();
    let runtime = manager.get_tokio("all").unwrap();
    assert_eq!(
        runtime.tokio.metrics().num_workers(),
        affinity::get_core_num()
    );
    assert_eq!(runtime.config.worker_threads, 0);
}

#[test]
fn pinned_workers_get_cores_of_the_range() {
    let core = usable_core();
    let mut config = RuntimeManagerConfig::default();
    let mut tokio = TokioConfig::default();
    tokio.core_allocation = CoreAllocation::PinnedCores { min: core, max: core + 1 };
    config.tokio_configs.insert("pinned".to_string(), tokio);
    config
        .tokio_runtime_mapping
        .insert("pinned".to_string(), "pinned".to_string());
    let manager = RuntimeManager::new(config).unwrap();
    let runtime = manager.get_tokio("pinned").unwrap();
    let cores = runtime.tokio.block_on(async {
        tokio::task::spawn_blocking(|| affinity::get_thread_affinity().unwrap())
            .await
            .unwrap()
    });
    assert_eq!(cores, vec![core]);
}

#[test]
fn first_thread_of_a_pinned_runtime_gets_the_last_core() {
    let cores = affinity::get_thread_affinity().unwrap();
    let last = cores[cores.len() - 1];
    let mut config = RuntimeManagerConfig::default();
    let mut tokio = TokioConfig::default();
    tokio.core_allocation = CoreAllocation::PinnedCores { min: 0, max: last + 1 };
    config.tokio_configs.insert("pinned".to_string(), tokio);
    config
        .tokio_runtime_mapping
        .insert("pinned".to_string(), "pinned".to_string());
    let manager = RuntimeManager::new(config).unwrap();
    let runtime = manager.get_tokio("pinned").unwrap();
    let cores = runtime.tokio.block_on(async {
        tokio::task::spawn_blocking(|| affinity::get_thread_affinity().unwrap())
            .await
            .unwrap()
    });
    assert_eq!(cores, vec![last]);
}

#[test]
fn threads_get_the_configured_priority() {
    for (priority, niceness) in [(0, "19"), (25, "9"), (256 + 25, "9")] {
        let mut config = RuntimeManagerConfig::default();
        let mut tokio = TokioConfig::default();
        tokio.priority = priority;
        config.tokio_configs.insert("nice".to_string(), tokio);
        config
            .tokio_runtime_mapping
            .insert("nice".to_string(), "nice".to_string());
        let manager = RuntimeManager::new(config).unwrap();
        let runtime = manager.get_tokio("nice").unwrap();
        let stat = runtime.tokio.block_on(async {
            tokio::fs::read_to_string("/proc/thread-self/stat")
                .await
                .unwrap()
        });
        let fields: Vec<&str> = stat.split(") ").nth(1).unwrap().split(' ').collect();
        assert_eq!(fields[16], niceness);
    }
}

#[test]
fn timers_and_sockets_work() {
    let manager = RuntimeManager::new(two_runtimes()).unwrap();
    let runtime = manager.get_tokio("axum1").unwrap();
    runtime.tokio.block_on(async {
        tokio::time::sleep(Duration::from_millis(1)).await;
        let listener = tokio::net::TcpListener::bind("127.0.0.1:0").await.unwrap();
        assert!(listener.local_addr().unwrap().port() > 0);
    });
}

#[test]
fn runtime_that_was_not_built_is_reported() {
    let mut manager = RuntimeManager::default();
    let name = "broken".to_string();
    let error = std::io::Error::new(std::io::ErrorKind::Other, "no more files");
    match manager.keep(&name, &TokioConfig::default(), Err(error)) {
        Err(ManagerError::Build { runtime, error }) => {
            assert_eq!(runtime, "broken");
            assert_eq!(error.to_string(), "no more files");
        }
        _ => panic!("a runtime that was not built is an error"),
    }
    assert_eq!(manager.tokio_runtimes.len(), 0);
}

#[test]
fn workers_are_counted() {
    let mut config = TokioConfig::default();
    config.worker_threads = 3;
    assert_eq!(num_workers(&config, 16), 3);
    config.worker_threads = 0;
    assert_eq!(num_workers(&config, 16), 16);
}

#[test]
fn machine_of_one_core_has_one_worker() {
    let mut config = RuntimeManagerConfig::default();
    let mut tokio = TokioConfig::default();
    tokio.worker_threads = 0;
    config.tokio_configs.insert("one".to_string(), tokio);
    config
        .tokio_runtime_mapping
        .insert("one".to_string(), "one".to_string());
    let manager = RuntimeManager::new_on(config, 1).unwrap();
    let runtime = manager.get_tokio("one").unwrap();
    assert_eq!(
        runtime.tokio.handle().runtime_flavor(),
        tokio::runtime::RuntimeFlavor::CurrentThread
    );
}

#[test]
fn runtimes_that_cannot_start() {
    let good = TokioConfig::default();
    assert!(is_startable_runtime("a", &good, 4));
    assert!(is_startable_runtime("a\0b", &good, 4));

    let mut config = good;
    config.event_interval = 0;
    assert!(!is_startable_runtime("a", &config, 4));

    let mut config = good;
    config.max_blocking_threads = 0;
    assert!(!is_startable_runtime("a", &config, 4));

    let mut config = good;
    config.worker_threads = 2;
    assert!(is_startable_runtime("a", &config, 4));
    assert!(!is_startable_runtime("a\0b", &config, 4));
    config.max_blocking_threads = usize::MAX - 2;
    assert!(is_startable_runtime("a", &config, 4));
    config.max_blocking_threads = usize::MAX - 1;
    assert!(!is_startable_runtime("a", &config, 4));

    let mut config = good;
    config.worker_threads = WORKER_LIMIT;
    assert!(is_startable_runtime("a", &config, 4));
    config.worker_threads = WORKER_LIMIT + 1;
    assert!(!is_startable_runtime("a", &config, 4));

    let mut config = good;
    config.stack_size_bytes = usize::MAX / 2 + 1;
    assert!(is_startable_runtime("a", &config, 4));
    config.worker_threads = 2;
    assert!(!is_startable_runtime("a", &config, 4));
    config.stack_size_bytes = usize::MAX / 2;
    assert!(is_startable_runtime("a", &config, 4));

    let mut config = good;
    config.worker_threads = 0;
    assert!(is_startable_runtime("a", &config, 4));
    assert!(is_startable_runtime("a", &config, 1));
    assert!(!is_startable_runtime("a", &config, 0));
    assert!(!is_startable_runtime("a", &config, WORKER_LIMIT + 1));
}

#[test]
fn configuration_that_cannot_start_is_turned_down() {
    let mut config = two_runtimes();
    let mut bad = TokioConfig::default();
    bad.event_interval = 0;
    config.tokio_configs.insert("bad".to_string(), bad);
    assert_eq!(config.find_unstartable(4), Some("bad".to_string()));
    match RuntimeManager::new(config) {
        Err(ManagerError::NotStartable { runtime }) => assert_eq!(runtime, "bad"),
        _ => panic!("the configuration cannot start"),
    }
}

#[test]
fn copy_of_a_configuration_has_the_same_entries() {
    let config = two_runtimes();
    let copy = config.clone();
    assert_eq!(copy.tokio_configs.len(), 2);
    assert_eq!(copy.tokio_configs.entry(1).0, "tokio2");
    assert_eq!(copy.tokio_configs.get("tokio2").unwrap().worker_threads, 2);
    assert_eq!(
        copy.tokio_runtime_mapping.get("axum1"),
        Some(&"tokio1".to_string())
    );
}
