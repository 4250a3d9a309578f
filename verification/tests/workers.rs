use kanto::worker::{
    bind_current_thread, bind_thread, check_cores, next_cores, place_thread, prepare_thread,
    worker_priority, CoreStock, WorkerError, WorkerStart,
};
use kanto::{CoreAllocation, CORE_LIMIT, MAX_PRIORITY};

#[test]
fn pinned_threads_go_down_the_range() {
    let allocation = CoreAllocation::PinnedCores { min: 3, max: 6 };
    let mut left = allocation.cores();
    assert_eq!(next_cores(&allocation, &mut left).unwrap(), Some(vec![5]));
    assert_eq!(next_cores(&allocation, &mut left).unwrap(), Some(vec![4]));
    assert_eq!(next_cores(&allocation, &mut left).unwrap(), Some(vec![3]));
    assert!(matches!(
        next_cores(&allocation, &mut left),
        Err(WorkerError::NoCoreLeft)
    ));
    assert!(left.is_empty());
}

#[test]
fn dedicated_threads_share_the_set() {
    let allocation = CoreAllocation::DedicatedCoreSet { min: 3, max: 6 };
    let mut left = allocation.cores();
    for _ in 0..5 {
        assert_eq!(
            next_cores(&allocation, &mut left).unwrap(),
            Some(vec![3, 4, 5])
        );
    }
    assert_eq!(left, vec![3, 4, 5]);
}

#[test]
fn other_threads_run_anywhere() {
    let allocation = CoreAllocation::OsDefault;
    let mut left = allocation.cores();
    assert_eq!(next_cores(&allocation, &mut left).unwrap(), None);
}

#[test]
fn priority_is_cut_to_eight_bits() {
    assert_eq!(worker_priority(0).unwrap(), 0);
    assert_eq!(worker_priority(99).unwrap(), MAX_PRIORITY);
    assert_eq!(worker_priority(256).unwrap(), 0);
    assert_eq!(worker_priority(256 + 99).unwrap(), 99);
    assert!(matches!(
        worker_priority(100),
        Err(WorkerError::PriorityOutOfRange { priority: 100 })
    ));
    assert!(matches!(
        worker_priority(511),
        Err(WorkerError::PriorityOutOfRange { priority: 255 })
    ));
}

#[test]
fn refused_priority_ends_the_preparation() {
    let allocation = CoreAllocation::PinnedCores { min: 3, max: 6 };
    let mut stock = stock_of(&allocation);
    let setup = prepare_thread(
        7,
        &allocation,
        &mut stock,
        |priority: u8| Err(thread_priority::Error::OS(i32::from(priority))),
        |_: &Vec<usize>| panic!("no cores are set"),
    );
    assert!(matches!(
        setup,
        Err(WorkerError::PriorityRefused(thread_priority::Error::OS(7)))
    ));
    assert_eq!(stock.left, vec![3, 4, 5]);
    assert!(!stock.spoiled);
}

#[test]
fn machine_is_not_asked_for_what_is_no_priority() {
    let allocation = CoreAllocation::PinnedCores { min: 3, max: 6 };
    let mut stock = stock_of(&allocation);
    let setup = prepare_thread(
        200,
        &allocation,
        &mut stock,
        |_: u8| panic!("no priority is set"),
        |_: &Vec<usize>| panic!("no cores are set"),
    );
    assert!(matches!(
        setup,
        Err(WorkerError::PriorityOutOfRange { priority: 200 })
    ));
    assert_eq!(stock.left, vec![3, 4, 5]);
    assert!(!stock.spoiled);
}

#[test]
fn machine_is_told_the_priority_first() {
    let allocation = CoreAllocation::PinnedCores { min: 3, max: 6 };
    let mut stock = stock_of(&allocation);
    let told = std::cell::RefCell::new(Vec::new());
    let setup = prepare_thread(
        256 + 12,
        &allocation,
        &mut stock,
        |priority: u8| {
            told.borrow_mut().push(usize::from(priority));
            Ok(())
        },
        |cores: &Vec<usize>| {
            told.borrow_mut().extend(cores.clone());
            Ok(())
        },
    )
    .unwrap();
    assert_eq!(told.into_inner(), vec![12, 5]);
    assert_eq!(setup.priority, 12);
    assert_eq!(setup.cores, Some(vec![5]));
    assert_eq!(stock.left, vec![3, 4]);
}

#[test]
fn thread_that_cannot_be_placed_is_not_prepared() {
    let allocation = CoreAllocation::PinnedCores { min: 3, max: 3 };
    let mut stock = stock_of(&allocation);
    let setup = prepare_thread(
        0,
        &allocation,
        &mut stock,
        |_: u8| Ok(()),
        |_: &Vec<usize>| panic!("no cores are set"),
    );
    assert!(matches!(setup, Err(WorkerError::NoCoreLeft)));
    assert!(stock.spoiled);
}

fn stock_of(allocation: &CoreAllocation) -> CoreStock {
    CoreStock {
        left: allocation.cores(),
        spoiled: false,
    }
}

#[test]
fn runs_of_pinned_threads_go_down_the_range() {
    let allocation = CoreAllocation::PinnedCores { min: 3, max: 6 };
    let mut stock = stock_of(&allocation);
    for core in [5, 4, 3] {
        let mut told = Vec::new();
        let placed = place_thread(&allocation, &mut stock, |cores: &Vec<usize>| {
            told = cores.clone();
            Ok(())
        });
        assert_eq!(told, vec![core]);
        assert_eq!(placed.unwrap(), Some(vec![core]));
        assert!(!stock.spoiled);
    }
    assert!(stock.left.is_empty());
    let placed = place_thread(&allocation, &mut stock, |_: &Vec<usize>| {
        panic!("no cores are set")
    });
    assert!(matches!(placed, Err(WorkerError::NoCoreLeft)));
    assert!(stock.spoiled);
    let placed = place_thread(&allocation, &mut stock, |_: &Vec<usize>| {
        panic!("no cores are set")
    });
    assert!(matches!(placed, Err(WorkerError::CoresSpoiled)));
    assert!(stock.spoiled);
}

#[test]
fn backward_range_has_no_core_for_a_pinned_thread() {
    let allocation = CoreAllocation::PinnedCores { min: 6, max: 3 };
    let mut stock = stock_of(&allocation);
    let placed = place_thread(&allocation, &mut stock, |_: &Vec<usize>| {
        panic!("no cores are set")
    });
    assert!(matches!(placed, Err(WorkerError::NoCoreLeft)));
}

#[test]
fn runs_of_dedicated_threads_share_the_set() {
    let allocation = CoreAllocation::DedicatedCoreSet { min: 3, max: 6 };
    let mut stock = stock_of(&allocation);
    for _ in 0..5 {
        let mut told = Vec::new();
        let placed = place_thread(&allocation, &mut stock, |cores: &Vec<usize>| {
            told = cores.clone();
            Ok(())
        });
        assert_eq!(told, vec![3, 4, 5]);
        assert_eq!(placed.unwrap(), Some(vec![3, 4, 5]));
    }
    assert_eq!(stock.left, vec![3, 4, 5]);
}

#[test]
fn failed_placing_spoils_the_stock() {
    for allocation in [
        CoreAllocation::PinnedCores { min: 3, max: 6 },
        CoreAllocation::DedicatedCoreSet { min: 3, max: 6 },
    ] {
        let mut stock = stock_of(&allocation);
        match place_thread(&allocation, &mut stock, |_: &Vec<usize>| {
            Err("no".to_string())
        }) {
            Err(WorkerError::AffinityRefused(message)) => assert_eq!(message, "no"),
            _ => panic!("a refusal is an error"),
        }
        assert!(stock.spoiled);
        let placed = place_thread(&allocation, &mut stock, |_: &Vec<usize>| {
            panic!("no cores are set")
        });
        assert!(matches!(placed, Err(WorkerError::CoresSpoiled)));
        assert!(stock.spoiled);
    }
}

#[test]
fn machine_that_lacks_the_core_spoils_the_stock() {
    for allocation in [
        CoreAllocation::PinnedCores { min: CORE_LIMIT - 2, max: CORE_LIMIT },
        CoreAllocation::DedicatedCoreSet { min: CORE_LIMIT - 2, max: CORE_LIMIT },
    ] {
        let mut start = WorkerStart::new(0, allocation);
        assert!(matches!(
            start.prepare(),
            Err(WorkerError::AffinityRefused(_))
        ));
        assert!(matches!(start.prepare(), Err(WorkerError::CoresSpoiled)));
        assert!(matches!(start.prepare(), Err(WorkerError::CoresSpoiled)));
    }
}

#[test]
fn core_out_of_range_spoils_the_stock() {
    let mut start = WorkerStart::new(
        0,
        CoreAllocation::PinnedCores { min: 0, max: CORE_LIMIT + 1 },
    );
    assert!(matches!(
        start.prepare(),
        Err(WorkerError::CoreOutOfRange { core }) if core == CORE_LIMIT
    ));
    assert!(matches!(start.prepare(), Err(WorkerError::CoresSpoiled)));
}

#[test]
fn refused_cores_are_reported() {
    match bind_thread(&vec![1], |_: &Vec<usize>| Err("no".to_string())) {
        Err(WorkerError::AffinityRefused(message)) => assert_eq!(message, "no"),
        _ => panic!("a refusal is an error"),
    }
    assert!(bind_thread(&vec![1], |_: &Vec<usize>| Ok(())).is_ok());
}

#[test]
fn thread_without_cores_is_not_bound() {
    let allocation = CoreAllocation::OsDefault;
    let mut stock = stock_of(&allocation);
    let placed = place_thread(&allocation, &mut stock, |_: &Vec<usize>| {
        panic!("no cores are set")
    });
    assert_eq!(placed.unwrap(), None);
    assert!(!stock.spoiled);
}

#[test]
fn cores_out_of_range_are_turned_down() {
    assert!(check_cores(&vec![0, CORE_LIMIT - 1]).is_ok());
    assert!(matches!(
        check_cores(&vec![0, CORE_LIMIT, CORE_LIMIT + 7]),
        Err(WorkerError::CoreOutOfRange { core }) if core == CORE_LIMIT
    ));
    assert!(matches!(
        bind_current_thread(&vec![usize::MAX]),
        Err(WorkerError::CoreOutOfRange { core: usize::MAX })
    ));
}

#[test]
fn thread_is_bound_to_the_cores() {
    let before = affinity::get_thread_affinity().unwrap();
    let core = before[before.len() - 1];
    bind_current_thread(&vec![core]).unwrap();
    assert_eq!(affinity::get_thread_affinity().unwrap(), vec![core]);
}

#[test]
fn no_cores_are_refused_by_the_machine() {
    assert!(matches!(
        bind_current_thread(&vec![]),
        Err(WorkerError::AffinityRefused(_))
    ));
}

#[test]
fn thread_takes_on_priority_and_cores() {
    let cores = affinity::get_thread_affinity().unwrap();
    let core = cores[0];
    let mut start = WorkerStart::new(
        0,
        CoreAllocation::PinnedCores { min: core, max: core + 1 },
    );
    let setup = start.prepare().unwrap();
    assert_eq!(setup.priority, 0);
    assert_eq!(setup.cores, Some(vec![core]));
    assert_eq!(affinity::get_thread_affinity().unwrap(), vec![core]);
    assert!(matches!(start.prepare(), Err(WorkerError::NoCoreLeft)));
    assert!(matches!(start.prepare(), Err(WorkerError::CoresSpoiled)));
}

#[test]
fn dedicated_thread_takes_on_the_whole_set() {
    let cores = affinity::get_thread_affinity().unwrap();
    let core = cores[0];
    let mut start = WorkerStart::new(
        256,
        CoreAllocation::DedicatedCoreSet { min: core, max: core + 1 },
    );
    for _ in 0..3 {
        let setup = start.prepare().unwrap();
        assert_eq!(setup.priority, 0);
        assert_eq!(setup.cores, Some(vec![core]));
    }
}

#[test]
fn thread_keeps_its_cores_without_an_allocation() {
    let before = affinity::get_thread_affinity().unwrap();
    let mut start = WorkerStart::new(0, CoreAllocation::OsDefault);
    let setup = start.prepare().unwrap();
    assert_eq!(setup.cores, None);
    assert_eq!(affinity::get_thread_affinity().unwrap(), before);
}

#[test]
fn priority_out_of_range_stops_the_preparation() {
    let mut start = WorkerStart::new(100, CoreAllocation::PinnedCores { min: 0, max: 1 });
    assert!(matches!(
        start.prepare(),
        Err(WorkerError::PriorityOutOfRange { priority: 100 })
    ));
}
