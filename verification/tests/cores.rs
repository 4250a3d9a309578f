use kanto::policy::list_cores;
use kanto::CoreAllocation;

#[test]
fn range_is_listed_in_order() {
    let dedicated = CoreAllocation::DedicatedCoreSet { min: 2, max: 5 };
    assert_eq!(dedicated.cores(), vec![2, 3, 4]);
    let pinned = CoreAllocation::PinnedCores { min: 0, max: 3 };
    assert_eq!(pinned.cores(), vec![0, 1, 2]);
}

#[test]
fn empty_and_backward_ranges_hold_no_core() {
    assert!(list_cores(4, 4).is_empty());
    assert!(list_cores(5, 2).is_empty());
    assert!(CoreAllocation::PinnedCores { min: 1, max: 0 }.cores().is_empty());
}

#[test]
fn range_may_end_at_the_largest_number() {
    assert_eq!(
        list_cores(usize::MAX - 2, usize::MAX),
        vec![usize::MAX - 2, usize::MAX - 1]
    );
}

#[test]
fn default_is_the_choice_of_the_operating_system() {
    let allocation = CoreAllocation::default();
    assert!(matches!(allocation, CoreAllocation::OsDefault));
    assert!(allocation.cores().is_empty());
}

#[test]
fn separate_ranges_share_no_core() {
    let count: usize = 8;
    let first = CoreAllocation::DedicatedCoreSet { min: 0, max: count / 2 }.cores();
    let second = CoreAllocation::DedicatedCoreSet { min: count / 2, max: count }.cores();
    assert_eq!(first, vec![0, 1, 2, 3]);
    assert_eq!(second, vec![4, 5, 6, 7]);
    assert!(first.iter().all(|core| !second.contains(core)));
}
