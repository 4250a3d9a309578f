use kanto::thread_name::{thread_name, WorkerNames};
use kanto::NameMap;

#[test]
fn map_gives_back_what_was_put_in() {
    let mut map: NameMap<u32> = NameMap::new();
    assert_eq!(map.len(), 0);
    assert_eq!(map.get("a"), None);
    map.insert("a".to_string(), 1);
    map.insert("b".to_string(), 2);
    assert_eq!(map.get("a"), Some(&1));
    assert_eq!(map.get("b"), Some(&2));
    assert_eq!(map.get("c"), None);
    assert_eq!(map.get(""), None);
    assert_eq!(map.len(), 2);
}

#[test]
fn later_value_takes_the_place_of_the_earlier() {
    let mut map: NameMap<u32> = NameMap::new();
    map.insert("a".to_string(), 1);
    map.insert("b".to_string(), 2);
    map.insert("a".to_string(), 3);
    assert_eq!(map.len(), 2);
    assert_eq!(map.get("a"), Some(&3));
    assert_eq!(map.entry(0), (&"a".to_string(), &3));
    assert_eq!(map.entry(1), (&"b".to_string(), &2));
}

#[test]
fn threads_are_named_and_numbered() {
    assert_eq!(thread_name("tokio1", 0), "tokio1-0");
    assert_eq!(thread_name("tokio1", 9), "tokio1-9");
    assert_eq!(thread_name("tokio1", 10), "tokio1-10");
    assert_eq!(thread_name("", 1234567890), "-1234567890");
    assert_eq!(
        thread_name("w-1", usize::MAX),
        format!("{}-{}", "w-1", usize::MAX)
    );
}

#[test]
fn different_numbers_give_different_names() {
    assert_ne!(thread_name("a", 1), thread_name("a", 10));
    assert_ne!(thread_name("a", 11), thread_name("a", 1));
}

#[test]
fn worker_names_count_up() {
    let mut names = WorkerNames::new("pool");
    assert_eq!(names.next_name(), "pool-0");
    assert_eq!(names.next_name(), "pool-1");
    assert_eq!(names.next_name(), "pool-2");
}

#[test]
fn each_worker_names_count_for_themselves() {
    let mut first = WorkerNames::new("a");
    let mut second = WorkerNames::new("b");
    assert_eq!(first.next_name(), "a-0");
    assert_eq!(second.next_name(), "b-0");
    assert_eq!(second.next_name(), "b-1");
    assert_eq!(first.next_name(), "a-1");
}

#[test]
fn no_name_is_handed_out_twice() {
    let mut names = WorkerNames::new("pool");
    let mut seen = std::collections::HashSet::new();
    for _ in 0..200 {
        assert!(seen.insert(names.next_name()));
    }
}
