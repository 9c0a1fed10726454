use openapi_scaffold::task_map::TaskMap;
use openapi_scaffold::tasks::{NamedTask, Task};

fn named(name: &str, command: &str, dependencies: &[&str]) -> NamedTask {
    NamedTask {
        name: name.to_string(),
        task: Task {
            command: Some(command.to_string()),
            dependencies: if dependencies.is_empty() {
                None
            } else {
                Some(dependencies.iter().map(|s| s.to_string()).collect())
            },
            ..Task::default()
        },
    }
}

#[test]
fn new_map_is_empty() {
    let map = TaskMap::new();
    assert_eq!(map.len(), 0);
    assert!(!map.contains_key("a"));
    assert!(map.get("a").is_none());
    assert!(map.entries().is_empty());
    assert!(map.dependencies_resolved());
}

#[test]
fn insert_adds_under_a_new_name() {
    let mut map = TaskMap::new();
    map.insert(named("a", "one", &[]));
    map.insert(named("b", "two", &[]));
    assert_eq!(map.len(), 2);
    assert!(map.contains_key("a"));
    assert!(map.contains_key("b"));
    assert!(!map.contains_key("c"));
    assert_eq!(map.get("a").unwrap().command.as_deref(), Some("one"));
    assert_eq!(map.get("b").unwrap().command.as_deref(), Some("two"));
}

#[test]
fn insert_replaces_under_a_taken_name() {
    let mut map = TaskMap::new();
    map.insert(named("a", "one", &[]));
    map.insert(named("b", "two", &[]));
    map.insert(named("a", "three", &[]));
    assert_eq!(map.len(), 2);
    assert_eq!(map.get("a").unwrap().command.as_deref(), Some("three"));
    assert_eq!(map.get("b").unwrap().command.as_deref(), Some("two"));
    let names: Vec<&str> = map.entries().iter().map(|e| e.name.as_str()).collect();
    assert_eq!(names.iter().filter(|n| **n == "a").count(), 1);
}

#[test]
fn names_are_compared_exactly() {
    let mut map = TaskMap::new();
    map.insert(named("task", "one", &[]));
    assert!(!map.contains_key("Task"));
    assert!(!map.contains_key("task "));
    assert!(!map.contains_key(""));
}

#[test]
fn dependencies_resolved_needs_every_name() {
    let mut map = TaskMap::new();
    map.insert(named("a", "one", &["b", "c"]));
    assert!(!map.dependencies_resolved());
    map.insert(named("b", "two", &[]));
    assert!(!map.dependencies_resolved());
    map.insert(named("c", "three", &["a"]));
    assert!(map.dependencies_resolved());
}

#[test]
fn a_task_may_depend_on_itself_by_name() {
    let mut map = TaskMap::new();
    map.insert(named("a", "one", &["a"]));
    assert!(map.dependencies_resolved());
}

#[test]
fn from_entries_lets_the_last_of_a_name_count() {
    let map = TaskMap::from_entries(vec![
        named("a", "one", &[]),
        named("b", "two", &[]),
        named("a", "three", &[]),
    ]);
    assert_eq!(map.len(), 2);
    assert_eq!(map.get("a").unwrap().command.as_deref(), Some("three"));
    assert_eq!(map.get("b").unwrap().command.as_deref(), Some("two"));
    assert_eq!(TaskMap::from_entries(Vec::new()).len(), 0);
}

#[test]
fn entries_rebuild_the_same_map() {
    let mut map = TaskMap::new();
    map.insert(named("a", "one", &["b"]));
    map.insert(named("b", "two", &[]));
    map.insert(named("a", "three", &[]));
    let rebuilt = TaskMap::from_entries(map.entries().clone());
    assert_eq!(rebuilt.len(), map.len());
    for entry in map.entries() {
        let held = rebuilt.get(&entry.name).unwrap();
        assert_eq!(held.command, entry.task.command);
        assert_eq!(held.dependencies, entry.task.dependencies);
    }
}
