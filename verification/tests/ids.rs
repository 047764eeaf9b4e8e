use std::cmp::Ordering;
use tosub::SubsystemId;

fn id(task_id: u64, name: &str) -> SubsystemId {
    let mut id = SubsystemId::unassigned(name.to_string());
    id.set_task_id(task_id);
    id
}

#[test]
fn id_text() {
    let mut id = SubsystemId::unassigned("root/worker".to_string());
    assert_eq!(id.to_string(), "0-root/worker");
    id.set_task_id(17);
    assert_eq!(id.to_string(), "17-root/worker");
    id.set_task_id(u64::MAX);
    assert_eq!(id.to_string(), "18446744073709551615-root/worker");
}

#[test]
fn id_parts() {
    let id = id(7, "root");
    assert_eq!(id.name(), "root");
    assert_eq!(id.task_id(), 7);
    assert_eq!(SubsystemId::unassigned("root".to_string()).task_id(), 0);
}

#[test]
fn ids_are_ordered_by_task_before_name() {
    assert!(id(2, "z").is_before(&id(10, "a")));
    assert!(!id(10, "a").is_before(&id(2, "z")));
    assert!(id(3, "a").is_before(&id(3, "b")));
    assert!(id(3, "a").is_before(&id(3, "ab")));
    assert!(!id(3, "a").is_before(&id(3, "a")));
}

#[test]
fn comparisons_of_ids_agree() {
    let ids = [id(0, ""), id(0, "a"), id(0, "b"), id(1, ""), id(1, "ä"), id(9, "a")];
    for (i, a) in ids.iter().enumerate() {
        for (j, b) in ids.iter().enumerate() {
            assert_eq!(a < b, i < j);
            assert_eq!(a.partial_cmp(b), Some(i.cmp(&j)));
            assert_eq!(a == b, i == j);
            assert_eq!(a.is_before(b), i.cmp(&j) == Ordering::Less);
        }
    }
}

#[test]
fn id_for_a_developer() {
    assert_eq!(
        format!("{:?}", id(7, "root/a")),
        "SubsystemId { name: \"root/a\", task_id: 7 }"
    );
}

#[test]
fn cloned_id_is_equal() {
    let original = id(4, "root/child");
    let mut copy = original.clone();
    assert!(copy == original);
    copy.set_task_id(5);
    assert!(copy != original);
}

#[test]
fn texts_of_ids_differ() {
    // the name can look like the beginning of another text
    assert_ne!(id(1, "2-a").to_string(), id(12, "-a").to_string());
    assert_ne!(id(1, "a").to_string(), id(2, "a").to_string());
}
