use tosub::{SubsystemId, SubsystemMap};

fn id(task_id: u64, name: &str) -> SubsystemId {
    let mut id = SubsystemId::unassigned(name.to_string());
    id.set_task_id(task_id);
    id
}

fn running(map: &SubsystemMap<u32>) -> Vec<String> {
    map.running().iter().map(|id| id.to_string()).collect()
}

#[test]
fn new_map_is_empty() {
    let map: SubsystemMap<u32> = SubsystemMap::new();
    assert!(running(&map).is_empty());
    assert!(map.into_values().is_empty());
}

#[test]
fn running_subsystems_are_listed_in_order() {
    let mut map = SubsystemMap::new();
    for n in [5, 1, 9, 3, 7, 2] {
        map.insert(id(n, "x"), n as u32);
    }
    map.insert(id(3, "a"), 30);
    assert_eq!(running(&map), ["1-x", "2-x", "3-a", "3-x", "5-x", "7-x", "9-x"]);
    assert_eq!(map.into_values(), [1, 2, 30, 3, 5, 7, 9]);
}

#[test]
fn same_id_is_replaced() {
    let mut map = SubsystemMap::new();
    map.insert(id(1, "a"), 10);
    map.insert(id(2, "b"), 20);
    map.insert(id(1, "a"), 11);
    assert_eq!(running(&map), ["1-a", "2-b"]);
    assert_eq!(map.into_values(), [11, 20]);
}

#[test]
fn removed_subsystem_is_not_listed() {
    let mut map = SubsystemMap::new();
    map.insert(id(1, "a"), 10);
    map.insert(id(2, "b"), 20);
    map.insert(id(3, "c"), 30);
    assert_eq!(map.remove(&id(2, "b")), Some(20));
    assert_eq!(running(&map), ["1-a", "3-c"]);
    assert_eq!(map.remove(&id(2, "b")), None);
    assert_eq!(map.remove(&id(3, "a")), None);
    assert_eq!(map.remove(&id(9, "z")), None);
    assert_eq!(running(&map), ["1-a", "3-c"]);
    assert_eq!(map.remove(&id(1, "a")), Some(10));
    assert_eq!(map.remove(&id(3, "c")), Some(30));
    assert!(running(&map).is_empty());
}

#[test]
fn adding_and_removing_leaves_the_rest() {
    let mut map = SubsystemMap::new();
    map.insert(id(1, "a"), 10);
    map.insert(id(3, "c"), 30);
    let before = running(&map);
    map.insert(id(2, "b"), 20);
    assert_eq!(running(&map), ["1-a", "2-b", "3-c"]);
    map.remove(&id(2, "b"));
    assert_eq!(running(&map), before);
    assert_eq!(map.into_values(), [10, 30]);
}

#[test]
fn taking_empties_the_map() {
    let mut map = SubsystemMap::new();
    map.insert(id(2, "b"), 20);
    map.insert(id(1, "a"), 10);
    let taken = map.take();
    assert!(running(&map).is_empty());
    assert_eq!(running(&taken), ["1-a", "2-b"]);
    assert_eq!(taken.into_values(), [10, 20]);
}

#[test]
fn many_subsystems() {
    let mut map = SubsystemMap::new();
    for n in 0..200u64 {
        map.insert(id(n * 37 % 200, "s"), (n * 37 % 200) as u32);
    }
    let all: Vec<u32> = (0..200).collect();
    for n in (0..200u64).step_by(2) {
        assert_eq!(map.remove(&id(n, "s")), Some(n as u32));
    }
    let odd: Vec<u32> = all.into_iter().filter(|n| n % 2 == 1).collect();
    assert_eq!(map.into_values(), odd);
}
