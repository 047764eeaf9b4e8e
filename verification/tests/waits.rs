use std::time::Duration;
use tosub::root::Drained;
use tosub::{ShutdownWait, SubsystemId, SubsystemMap};

fn map(tasks: &[u64]) -> SubsystemMap<u64> {
    let mut map = SubsystemMap::new();
    for task in tasks {
        let mut id = SubsystemId::unassigned("s".to_string());
        id.set_task_id(*task);
        map.insert(id, *task);
    }
    map
}

#[test]
fn wait_without_a_limit_goes_on_until_all_have_ended() {
    let mut wait = ShutdownWait::new(map(&[5, 1, 3]), None);
    for task in [1, 3, 5] {
        assert_eq!(wait.drained(false), None);
        assert_eq!(wait.drained(true), None);
        assert_eq!(wait.next(), Some(task));
    }
    // the last one was handed out and has not ended yet
    assert_eq!(wait.drained(true), None);
    assert_eq!(wait.next(), None);
    assert_eq!(wait.drained(false), Some(Drained::Unlimited));
    assert_eq!(wait.drained(true), Some(Drained::Unlimited));
    assert_eq!(wait.next(), None);
}

#[test]
fn wait_with_a_limit() {
    let mut wait = ShutdownWait::new(map(&[1, 2]), Some(Duration::from_secs(1)));
    assert_eq!(wait.drained(false), None);
    assert_eq!(wait.drained(true), Some(Drained::TimedOut));
    assert_eq!(wait.next(), Some(1));
    assert_eq!(wait.next(), Some(2));
    assert_eq!(wait.drained(false), None);
    assert_eq!(wait.drained(true), Some(Drained::TimedOut));
    assert_eq!(wait.next(), None);
    assert_eq!(wait.drained(false), Some(Drained::InTime));
}

#[test]
fn wait_for_nobody() {
    let wait = ShutdownWait::new(map(&[]), None);
    assert_eq!(wait.drained(false), Some(Drained::Unlimited));
    let wait = ShutdownWait::new(map(&[]), Some(Duration::ZERO));
    assert_eq!(wait.drained(false), Some(Drained::InTime));
}
