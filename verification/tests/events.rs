use serde_json::Value;
use tosub::json::append_quoted;
use tosub::task::to_u64;
use tosub::{MetricsEvent, Outcome, SubsystemId, TaskInfo, TaskType};

fn id(task_id: u64, name: &str) -> SubsystemId {
    let mut id = SubsystemId::unassigned(name.to_string());
    id.set_task_id(task_id);
    id
}

fn spawned(task_type: TaskType) -> String {
    MetricsEvent::TaskSpawned(TaskInfo { id: 5, task_type }).to_string()
}

#[test]
fn texts_of_spawned_tasks() {
    let sub = "{\"name\":\"root/a\",\"taskId\":5}";
    let wrapped = |key: &str| format!("{{\"taskSpawned\":{{\"id\":5,\"type\":{{\"{key}\":{sub}}}}}}}");
    assert_eq!(spawned(TaskType::RootSystem(id(5, "root/a"))), wrapped("rootSystem"));
    assert_eq!(spawned(TaskType::Subsystem(id(5, "root/a"))), wrapped("subsystem"));
    assert_eq!(spawned(TaskType::CancellationTask(id(5, "root/a"))), wrapped("cancellationTask"));
    assert_eq!(spawned(TaskType::JoinSignal(id(5, "root/a"))), wrapped("joinSignal"));
    assert_eq!(
        spawned(TaskType::LocalShutdownTimeout(id(5, "root/a"))),
        wrapped("localShutdownTimeout")
    );
    assert_eq!(
        spawned(TaskType::SignalHandler("SIGINT".to_string())),
        "{\"taskSpawned\":{\"id\":5,\"type\":{\"signalHandler\":\"SIGINT\"}}}"
    );
    assert_eq!(
        spawned(TaskType::MetricsLogger),
        "{\"taskSpawned\":{\"id\":5,\"type\":\"metricsLogger\"}}"
    );
}

#[test]
fn texts_of_root_system_events() {
    assert_eq!(
        MetricsEvent::RootSystemStarted { id: id(1, "root") }.to_string(),
        "{\"rootSystemStarted\":{\"id\":{\"name\":\"root\",\"taskId\":1}}}"
    );
    let stopped = |outcome| MetricsEvent::RootSystemStopped { id: id(1, "root"), outcome }.to_string();
    assert_eq!(
        stopped(Outcome::TerminatedNormally),
        "{\"rootSystemStopped\":{\"id\":{\"name\":\"root\",\"taskId\":1},\"outcome\":\"TerminatedNormally\"}}"
    );
    assert_eq!(
        stopped(Outcome::TerminatedWithError("no".to_string())),
        "{\"rootSystemStopped\":{\"id\":{\"name\":\"root\",\"taskId\":1},\"outcome\":{\"TerminatedWithError\":\"no\"}}}"
    );
    assert_eq!(
        stopped(Outcome::ShutdownForced),
        "{\"rootSystemStopped\":{\"id\":{\"name\":\"root\",\"taskId\":1},\"outcome\":\"ShutdownForced\"}}"
    );
}

#[test]
fn texts_of_subsystem_events() {
    let event = MetricsEvent::SubsystemStarted {
        id: id(2, "r/a"),
        all_running: vec![id(2, "r/a"), id(3, "r/b"), id(4, "r/c")],
    };
    assert_eq!(
        event.to_string(),
        "{\"subsystemStarted\":{\"allRunning\":[{\"name\":\"r/a\",\"taskId\":2},\
         {\"name\":\"r/b\",\"taskId\":3},{\"name\":\"r/c\",\"taskId\":4}],\
         \"id\":{\"name\":\"r/a\",\"taskId\":2}}}"
    );
    let event = MetricsEvent::SubsystemStopped {
        id: id(2, "r/a"),
        outcome: Outcome::ShutdownForced,
        all_running: vec![],
    };
    assert_eq!(
        event.to_string(),
        "{\"subsystemStopped\":{\"allRunning\":[],\"id\":{\"name\":\"r/a\",\"taskId\":2},\
         \"outcome\":\"ShutdownForced\"}}"
    );
    let event = MetricsEvent::SubsystemStopped {
        id: id(2, "r/a"),
        outcome: Outcome::TerminatedWithError("x".to_string()),
        all_running: vec![id(3, "r/b")],
    };
    assert_eq!(
        event.to_string(),
        "{\"subsystemStopped\":{\"allRunning\":[{\"name\":\"r/b\",\"taskId\":3}],\
         \"id\":{\"name\":\"r/a\",\"taskId\":2},\"outcome\":{\"TerminatedWithError\":\"x\"}}}"
    );
}

#[test]
fn quoted_texts() {
    let quoted = |raw: &str| {
        let mut out = ">".to_string();
        append_quoted(&mut out, raw);
        out
    };
    assert_eq!(quoted(""), ">\"\"");
    assert_eq!(quoted("plain / text é \u{1f600}"), ">\"plain / text é \u{1f600}\"");
    assert_eq!(quoted("\"\\"), ">\"\\\"\\\\\"");
    assert_eq!(quoted("\u{8}\t\n\u{c}\r"), ">\"\\b\\t\\n\\f\\r\"");
    assert_eq!(quoted("\u{0}\u{1}\u{b}\u{1f}"), ">\"\\u0000\\u0001\\u000b\\u001f\"");
    assert_eq!(quoted("\u{7f}\u{80}"), ">\"\u{7f}\u{80}\"");
}

#[test]
fn texts_are_what_serde_json_writes() {
    let name = "weird \"name\"\\ \n\t\u{1} ü";
    let events = [
        MetricsEvent::TaskSpawned(TaskInfo { id: u64::MAX, task_type: TaskType::JoinSignal(id(0, name)) }),
        MetricsEvent::TaskSpawned(TaskInfo { id: 3, task_type: TaskType::SignalHandler(name.to_string()) }),
        MetricsEvent::RootSystemStarted { id: id(1, name) },
        MetricsEvent::RootSystemStopped {
            id: id(1, name),
            outcome: Outcome::TerminatedWithError(name.to_string()),
        },
        MetricsEvent::SubsystemStarted { id: id(2, name), all_running: vec![id(2, name), id(9, "")] },
        MetricsEvent::SubsystemStopped {
            id: id(2, name),
            outcome: Outcome::TerminatedNormally,
            all_running: vec![],
        },
    ];
    for event in &events {
        let value: Value = serde_json::from_str(&event.to_string()).unwrap();
        assert_eq!(value.to_string(), event.to_string());
    }
    let value: Value = serde_json::from_str(&events[2].to_string()).unwrap();
    assert_eq!(value["rootSystemStarted"]["id"]["name"].as_str(), Some(name));
    assert_eq!(value["rootSystemStarted"]["id"]["taskId"].as_u64(), Some(1));
}

#[test]
fn texts_of_events_differ() {
    let lists = [vec![], vec![id(1, "a")], vec![id(1, "a"), id(1, "b")], vec![id(1, "b")]];
    let mut texts: Vec<String> = lists
        .iter()
        .map(|all_running| {
            MetricsEvent::SubsystemStarted { id: id(1, "a"), all_running: all_running.clone() }.to_string()
        })
        .collect();
    texts.push(MetricsEvent::RootSystemStarted { id: id(1, "a") }.to_string());
    for i in 0..texts.len() {
        for j in 0..i {
            assert_ne!(texts[i], texts[j]);
        }
    }
}

#[test]
fn task_numbers() {
    let runtime = tokio::runtime::Builder::new_current_thread().build().unwrap();
    runtime.block_on(async {
        let task = tokio::spawn(async {
            let event = MetricsEvent::task_spawned(tokio::task::id(), TaskType::MetricsLogger);
            (to_u64(tokio::task::id()), event)
        });
        let id = task.id();
        let (number, event) = task.await.unwrap();
        assert_ne!(number, 0);
        assert_eq!(number, to_u64(id));
        assert_eq!(format!("{number}"), id.to_string());
        let expected = TaskInfo { id: number, task_type: TaskType::MetricsLogger };
        assert_eq!(event, MetricsEvent::TaskSpawned(expected));
    });
}
