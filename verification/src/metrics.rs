//! What happens in the system, as events that can be traced.
use tokio::task::Id;
use vstd::prelude::*;

#[allow(unused_imports)]
use crate::id::{IdView, SubsystemId};
use crate::json;
#[allow(unused_imports)]
use crate::registry;
use crate::task;
use crate::text;

verus! {

impl IdView {
    /// The id as JSON.
    pub open spec fn json(self) -> Seq<char> {
        "{\"name\":"@ + json::quoted(self.name) + ",\"taskId\":"@ + text::decimal(
            self.task_id as nat,
        ) + "}"@
    }
}

impl SubsystemId {
    fn append_json(&self, out: &mut String)
        ensures
            final(out)@ == old(out)@ + self@.json(),
    {
        out.append("{\"name\":");
        json::append_quoted(out, self.name());
        out.append(",\"taskId\":");
        text::append_decimal(out, self.task_id());
        out.append("}");
        proof {
            assert(final(out)@ =~= old(out)@ + self@.json());
        }
    }
}

/// The ids after the first one of a list as JSON.
pub open spec fn json_tail(ids: Seq<IdView>) -> Seq<char>
    decreases ids.len(),
{
    if ids.len() == 0 {
        "]"@
    } else {
        ","@ + ids[0].json() + json_tail(ids.skip(1))
    }
}

/// A list of ids as JSON.
pub open spec fn json_list(ids: Seq<IdView>) -> Seq<char> {
    if ids.len() == 0 {
        "[]"@
    } else {
        "["@ + ids[0].json() + json_tail(ids.skip(1))
    }
}

fn append_json_list(out: &mut String, ids: &Vec<SubsystemId>)
    ensures
        final(out)@ == old(out)@ + json_list(registry::id_views(ids@)),
{
    let ghost views = registry::id_views(ids@);
    let ghost whole = old(out)@ + json_list(views);
    if ids.len() == 0 {
        out.append("[]");
        return;
    }
    out.append("[");
    ids[0].append_json(out);
    let mut i: usize = 1;
    proof {
        assert(out@ + json_tail(views.skip(1)) =~= whole);
    }
    while i < ids.len()
        invariant
            0 < i <= ids@.len(),
            views == registry::id_views(ids@),
            out@ + json_tail(views.skip(i as int)) == whole,
        decreases ids@.len() - i,
    {
        let ghost before = out@;
        out.append(",");
        ids[i].append_json(out);
        proof {
            assert(views.skip(i as int).skip(1) =~= views.skip(i + 1));
            assert(views.skip(i as int)[0] == ids@[i as int]@);
            assert(out@ + json_tail(views.skip(i + 1)) =~= before + json_tail(
                views.skip(i as int),
            ));
        }
        i = i + 1;
    }
    out.append("]");
}

/// What an [`Outcome`] stands for.
#[verifier::ext_equal]
pub enum OutcomeView {
    TerminatedNormally,
    TerminatedWithError(Seq<char>),
    ShutdownForced,
}

impl OutcomeView {
    /// The outcome as JSON.
    pub open spec fn json(self) -> Seq<char> {
        match self {
            OutcomeView::TerminatedNormally => "\"TerminatedNormally\""@,
            OutcomeView::TerminatedWithError(message) => "{\"TerminatedWithError\":"@
                + json::quoted(message) + "}"@,
            OutcomeView::ShutdownForced => "\"ShutdownForced\""@,
        }
    }
}

/// How a subsystem ended.
#[derive(Debug, Clone, PartialEq, Eq, Hash)]
pub enum Outcome {
    /// It returned without an error.
    TerminatedNormally,
    /// It returned an error or panicked.
    TerminatedWithError(String),
    /// It was aborted.
    ShutdownForced,
}

impl View for Outcome {
    type V = OutcomeView;

    open spec fn view(&self) -> OutcomeView {
        match *self {
            Outcome::TerminatedNormally => OutcomeView::TerminatedNormally,
            Outcome::TerminatedWithError(message) => OutcomeView::TerminatedWithError(message@),
            Outcome::ShutdownForced => OutcomeView::ShutdownForced,
        }
    }
}

impl Outcome {
    fn append_json(&self, out: &mut String)
        ensures
            final(out)@ == old(out)@ + self@.json(),
    {
        match self {
            Outcome::TerminatedNormally => out.append("\"TerminatedNormally\""),
            Outcome::TerminatedWithError(message) => {
                out.append("{\"TerminatedWithError\":");
                json::append_quoted(out, message.as_str());
                out.append("}");
            },
            Outcome::ShutdownForced => out.append("\"ShutdownForced\""),
        }
        proof {
            assert(final(out)@ =~= old(out)@ + self@.json());
        }
    }
}

/// What a [`TaskType`] stands for.
#[verifier::ext_equal]
pub enum TaskTypeView {
    RootSystem(IdView),
    Subsystem(IdView),
    CancellationTask(IdView),
    JoinSignal(IdView),
    SignalHandler(Seq<char>),
    LocalShutdownTimeout(IdView),
    MetricsLogger,
}

impl TaskTypeView {
    /// The kind of task as JSON.
    pub open spec fn json(self) -> Seq<char> {
        match self {
            TaskTypeView::RootSystem(id) => "{\"rootSystem\":"@ + id.json() + "}"@,
            TaskTypeView::Subsystem(id) => "{\"subsystem\":"@ + id.json() + "}"@,
            TaskTypeView::CancellationTask(id) => "{\"cancellationTask\":"@ + id.json() + "}"@,
            TaskTypeView::JoinSignal(id) => "{\"joinSignal\":"@ + id.json() + "}"@,
            TaskTypeView::SignalHandler(signal) => "{\"signalHandler\":"@ + json::quoted(signal)
                + "}"@,
            TaskTypeView::LocalShutdownTimeout(id) => "{\"localShutdownTimeout\":"@ + id.json()
                + "}"@,
            TaskTypeView::MetricsLogger => "\"metricsLogger\""@,
        }
    }
}

/// What a task is for.
#[derive(Debug, Clone, PartialEq, Eq, Hash)]
pub enum TaskType {
    /// It runs the root system.
    RootSystem(SubsystemId),
    /// It runs a subsystem.
    Subsystem(SubsystemId),
    /// It waits for a subsystem to end or to be aborted.
    CancellationTask(SubsystemId),
    /// It tells that a subsystem has ended.
    JoinSignal(SubsystemId),
    /// It waits for a signal.
    SignalHandler(String),
    /// It waits for a subsystem that was asked to stop.
    LocalShutdownTimeout(SubsystemId),
    /// It logs events.
    MetricsLogger,
}

impl View for TaskType {
    type V = TaskTypeView;

    open spec fn view(&self) -> TaskTypeView {
        match *self {
            TaskType::RootSystem(id) => TaskTypeView::RootSystem(id@),
            TaskType::Subsystem(id) => TaskTypeView::Subsystem(id@),
            TaskType::CancellationTask(id) => TaskTypeView::CancellationTask(id@),
            TaskType::JoinSignal(id) => TaskTypeView::JoinSignal(id@),
            TaskType::SignalHandler(signal) => TaskTypeView::SignalHandler(signal@),
            TaskType::LocalShutdownTimeout(id) => TaskTypeView::LocalShutdownTimeout(id@),
            TaskType::MetricsLogger => TaskTypeView::MetricsLogger,
        }
    }
}

impl TaskType {
    fn append_json(&self, out: &mut String)
        ensures
            final(out)@ == old(out)@ + self@.json(),
    {
        match self {
            TaskType::RootSystem(id) => {
                out.append("{\"rootSystem\":");
                id.append_json(out);
                out.append("}");
            },
            TaskType::Subsystem(id) => {
                out.append("{\"subsystem\":");
                id.append_json(out);
                out.append("}");
            },
            TaskType::CancellationTask(id) => {
                out.append("{\"cancellationTask\":");
                id.append_json(out);
                out.append("}");
            },
            TaskType::JoinSignal(id) => {
                out.append("{\"joinSignal\":");
                id.append_json(out);
                out.append("}");
            },
            TaskType::SignalHandler(signal) => {
                out.append("{\"signalHandler\":");
                json::append_quoted(out, signal.as_str());
                out.append("}");
            },
            TaskType::LocalShutdownTimeout(id) => {
                out.append("{\"localShutdownTimeout\":");
                id.append_json(out);
                out.append("}");
            },
            TaskType::MetricsLogger => out.append("\"metricsLogger\""),
        }
        proof {
            assert(final(out)@ =~= old(out)@ + self@.json());
        }
    }
}

/// What a [`TaskInfo`] stands for.
#[verifier::ext_equal]
pub struct TaskInfoView {
    pub id: u64,
    pub task_type: TaskTypeView,
}

impl TaskInfoView {
    /// The task as JSON.
    pub open spec fn json(self) -> Seq<char> {
        "{\"id\":"@ + text::decimal(self.id as nat) + ",\"type\":"@ + self.task_type.json() + "}"@
    }
}

/// A task: its number and what it is for.
#[derive(Debug, Clone, PartialEq, Eq, Hash)]
pub struct TaskInfo {
    pub id: u64,
    pub task_type: TaskType,
}

impl View for TaskInfo {
    type V = TaskInfoView;

    open spec fn view(&self) -> TaskInfoView {
        TaskInfoView { id: self.id, task_type: self.task_type@ }
    }
}

impl TaskInfo {
    fn append_json(&self, out: &mut String)
        ensures
            final(out)@ == old(out)@ + self@.json(),
    {
        out.append("{\"id\":");
        text::append_decimal(out, self.id);
        out.append(",\"type\":");
        self.task_type.append_json(out);
        out.append("}");
        proof {
            assert(final(out)@ =~= old(out)@ + self@.json());
        }
    }
}

/// What a [`MetricsEvent`] stands for.
#[verifier::ext_equal]
pub enum EventView {
    TaskSpawned(TaskInfoView),
    RootSystemStarted { id: IdView },
    RootSystemStopped { id: IdView, outcome: OutcomeView },
    SubsystemStarted { id: IdView, all_running: Seq<IdView> },
    SubsystemStopped { id: IdView, outcome: OutcomeView, all_running: Seq<IdView> },
}

impl EventView {
    /// The event as JSON.
    pub open spec fn json(self) -> Seq<char> {
        match self {
            EventView::TaskSpawned(info) => "{\"taskSpawned\":"@ + info.json() + "}"@,
            EventView::RootSystemStarted { id } => "{\"rootSystemStarted\":{\"id\":"@ + id.json()
                + "}}"@,
            EventView::RootSystemStopped { id, outcome } => "{\"rootSystemStopped\":{\"id\":"@
                + id.json() + ",\"outcome\":"@ + outcome.json() + "}}"@,
            EventView::SubsystemStarted { id, all_running } =>
                "{\"subsystemStarted\":{\"allRunning\":"@ + json_list(all_running) + ",\"id\":"@
                + id.json() + "}}"@,
            EventView::SubsystemStopped { id, outcome, all_running } =>
                "{\"subsystemStopped\":{\"allRunning\":"@ + json_list(all_running) + ",\"id\":"@
                + id.json() + ",\"outcome\":"@ + outcome.json() + "}}"@,
        }
    }
}

/// Something that happened in the system.
#[derive(Debug, Clone, PartialEq, Eq, Hash)]
pub enum MetricsEvent {
    /// A task was spawned.
    TaskSpawned(TaskInfo),
    /// The root system was started.
    RootSystemStarted { id: SubsystemId },
    /// The root system has ended.
    RootSystemStopped { id: SubsystemId, outcome: Outcome },
    /// A subsystem was started.
    SubsystemStarted { id: SubsystemId, all_running: Vec<SubsystemId> },
    /// A subsystem has ended.
    SubsystemStopped { id: SubsystemId, outcome: Outcome, all_running: Vec<SubsystemId> },
}

impl View for MetricsEvent {
    type V = EventView;

    open spec fn view(&self) -> EventView {
        match *self {
            MetricsEvent::TaskSpawned(info) => EventView::TaskSpawned(info@),
            MetricsEvent::RootSystemStarted { id } => EventView::RootSystemStarted { id: id@ },
            MetricsEvent::RootSystemStopped { id, outcome } => EventView::RootSystemStopped {
                id: id@,
                outcome: outcome@,
            },
            MetricsEvent::SubsystemStarted { id, all_running } => EventView::SubsystemStarted {
                id: id@,
                all_running: registry::id_views(all_running@),
            },
            MetricsEvent::SubsystemStopped { id, outcome, all_running } =>
                EventView::SubsystemStopped {
                id: id@,
                outcome: outcome@,
                all_running: registry::id_views(all_running@),
            },
        }
    }
}

impl MetricsEvent {
    /// The event that a task was spawned.
    pub fn task_spawned(task: Id, task_type: TaskType) -> (event: MetricsEvent)
        ensures
            event@ == EventView::TaskSpawned(
                TaskInfoView { id: task::task_number(task), task_type: task_type@ },
            ),
    {
        MetricsEvent::TaskSpawned(TaskInfo { id: task::to_u64(task), task_type })
    }

    /// The event as JSON, without white space and with the keys of each object in alphabetical
    /// order.
    pub fn to_string(&self) -> (out: String)
        ensures
            out@ == self@.json(),
    {
        let mut out: String = String::new();
        match self {
            MetricsEvent::TaskSpawned(info) => {
                out.append("{\"taskSpawned\":");
                info.append_json(&mut out);
                out.append("}");
            },
            MetricsEvent::RootSystemStarted { id } => {
                out.append("{\"rootSystemStarted\":{\"id\":");
                id.append_json(&mut out);
                out.append("}}");
            },
            MetricsEvent::RootSystemStopped { id, outcome } => {
                out.append("{\"rootSystemStopped\":{\"id\":");
                id.append_json(&mut out);
                out.append(",\"outcome\":");
                outcome.append_json(&mut out);
                out.append("}}");
            },
            MetricsEvent::SubsystemStarted { id, all_running } => {
                out.append("{\"subsystemStarted\":{\"allRunning\":");
                append_json_list(&mut out, all_running);
                out.append(",\"id\":");
                id.append_json(&mut out);
                out.append("}}");
            },
            MetricsEvent::SubsystemStopped { id, outcome, all_running } => {
                out.append("{\"subsystemStopped\":{\"allRunning\":");
                append_json_list(&mut out, all_running);
                out.append(",\"id\":");
                id.append_json(&mut out);
                out.append(",\"outcome\":");
                outcome.append_json(&mut out);
                out.append("}}");
            },
        }
        proof {
            assert(out@ =~= self@.json());
        }
        out
    }
}

} // verus!
