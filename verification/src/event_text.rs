//! The JSON texts of events can be told apart.
use vstd::prelude::*;

#[allow(unused_imports)]
use crate::id::IdView;
#[allow(unused_imports)]
use crate::json;
#[allow(unused_imports)]
use crate::metrics::{self, EventView, OutcomeView, TaskInfoView, TaskTypeView};
#[allow(unused_imports)]
use crate::text;

verus! {

proof fn lemma_id_json_delimited(a: IdView, b: IdView, x: Seq<char>, y: Seq<char>)
    requires
        a.json() + x == b.json() + y,
    ensures
        a == b,
        x == y,
{
    reveal_strlit("}");
    let (open, middle, close) = ("{\"name\":"@, ",\"taskId\":"@, "}"@);
    let (m, n) = (text::decimal(a.task_id as nat), text::decimal(b.task_id as nat));
    let (x3, y3) = (close + x, close + y);
    let (x2, y2) = (m + x3, n + y3);
    let (x1, y1) = (json::quoted(a.name) + (middle + x2), json::quoted(b.name) + (middle + y2));
    assert(a.json() + x =~= open + x1);
    assert(b.json() + y =~= open + y1);
    json::lemma_same_start(open, x1, y1);
    json::lemma_quoted_delimited(a.name, b.name, middle + x2, middle + y2);
    json::lemma_same_start(middle, x2, y2);
    json::lemma_decimal_delimited(a.task_id as nat, b.task_id as nat, x3, y3);
    json::lemma_same_start(close, x, y);
}

proof fn lemma_tail_delimited(a: Seq<IdView>, b: Seq<IdView>, x: Seq<char>, y: Seq<char>)
    requires
        metrics::json_tail(a) + x == metrics::json_tail(b) + y,
    ensures
        a == b,
        x == y,
    decreases a.len(),
{
    reveal_strlit("]");
    reveal_strlit(",");
    assert((metrics::json_tail(a) + x)[0] == (if a.len() == 0 { ']' } else { ',' }));
    assert((metrics::json_tail(b) + y)[0] == (if b.len() == 0 { ']' } else { ',' }));
    if a.len() == 0 {
        json::lemma_same_start("]"@, x, y);
        assert(a =~= b);
    } else {
        let (x2, y2) = (metrics::json_tail(a.skip(1)) + x, metrics::json_tail(b.skip(1)) + y);
        let (x1, y1) = (a[0].json() + x2, b[0].json() + y2);
        assert(metrics::json_tail(a) + x =~= ","@ + x1);
        assert(metrics::json_tail(b) + y =~= ","@ + y1);
        json::lemma_same_start(","@, x1, y1);
        lemma_id_json_delimited(a[0], b[0], x2, y2);
        lemma_tail_delimited(a.skip(1), b.skip(1), x, y);
        assert(a =~= seq![a[0]] + a.skip(1));
        assert(b =~= seq![b[0]] + b.skip(1));
    }
}

proof fn lemma_list_delimited(a: Seq<IdView>, b: Seq<IdView>, x: Seq<char>, y: Seq<char>)
    requires
        metrics::json_list(a) + x == metrics::json_list(b) + y,
    ensures
        a == b,
        x == y,
{
    reveal_strlit("[]");
    reveal_strlit("[");
    reveal_strlit("{\"name\":");
    assert(a.len() > 0 ==> a[0].json()[0] == '{');
    assert(b.len() > 0 ==> b[0].json()[0] == '{');
    assert((metrics::json_list(a) + x)[1] == (if a.len() == 0 { ']' } else { '{' }));
    assert((metrics::json_list(b) + y)[1] == (if b.len() == 0 { ']' } else { '{' }));
    if a.len() == 0 {
        json::lemma_same_start("[]"@, x, y);
        assert(a =~= b);
    } else {
        let (x2, y2) = (metrics::json_tail(a.skip(1)) + x, metrics::json_tail(b.skip(1)) + y);
        let (x1, y1) = (a[0].json() + x2, b[0].json() + y2);
        assert(metrics::json_list(a) + x =~= "["@ + x1);
        assert(metrics::json_list(b) + y =~= "["@ + y1);
        json::lemma_same_start("["@, x1, y1);
        lemma_id_json_delimited(a[0], b[0], x2, y2);
        lemma_tail_delimited(a.skip(1), b.skip(1), x, y);
        assert(a =~= seq![a[0]] + a.skip(1));
        assert(b =~= seq![b[0]] + b.skip(1));
    }
}

proof fn lemma_outcome_json_delimited(a: OutcomeView, b: OutcomeView, x: Seq<char>, y: Seq<char>)
    requires
        a.json() + x == b.json() + y,
    ensures
        a == b,
        x == y,
{
    reveal_strlit("\"TerminatedNormally\"");
    reveal_strlit("{\"TerminatedWithError\":");
    reveal_strlit("\"ShutdownForced\"");
    let (s, t) = (a.json() + x, b.json() + y);
    assert(s[0] == a.json()[0] && s[1] == a.json()[1]);
    assert(t[0] == b.json()[0] && t[1] == b.json()[1]);
    match (a, b) {
        (OutcomeView::TerminatedWithError(m), OutcomeView::TerminatedWithError(n)) => {
            let open = "{\"TerminatedWithError\":"@;
            let (x1, y1) = (json::quoted(m) + ("}"@ + x), json::quoted(n) + ("}"@ + y));
            assert(s =~= open + x1);
            assert(t =~= open + y1);
            json::lemma_same_start(open, x1, y1);
            json::lemma_quoted_delimited(m, n, "}"@ + x, "}"@ + y);
            json::lemma_same_start("}"@, x, y);
        },
        _ => {
            assert(a == b);
            json::lemma_same_start(a.json(), x, y);
        },
    }
}

proof fn lemma_wrapped_id_delimited(
    open: Seq<char>,
    a: IdView,
    b: IdView,
    x: Seq<char>,
    y: Seq<char>,
)
    requires
        open + a.json() + "}"@ + x == open + b.json() + "}"@ + y,
    ensures
        a == b,
        x == y,
{
    let (x1, y1) = (a.json() + ("}"@ + x), b.json() + ("}"@ + y));
    assert(open + a.json() + "}"@ + x =~= open + x1);
    assert(open + b.json() + "}"@ + y =~= open + y1);
    json::lemma_same_start(open, x1, y1);
    lemma_id_json_delimited(a, b, "}"@ + x, "}"@ + y);
    json::lemma_same_start("}"@, x, y);
}

proof fn lemma_task_type_json_delimited(
    a: TaskTypeView,
    b: TaskTypeView,
    x: Seq<char>,
    y: Seq<char>,
)
    requires
        a.json() + x == b.json() + y,
    ensures
        a == b,
        x == y,
{
    reveal_strlit("{\"rootSystem\":");
    reveal_strlit("{\"subsystem\":");
    reveal_strlit("{\"cancellationTask\":");
    reveal_strlit("{\"joinSignal\":");
    reveal_strlit("{\"signalHandler\":");
    reveal_strlit("{\"localShutdownTimeout\":");
    reveal_strlit("\"metricsLogger\"");
    let (s, t) = (a.json() + x, b.json() + y);
    assert(s[0] == a.json()[0] && s[2] == a.json()[2] && s[3] == a.json()[3]);
    assert(t[0] == b.json()[0] && t[2] == b.json()[2] && t[3] == b.json()[3]);
    match (a, b) {
        (TaskTypeView::RootSystem(i), TaskTypeView::RootSystem(j)) => {
            lemma_wrapped_id_delimited("{\"rootSystem\":"@, i, j, x, y);
        },
        (TaskTypeView::Subsystem(i), TaskTypeView::Subsystem(j)) => {
            lemma_wrapped_id_delimited("{\"subsystem\":"@, i, j, x, y);
        },
        (TaskTypeView::CancellationTask(i), TaskTypeView::CancellationTask(j)) => {
            lemma_wrapped_id_delimited("{\"cancellationTask\":"@, i, j, x, y);
        },
        (TaskTypeView::JoinSignal(i), TaskTypeView::JoinSignal(j)) => {
            lemma_wrapped_id_delimited("{\"joinSignal\":"@, i, j, x, y);
        },
        (TaskTypeView::LocalShutdownTimeout(i), TaskTypeView::LocalShutdownTimeout(j)) => {
            lemma_wrapped_id_delimited("{\"localShutdownTimeout\":"@, i, j, x, y);
        },
        (TaskTypeView::SignalHandler(m), TaskTypeView::SignalHandler(n)) => {
            let open = "{\"signalHandler\":"@;
            let (x1, y1) = (json::quoted(m) + ("}"@ + x), json::quoted(n) + ("}"@ + y));
            assert(s =~= open + x1);
            assert(t =~= open + y1);
            json::lemma_same_start(open, x1, y1);
            json::lemma_quoted_delimited(m, n, "}"@ + x, "}"@ + y);
            json::lemma_same_start("}"@, x, y);
        },
        _ => {
            assert(a == b);
            json::lemma_same_start(a.json(), x, y);
        },
    }
}

proof fn lemma_task_info_json_delimited(
    a: TaskInfoView,
    b: TaskInfoView,
    x: Seq<char>,
    y: Seq<char>,
)
    requires
        a.json() + x == b.json() + y,
    ensures
        a == b,
        x == y,
{
    reveal_strlit(",\"type\":");
    let (open, middle, close) = ("{\"id\":"@, ",\"type\":"@, "}"@);
    let (x3, y3) = (a.task_type.json() + (close + x), b.task_type.json() + (close + y));
    let (x2, y2) = (middle + x3, middle + y3);
    let (x1, y1) = (text::decimal(a.id as nat) + x2, text::decimal(b.id as nat) + y2);
    assert(a.json() + x =~= open + x1);
    assert(b.json() + y =~= open + y1);
    json::lemma_same_start(open, x1, y1);
    json::lemma_decimal_delimited(a.id as nat, b.id as nat, x2, y2);
    json::lemma_same_start(middle, x3, y3);
    lemma_task_type_json_delimited(a.task_type, b.task_type, close + x, close + y);
    json::lemma_same_start(close, x, y);
}

/// The beginning of an event's JSON text tells what kind of event it is.
proof fn lemma_event_json_start(event: EventView)
    ensures
        event.json().len() > 14,
        event.json()[2] == (match event {
            EventView::TaskSpawned(_) => 't',
            EventView::RootSystemStarted { .. } | EventView::RootSystemStopped { .. } => 'r',
            EventView::SubsystemStarted { .. } | EventView::SubsystemStopped { .. } => 's',
        }),
        event is RootSystemStarted ==> event.json()[14] == 'a',
        event is RootSystemStopped ==> event.json()[14] == 'o',
        event is SubsystemStarted ==> event.json()[13] == 'a',
        event is SubsystemStopped ==> event.json()[13] == 'o',
{
    match event {
        EventView::TaskSpawned(info) => {
            let open = "{\"taskSpawned\":"@;
            reveal_strlit("{\"taskSpawned\":");
            assert(event.json() =~= open + (info.json() + "}"@));
        },
        EventView::RootSystemStarted { id } => {
            let open = "{\"rootSystemStarted\":{\"id\":"@;
            reveal_strlit("{\"rootSystemStarted\":{\"id\":");
            assert(event.json() =~= open + (id.json() + "}}"@));
        },
        EventView::RootSystemStopped { id, outcome } => {
            let open = "{\"rootSystemStopped\":{\"id\":"@;
            reveal_strlit("{\"rootSystemStopped\":{\"id\":");
            assert(event.json() =~= open + (id.json() + ",\"outcome\":"@ + outcome.json()
                + "}}"@));
        },
        EventView::SubsystemStarted { id, all_running } => {
            let open = "{\"subsystemStarted\":{\"allRunning\":"@;
            reveal_strlit("{\"subsystemStarted\":{\"allRunning\":");
            assert(event.json() =~= open + (metrics::json_list(all_running) + ",\"id\":"@ + id.json()
                + "}}"@));
        },
        EventView::SubsystemStopped { id, outcome, all_running } => {
            let open = "{\"subsystemStopped\":{\"allRunning\":"@;
            reveal_strlit("{\"subsystemStopped\":{\"allRunning\":");
            assert(event.json() =~= open + (metrics::json_list(all_running) + ",\"id\":"@ + id.json()
                + ",\"outcome\":"@ + outcome.json() + "}}"@));
        },
    }
}

proof fn lemma_root_stopped_json_injective(i: IdView, p: OutcomeView, j: IdView, q: OutcomeView)
    requires
        (EventView::RootSystemStopped { id: i, outcome: p }).json() == (
        EventView::RootSystemStopped { id: j, outcome: q }).json(),
    ensures
        i == j,
        p == q,
{
    let (open, key, end) = ("{\"rootSystemStopped\":{\"id\":"@, ",\"outcome\":"@, "}}"@);
    let (x2, y2) = (p.json() + end, q.json() + end);
    let (x1, y1) = (i.json() + (key + x2), j.json() + (key + y2));
    assert((EventView::RootSystemStopped { id: i, outcome: p }).json() =~= open + x1);
    assert((EventView::RootSystemStopped { id: j, outcome: q }).json() =~= open + y1);
    json::lemma_same_start(open, x1, y1);
    lemma_id_json_delimited(i, j, key + x2, key + y2);
    json::lemma_same_start(key, x2, y2);
    lemma_outcome_json_delimited(p, q, end, end);
}

proof fn lemma_started_json_injective(i: IdView, m: Seq<IdView>, j: IdView, n: Seq<IdView>)
    requires
        (EventView::SubsystemStarted { id: i, all_running: m }).json() == (
        EventView::SubsystemStarted { id: j, all_running: n }).json(),
    ensures
        i == j,
        m == n,
{
    let (open, key, end) = (
        "{\"subsystemStarted\":{\"allRunning\":"@,
        ",\"id\":"@,
        "}}"@,
    );
    let (x2, y2) = (i.json() + end, j.json() + end);
    let (x1, y1) = (metrics::json_list(m) + (key + x2), metrics::json_list(n) + (key + y2));
    assert((EventView::SubsystemStarted { id: i, all_running: m }).json() =~= open + x1);
    assert((EventView::SubsystemStarted { id: j, all_running: n }).json() =~= open + y1);
    json::lemma_same_start(open, x1, y1);
    lemma_list_delimited(m, n, key + x2, key + y2);
    json::lemma_same_start(key, x2, y2);
    lemma_id_json_delimited(i, j, end, end);
}

proof fn lemma_nested(
    open: Seq<char>,
    a: Seq<char>,
    b: Seq<char>,
    c: Seq<char>,
    d: Seq<char>,
    e: Seq<char>,
    end: Seq<char>,
)
    ensures
        open + a + b + c + d + e + end == open + (a + (b + (c + (d + (e + end))))),
{
    assert(open + a + b + c + d + e + end =~= open + (a + (b + (c + (d + (e + end))))));
}

proof fn lemma_stopped_json_injective(
    i: IdView,
    p: OutcomeView,
    m: Seq<IdView>,
    j: IdView,
    q: OutcomeView,
    n: Seq<IdView>,
)
    requires
        (EventView::SubsystemStopped { id: i, outcome: p, all_running: m }).json() == (
        EventView::SubsystemStopped { id: j, outcome: q, all_running: n }).json(),
    ensures
        i == j,
        p == q,
        m == n,
{
    let open = "{\"subsystemStopped\":{\"allRunning\":"@;
    let (id_key, outcome_key, end) = (",\"id\":"@, ",\"outcome\":"@, "}}"@);
    let (x3, y3) = (p.json() + end, q.json() + end);
    let (x2, y2) = (i.json() + (outcome_key + x3), j.json() + (outcome_key + y3));
    let (x1, y1) = (metrics::json_list(m) + (id_key + x2), metrics::json_list(n) + (id_key + y2));
    lemma_nested(open, metrics::json_list(m), id_key, i.json(), outcome_key, p.json(), end);
    lemma_nested(open, metrics::json_list(n), id_key, j.json(), outcome_key, q.json(), end);
    json::lemma_same_start(open, x1, y1);
    lemma_list_delimited(m, n, id_key + x2, id_key + y2);
    json::lemma_same_start(id_key, x2, y2);
    lemma_id_json_delimited(i, j, outcome_key + x3, outcome_key + y3);
    json::lemma_same_start(outcome_key, x3, y3);
    lemma_outcome_json_delimited(p, q, end, end);
}

/// The JSON text of an id: an object of its name and its task number.
pub proof fn lemma_id_text(id: IdView)
    ensures
        id.json() == "{\"name\":"@ + json::quoted(id.name) + ",\"taskId\":"@ + text::decimal(
            id.task_id as nat,
        ) + "}"@,
{
}

/// The JSON text of a list: the texts of all its ids, in order, with commas between them.
pub proof fn lemma_list_text(ids: Seq<IdView>, id: IdView)
    ensures
        metrics::json_list(Seq::<IdView>::empty()) == "[]"@,
        metrics::json_list(seq![id]) == "["@ + id.json() + "]"@,
        ids.len() > 0 ==> metrics::json_list(ids.push(id)) == metrics::json_list(ids).drop_last()
            + ","@ + id.json() + "]"@,
{
    reveal_strlit("]");
    assert(seq![id].skip(1) =~= Seq::<IdView>::empty());
    if ids.len() > 0 {
        lemma_tail_text(ids.skip(1), id);
        assert(ids.push(id).skip(1) =~= ids.skip(1).push(id));
        let (start, tail) = ("["@ + ids[0].json(), metrics::json_tail(ids.skip(1)));
        assert((start + tail).drop_last() =~= start + tail.drop_last());
        assert(metrics::json_list(ids.push(id)) =~= metrics::json_list(ids).drop_last() + ","@
            + id.json() + "]"@);
    }
}

proof fn lemma_tail_text(ids: Seq<IdView>, id: IdView)
    ensures
        metrics::json_tail(ids).len() > 0,
        metrics::json_tail(ids.push(id)) == metrics::json_tail(ids).drop_last() + ","@ + id.json()
            + "]"@,
    decreases ids.len(),
{
    reveal_strlit("]");
    if ids.len() == 0 {
        assert(ids.push(id).skip(1) =~= Seq::<IdView>::empty());
        assert(metrics::json_tail(Seq::<IdView>::empty()) == "]"@);
        assert(metrics::json_tail(ids).drop_last() =~= Seq::<char>::empty());
        assert(metrics::json_tail(ids.push(id)) =~= metrics::json_tail(ids).drop_last() + ","@
            + id.json() + "]"@);
    } else {
        lemma_tail_text(ids.skip(1), id);
        assert(ids.push(id).skip(1) =~= ids.skip(1).push(id));
        let (start, tail) = (","@ + ids[0].json(), metrics::json_tail(ids.skip(1)));
        assert((start + tail).drop_last() =~= start + tail.drop_last());
        assert(metrics::json_tail(ids.push(id)) =~= metrics::json_tail(ids).drop_last() + ","@
            + id.json() + "]"@);
    }
}

/// The JSON texts of outcomes.
pub proof fn lemma_outcome_texts(message: Seq<char>)
    ensures
        OutcomeView::TerminatedNormally.json() == "\"TerminatedNormally\""@,
        OutcomeView::TerminatedWithError(message).json() == "{\"TerminatedWithError\":"@
            + json::quoted(message) + "}"@,
        OutcomeView::ShutdownForced.json() == "\"ShutdownForced\""@,
{
}

/// The JSON texts of tasks: what each is for, under its own key.
pub proof fn lemma_task_texts(number: u64, kind: TaskTypeView, id: IdView, signal: Seq<char>)
    ensures
        (TaskInfoView { id: number, task_type: kind }).json() == "{\"id\":"@ + text::decimal(
            number as nat,
        ) + ",\"type\":"@ + kind.json() + "}"@,
        TaskTypeView::RootSystem(id).json() == "{\"rootSystem\":"@ + id.json() + "}"@,
        TaskTypeView::Subsystem(id).json() == "{\"subsystem\":"@ + id.json() + "}"@,
        TaskTypeView::CancellationTask(id).json() == "{\"cancellationTask\":"@ + id.json() + "}"@,
        TaskTypeView::JoinSignal(id).json() == "{\"joinSignal\":"@ + id.json() + "}"@,
        TaskTypeView::SignalHandler(signal).json() == "{\"signalHandler\":"@ + json::quoted(signal)
            + "}"@,
        TaskTypeView::LocalShutdownTimeout(id).json() == "{\"localShutdownTimeout\":"@ + id.json()
            + "}"@,
        TaskTypeView::MetricsLogger.json() == "\"metricsLogger\""@,
{
}

/// The JSON texts of events: an object of all that the event holds, under the event's own key.
pub proof fn lemma_event_texts(
    info: TaskInfoView,
    id: IdView,
    outcome: OutcomeView,
    running: Seq<IdView>,
)
    ensures
        EventView::TaskSpawned(info).json() == "{\"taskSpawned\":"@ + info.json() + "}"@,
        (EventView::RootSystemStarted { id }).json() == "{\"rootSystemStarted\":{\"id\":"@
            + id.json() + "}}"@,
        (EventView::RootSystemStopped { id, outcome }).json()
            == "{\"rootSystemStopped\":{\"id\":"@ + id.json() + ",\"outcome\":"@ + outcome.json()
            + "}}"@,
        (EventView::SubsystemStarted { id, all_running: running }).json()
            == "{\"subsystemStarted\":{\"allRunning\":"@ + metrics::json_list(running)
            + ",\"id\":"@ + id.json() + "}}"@,
        (EventView::SubsystemStopped { id, outcome, all_running: running }).json()
            == "{\"subsystemStopped\":{\"allRunning\":"@ + metrics::json_list(running)
            + ",\"id\":"@ + id.json() + ",\"outcome\":"@ + outcome.json() + "}}"@,
{
}

/// Different events have different JSON texts: an event can be told from its text.
pub proof fn lemma_json_injective(a: EventView, b: EventView)
    requires
        a.json() == b.json(),
    ensures
        a == b,
{
    lemma_event_json_start(a);
    lemma_event_json_start(b);
    match (a, b) {
        (EventView::TaskSpawned(i), EventView::TaskSpawned(j)) => {
            let open = "{\"taskSpawned\":"@;
            assert(a.json() =~= open + (i.json() + "}"@));
            assert(b.json() =~= open + (j.json() + "}"@));
            json::lemma_same_start(open, i.json() + "}"@, j.json() + "}"@);
            lemma_task_info_json_delimited(i, j, "}"@, "}"@);
        },
        (EventView::RootSystemStarted { id: i }, EventView::RootSystemStarted { id: j }) => {
            let open = "{\"rootSystemStarted\":{\"id\":"@;
            assert(a.json() =~= open + (i.json() + "}}"@));
            assert(b.json() =~= open + (j.json() + "}}"@));
            json::lemma_same_start(open, i.json() + "}}"@, j.json() + "}}"@);
            lemma_id_json_delimited(i, j, "}}"@, "}}"@);
        },
        (
            EventView::RootSystemStopped { id: i, outcome: p },
            EventView::RootSystemStopped { id: j, outcome: q },
        ) => {
            lemma_root_stopped_json_injective(i, p, j, q);
        },
        (
            EventView::SubsystemStarted { id: i, all_running: m },
            EventView::SubsystemStarted { id: j, all_running: n },
        ) => {
            lemma_started_json_injective(i, m, j, n);
        },
        (
            EventView::SubsystemStopped { id: i, outcome: p, all_running: m },
            EventView::SubsystemStopped { id: j, outcome: q, all_running: n },
        ) => {
            lemma_stopped_json_injective(i, p, m, j, q, n);
        },
        _ => {},
    }
}

/// The event that a text stands for.
pub open spec fn event_of(text: Seq<char>) -> EventView {
    choose|event: EventView| event.json() == text
}

/// The JSON text of an event gives the event back.
pub proof fn lemma_text_gives_event_back(event: EventView)
    ensures
        event_of(event.json()) == event,
{
    lemma_json_injective(event_of(event.json()), event);
}

} // verus!
