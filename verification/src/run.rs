//! One run of a monitor, as the decisions between its steps of I/O: what
//! to send after the probes, and how the run ends.

use vstd::prelude::*;
use vstd::string::*;
use crate::juggler::{events_url, jugglerify, Event, EventView, Payload, PayloadView};
use crate::probe::{
    failures, lemma_no_survivor, lemma_partition_complete, partition, survivors, ProbeOutcome,
};
use crate::rmq::{
    aggregate, all_links, cluster_event, unreachable_message, FederationError, Info,
};
use crate::text::{before_first, first_segment};
use crate::zoo::{
    dropped_message, state_event, try_compute, verdict_of, CollectError, EvalError, Report,
    ZooError,
};

verus! {

/// How much a line of the log matters.
#[derive(Debug, Clone, Copy, PartialEq, Eq, Structural)]
pub enum Level {
    Info,
    Warn,
    Error,
}

/// How the process ends.
#[derive(Debug, Clone, Copy, PartialEq, Eq, Structural)]
pub enum Exit {
    Success,
    Failure,
}

impl Exit {
    /// The exit code: zero for success, one for failure.
    pub fn code(&self) -> (code: i32)
        ensures
            code == 0 <==> self == Exit::Success,
            code == 1 <==> self == Exit::Failure,
    {
        match self {
            Exit::Success => 0,
            Exit::Failure => 1,
        }
    }
}

/// Seconds allowed for the whole request to the sink.
pub const SINK_TIMEOUT_SECS: u64 = 3;

/// The content type of what is sent to the sink.
pub open spec fn content_type() -> Seq<char> {
    "application/json"@
}

/// What is sent to the sink.
#[derive(Debug, Clone, PartialEq, Eq)]
pub struct Request {
    pub url: String,
    pub content_type: String,
    pub payload: Payload,
}

/// What a `Request` holds.
pub struct RequestView {
    pub url: Seq<char>,
    pub content_type: Seq<char>,
    pub payload: PayloadView,
}

impl View for Request {
    type V = RequestView;

    open spec fn view(&self) -> RequestView {
        RequestView {
            url: self.url@,
            content_type: self.content_type@,
            payload: self.payload@,
        }
    }
}

/// What follows the probes: the warnings about the hosts that are dropped,
/// and the request to send, if there is anything to send.
#[derive(Debug, Clone, PartialEq, Eq)]
pub struct Plan {
    pub warnings: Vec<String>,
    pub publish: Option<Request>,
}

/// What a `Plan` holds.
pub struct PlanView {
    pub warnings: Seq<Seq<char>>,
    pub publish: Option<RequestView>,
}

impl View for Plan {
    type V = PlanView;

    open spec fn view(&self) -> PlanView {
        PlanView {
            warnings: self.warnings.deep_view(),
            publish: match self.publish {
                Some(request) => Some(request@),
                None => None,
            },
        }
    }
}

/// The request that carries `events` from the monitor `source` to the sink
/// at `juggler_url`.
pub open spec fn request_for(source: Seq<char>, juggler_url: Seq<char>, events: Seq<EventView>) -> RequestView {
    RequestView {
        url: events_url(juggler_url),
        content_type: content_type(),
        payload: PayloadView { source, events },
    }
}

/// The request that carries `events` to the sink, if there are any.
pub open spec fn publish_of(source: Seq<char>, juggler_url: Seq<char>, events: Seq<EventView>) -> Option<
    RequestView,
> {
    if events.len() == 0 {
        None
    } else {
        Some(request_for(source, juggler_url, events))
    }
}

/// The request that carries `events` to the sink, if there are any: no
/// request is made for nothing.
fn publish(source: &str, juggler_url: String, events: Vec<Event>) -> (request: Option<Request>)
    ensures
        match request {
            Some(r) => Some(r@) == publish_of(source@, juggler_url@, events.deep_view()),
            None => publish_of(source@, juggler_url@, events.deep_view()) is None,
        },
{
    if events.len() == 0 {
        None
    } else {
        Some(
            Request {
                url: jugglerify(juggler_url),
                content_type: String::from_str("application/json"),
                payload: Payload::new(source, events),
            },
        )
    }
}

/// The judgment of the node that sent `report`, as an event under the
/// node's short name: its name up to the first dot.
pub open spec fn judged(report: Report, expected: nat) -> Result<EventView, EvalError> {
    match verdict_of(report.info@, expected) {
        Ok(verdict) => Ok(state_event(before_first(report.host@, '.'), verdict)),
        Err(e) => Err(e),
    }
}

/// Whether every report allows a judgment.
pub open spec fn sound(reports: Seq<Report>, expected: nat) -> bool {
    forall|i: int| 0 <= i < reports.len() ==> judged(#[trigger] reports[i], expected) is Ok
}

/// The events about the nodes that sent `reports`, in order.
pub open spec fn state_events(reports: Seq<Report>, expected: nat) -> Seq<EventView> {
    Seq::new(reports.len(), |i: int| judged(reports[i], expected)->Ok_0)
}

/// The warnings about the nodes whose probes failed, in order.
pub open spec fn zoo_warnings(failed: Seq<CollectError>) -> Seq<Seq<char>> {
    Seq::new(failed.len(), |i: int| dropped_message(failed[i].host@, failed[i]@))
}

/// What follows the probes of the coordination service: a warning for each
/// node that failed, and an event for each that answered.
pub open spec fn zoo_plan(
    juggler_url: Seq<char>,
    outcomes: Seq<ProbeOutcome<Report, CollectError>>,
    expected: nat,
) -> PlanView {
    PlanView {
        warnings: zoo_warnings(failures(outcomes)),
        publish: publish_of("zoo"@, juggler_url, state_events(survivors(outcomes), expected)),
    }
}

/// A report that allows no judgment: the node, and what is wrong with its
/// report.
#[derive(Debug, Clone, PartialEq, Eq)]
pub struct Defect {
    pub host: String,
    pub error: EvalError,
}

/// Whether `defect` tells of the first of `reports` that allows no
/// judgment.
pub open spec fn first_defect(reports: Seq<Report>, expected: nat, defect: Defect) -> bool {
    exists|i: int|
        0 <= i < reports.len() && judged(#[trigger] reports[i], expected) == Err::<
            EventView,
            EvalError,
        >(defect.error) && defect.host@ == reports[i].host@ && forall|j: int|
            0 <= j < i ==> judged(#[trigger] reports[j], expected) is Ok
}

/// Decides what follows the probes of the coordination service. A node
/// whose probe failed is dropped with a warning; the others are judged, and
/// the judgments are sent if there are any. A report that allows no
/// judgment ends the run.
pub fn plan_zoo(
    expected_followers: usize,
    juggler_url: String,
    outcomes: Vec<ProbeOutcome<Report, CollectError>>,
) -> (plan: Result<Plan, Defect>)
    ensures
        match plan {
            Ok(plan) => sound(survivors(outcomes@), expected_followers as nat) && plan@
                == zoo_plan(juggler_url@, outcomes@, expected_followers as nat),
            Err(defect) => first_defect(survivors(outcomes@), expected_followers as nat, defect),
        },
{
    let ghost expected = expected_followers as nat;
    let (reports, failed) = partition(outcomes);
    let mut events: Vec<Event> = Vec::new();
    let ghost all = reports@;
    for report in it: reports
        invariant
            it.seq() == all,
            all == survivors(outcomes@),
            expected == expected_followers as nat,
            events.len() == it.index(),
            forall|i: int|
                0 <= i < it.index() ==> judged(#[trigger] all[i], expected) == Ok::<
                    EventView,
                    EvalError,
                >(events[i]@),
    {
        let name = first_segment(report.host.as_str(), '.');
        match try_compute(name.as_str(), report.info.as_str(), expected_followers) {
            Ok(event) => events.push(event),
            Err(error) => {
                let defect = Defect { host: report.host, error };
                proof {
                    let k = it.index();
                    assert(judged(all[k], expected) == Err::<EventView, EvalError>(defect.error));
                    assert forall|j: int| 0 <= j < k implies judged(
                        #[trigger] all[j],
                        expected,
                    ) is Ok by {}
                    assert(first_defect(all, expected, defect));
                }
                return Err(defect);
            },
        }
    }
    assert(events.deep_view() =~= state_events(all, expected));
    let mut warnings: Vec<String> = Vec::new();
    let mut i: usize = 0;
    while i < failed.len()
        invariant
            i <= failed.len(),
            warnings.len() == i,
            forall|j: int|
                0 <= j < i ==> (#[trigger] warnings[j])@ == dropped_message(
                    failed[j].host@,
                    failed[j]@,
                ),
        decreases failed.len() - i,
    {
        let warning = ZooError::new(failed[i].host.as_str(), &failed[i]);
        warnings.push(warning.to_string());
        i += 1;
    }
    assert(warnings.deep_view() =~= zoo_warnings(failed@));
    Ok(Plan { warnings, publish: publish("zoo", juggler_url, events) })
}

/// The warnings about the brokers whose probes failed, in order.
pub open spec fn rmq_warnings(failed: Seq<FederationError>) -> Seq<Seq<char>> {
    Seq::new(failed.len(), |i: int| unreachable_message(failed[i].cause@))
}

/// The events about a cluster: one for all the links that the brokers
/// report, none where they report no link.
pub open spec fn federation_events(brokers: Seq<Vec<Info>>) -> Seq<EventView> {
    if all_links(brokers).len() == 0 {
        Seq::empty()
    } else {
        seq![cluster_event(brokers)]
    }
}

/// What follows the probes of the brokers: a warning for each broker that
/// failed, and one event for the cluster.
pub open spec fn rmq_plan(
    juggler_url: Seq<char>,
    outcomes: Seq<ProbeOutcome<Vec<Info>, FederationError>>,
) -> PlanView {
    PlanView {
        warnings: rmq_warnings(failures(outcomes)),
        publish: publish_of("rmq"@, juggler_url, federation_events(survivors(outcomes))),
    }
}

/// Decides what follows the probes of the brokers. A broker whose probe
/// failed is dropped with a warning; the links of the others are judged
/// together, and the one judgment is sent.
pub fn plan_rmq(juggler_url: String, outcomes: Vec<ProbeOutcome<Vec<Info>, FederationError>>) -> (plan:
    Plan)
    ensures
        plan@ == rmq_plan(juggler_url@, outcomes@),
{
    let (brokers, failed) = partition(outcomes);
    let mut events: Vec<Event> = Vec::new();
    match aggregate(&brokers) {
        Some(event) => events.push(event),
        None => {},
    }
    assert(events.deep_view() =~= federation_events(brokers@));
    let mut warnings: Vec<String> = Vec::new();
    let mut i: usize = 0;
    while i < failed.len()
        invariant
            i <= failed.len(),
            warnings.len() == i,
            forall|j: int|
                0 <= j < i ==> (#[trigger] warnings[j])@ == unreachable_message(failed[j].cause@),
        decreases failed.len() - i,
    {
        warnings.push(failed[i].to_string());
        i += 1;
    }
    assert(warnings.deep_view() =~= rmq_warnings(failed@));
    Plan { warnings, publish: publish("rmq", juggler_url, events) }
}

/// In a run of the coordination-service monitor in which every report
/// allows a judgment, whichever probes fail: there is one event for each
/// node that answered, in order and under that node's short name, and one
/// warning for each node that did not; and something is sent unless every
/// probe failed.
pub proof fn lemma_partial_failure_zoo(
    juggler_url: Seq<char>,
    outcomes: Seq<ProbeOutcome<Report, CollectError>>,
    expected: nat,
)
    requires
        sound(survivors(outcomes), expected),
    ensures
        zoo_plan(juggler_url, outcomes, expected).publish is None <==> forall|i: int|
            0 <= i < outcomes.len() ==> #[trigger] outcomes[i] is Failure,
        zoo_plan(juggler_url, outcomes, expected).publish matches Some(request) ==> {
            &&& request.payload.events.len() == survivors(outcomes).len()
            &&& forall|i: int|
                0 <= i < survivors(outcomes).len() ==> judged(survivors(outcomes)[i], expected)
                    == Ok::<EventView, EvalError>(#[trigger] request.payload.events[i])
            &&& forall|i: int|
                0 <= i < survivors(outcomes).len() ==> (#[trigger] request.payload.events[i]).host
                    == before_first(survivors(outcomes)[i].host@, '.') + "-test"@
        },
        zoo_plan(juggler_url, outcomes, expected).warnings.len() == failures(outcomes).len(),
        survivors(outcomes).len() + failures(outcomes).len() == outcomes.len(),
{
    lemma_no_survivor(outcomes);
    lemma_partition_complete(outcomes);
}

/// In a run of the broker monitor in which some broker that answered
/// reports a link, or none answered: whichever probes fail, there is one
/// warning for each broker that did not answer, and the one event about
/// the links of those that did is sent unless every probe failed.
pub proof fn lemma_partial_failure_rmq(
    juggler_url: Seq<char>,
    outcomes: Seq<ProbeOutcome<Vec<Info>, FederationError>>,
)
    requires
        survivors(outcomes).len() > 0 ==> all_links(survivors(outcomes)).len() > 0,
    ensures
        rmq_plan(juggler_url, outcomes).publish is None <==> forall|i: int|
            0 <= i < outcomes.len() ==> #[trigger] outcomes[i] is Failure,
        rmq_plan(juggler_url, outcomes).publish matches Some(request)
            ==> request.payload.events == seq![cluster_event(survivors(outcomes))],
        rmq_plan(juggler_url, outcomes).warnings.len() == failures(outcomes).len(),
{
    lemma_no_survivor(outcomes);
    assert(all_links(Seq::<Vec<Info>>::empty()).len() == 0);
    if survivors(outcomes).len() == 0 {
        assert(survivors(outcomes) =~= Seq::<Vec<Info>>::empty());
    }
}

/// How a run ends: the exit of the process, and the last line of its log.
#[derive(Debug, Clone, PartialEq, Eq)]
pub struct Conclusion {
    pub exit: Exit,
    pub level: Level,
    pub message: String,
}

/// What a `Conclusion` holds.
pub struct ConclusionView {
    pub exit: Exit,
    pub level: Level,
    pub message: Seq<char>,
}

impl View for Conclusion {
    type V = ConclusionView;

    open spec fn view(&self) -> ConclusionView {
        ConclusionView { exit: self.exit, level: self.level, message: self.message@ }
    }
}

/// The end of a run that has nothing to send: a failure, with a warning.
pub open spec fn nothing_sent(source: Seq<char>) -> ConclusionView {
    ConclusionView {
        exit: Exit::Failure,
        level: Level::Warn,
        message: source + " monitoring has no events to send"@,
    }
}

/// The end of a run of the monitor `source` that has nothing to send.
pub fn nothing_to_send(source: &str) -> (end: Conclusion)
    ensures
        end@ == nothing_sent(source@),
{
    Conclusion {
        exit: Exit::Failure,
        level: Level::Warn,
        message: String::from_str(source).concat(" monitoring has no events to send"),
    }
}

/// Where no probe succeeded, nothing is sent, and the run ends in failure.
pub proof fn lemma_empty_survivor_guard_zoo(
    juggler_url: Seq<char>,
    outcomes: Seq<ProbeOutcome<Report, CollectError>>,
    expected: nat,
)
    requires
        survivors(outcomes).len() == 0,
    ensures
        zoo_plan(juggler_url, outcomes, expected).publish is None,
        nothing_sent("zoo"@).exit == Exit::Failure,
{
}

/// Where no probe succeeded, nothing is sent, and the run ends in failure.
pub proof fn lemma_empty_survivor_guard_rmq(
    juggler_url: Seq<char>,
    outcomes: Seq<ProbeOutcome<Vec<Info>, FederationError>>,
)
    requires
        survivors(outcomes).len() == 0,
    ensures
        rmq_plan(juggler_url, outcomes).publish is None,
        nothing_sent("rmq"@).exit == Exit::Failure,
{
    assert(survivors(outcomes) =~= Seq::<Vec<Info>>::empty());
    assert(all_links(Seq::<Vec<Info>>::empty()).len() == 0);
}

/// What came back from the sink.
#[derive(Debug, Clone, PartialEq, Eq)]
pub enum Reply {
    /// The request did not get through; the error's words.
    Unreachable(String),
    /// The sink answered, but the body of the answer did not arrive whole;
    /// the error's words.
    Unreadable(String),
    /// The sink answered; the bytes of the answer's body.
    Answered(Vec<u8>),
}

/// What `serde_json::from_slice` finds wrong with `body` when it reads it
/// as a JSON value of any shape: the words of its error, or nothing where
/// `body` is JSON text.
pub uninterp spec fn json_fault(body: Seq<u8>) -> Option<Seq<char>>;

/// Reads `body` with `serde_json::from_slice`, as a `serde_json::Value`,
/// and hands back the words of the error, or nothing where the reading
/// succeeds. The contract only names that result: it claims that the same
/// bytes always read the same way.
#[verifier::external_body]
fn read_json(body: &[u8]) -> (fault: Option<String>)
    ensures
        match fault {
            Some(words) => json_fault(body@) == Some(words@),
            None => json_fault(body@) is None,
        },
{
    match serde_json::from_slice::<serde_json::Value>(body) {
        Ok(_) => None,
        Err(error) => Some(error.to_string()),
    }
}

/// The end of a run of the monitor `source` that sent its events, where
/// `fault` is what is wrong with the body of the answer as JSON. A request
/// that did not get through is a failure, and so is an answer whose body
/// did not arrive or is no JSON, each with an error; any answer that is
/// JSON is a success.
pub open spec fn conclusion_of(source: Seq<char>, reply: Reply, fault: Option<Seq<char>>) -> ConclusionView {
    match reply {
        Reply::Unreachable(cause) => ConclusionView {
            exit: Exit::Failure,
            level: Level::Error,
            message: "failed to reach Juggler: "@ + cause@,
        },
        Reply::Unreadable(cause) => ConclusionView {
            exit: Exit::Failure,
            level: Level::Error,
            message: "failed to parse Juggler response: "@ + cause@,
        },
        Reply::Answered(_) => match fault {
            Some(words) => ConclusionView {
                exit: Exit::Failure,
                level: Level::Error,
                message: "failed to parse Juggler response: "@ + words,
            },
            None => ConclusionView {
                exit: Exit::Success,
                level: Level::Info,
                message: source + " monitoring completed successfully."@,
            },
        },
    }
}

/// What is wrong, as JSON, with the body of `reply`; nothing where there is
/// no body.
pub open spec fn fault_of(reply: Reply) -> Option<Seq<char>> {
    match reply {
        Reply::Answered(body) => json_fault(body@),
        _ => None,
    }
}

/// The view of what may be wrong with a body.
pub open spec fn fault_view(fault: Option<String>) -> Option<Seq<char>> {
    match fault {
        Some(words) => Some(words@),
        None => None,
    }
}

/// Ends a run of the monitor `source` that sent its events and got
/// `reply`, `fault` being what is wrong with the body of the answer as
/// JSON.
pub fn conclude_with(source: &str, reply: &Reply, fault: Option<String>) -> (end: Conclusion)
    ensures
        end@ == conclusion_of(source@, *reply, fault_view(fault)),
{
    match reply {
        Reply::Unreachable(cause) => {
            let mut message = String::from_str("failed to reach Juggler: ");
            message.append(cause.as_str());
            Conclusion { exit: Exit::Failure, level: Level::Error, message }
        },
        Reply::Unreadable(cause) => {
            let mut message = String::from_str("failed to parse Juggler response: ");
            message.append(cause.as_str());
            Conclusion { exit: Exit::Failure, level: Level::Error, message }
        },
        Reply::Answered(_) => match fault {
            Some(words) => {
                let mut message = String::from_str("failed to parse Juggler response: ");
                message.append(words.as_str());
                Conclusion { exit: Exit::Failure, level: Level::Error, message }
            },
            None => Conclusion {
                exit: Exit::Success,
                level: Level::Info,
                message: String::from_str(source).concat(" monitoring completed successfully."),
            },
        },
    }
}

/// Ends a run of the monitor `source` that sent its events and got
/// `reply`: reads the body of the answer as JSON, and concludes.
pub fn conclude(source: &str, reply: &Reply) -> (end: Conclusion)
    ensures
        end@ == conclusion_of(source@, *reply, fault_of(*reply)),
{
    let fault = match reply {
        Reply::Answered(body) => read_json(body.as_slice()),
        _ => None,
    };
    conclude_with(source, reply, fault)
}

/// A run that sent its events ends in success exactly when the sink
/// answered and the body of the answer is JSON.
pub proof fn lemma_conclusion_exit(source: Seq<char>, reply: Reply, fault: Option<Seq<char>>)
    ensures
        conclusion_of(source, reply, fault).exit == Exit::Success <==> reply is Answered
            && fault is None,
        conclusion_of(source, reply, fault).exit == Exit::Failure ==> conclusion_of(
            source,
            reply,
            fault,
        ).level == Level::Error,
{
}

} // verus!
