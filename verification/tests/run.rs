use monitoring::juggler::{Event, Payload, Status};
use monitoring::probe::{dispatch, ProbeOutcome};
use monitoring::rmq::{classify, FederationError, Fetched, Info, LinkRecord, UpstreamStatus};
use monitoring::roster::Roster;
use monitoring::run::{
    conclude, conclude_with, nothing_to_send, plan_rmq, plan_zoo, Conclusion, Defect, Exit, Level,
    Plan, Reply, Request, SINK_TIMEOUT_SECS,
};
use monitoring::zoo::{
    begin, collect, CollectError, EvalError, FailureKind, Progress, Report, Step,
};

fn report(host: &str, info: &str) -> ProbeOutcome<Report, CollectError> {
    ProbeOutcome::Success(Report { host: String::from(host), info: String::from(info) })
}

fn timed_out(host: &str) -> ProbeOutcome<Report, CollectError> {
    ProbeOutcome::Failure(CollectError {
        kind: FailureKind::ConnectTimeout,
        host: String::from(host),
        cause: String::from("deadline has elapsed"),
    })
}

fn state_event(host: &str, status: Status, description: &str) -> Event {
    Event {
        host: String::from(host),
        service: String::from("state"),
        instance: String::new(),
        status,
        description: String::from(description),
        tags: vec![String::from("zoo"), String::from("k8s"), String::from("monitoring")],
    }
}

fn request(source: &str, url: &str, events: Vec<Event>) -> Request {
    Request {
        url: String::from(url),
        content_type: String::from("application/json"),
        payload: Payload { source: String::from(source), events },
    }
}

fn link(node: &str, upstream: &str, status: UpstreamStatus) -> Info {
    Info { node: String::from(node), upstream: String::from(upstream), status }
}

fn unreachable(host: &str, cause: &str) -> ProbeOutcome<Vec<Info>, FederationError> {
    ProbeOutcome::Failure(FederationError { host: String::from(host), cause: String::from(cause) })
}

const FOLLOWER: &str = "zk_version\t3.4.13\nzk_server_state\tfollower\nzk_znode_count\t5\n";
const LEADER: &str = "zk_version\t3.4.13\nzk_server_state\tleader\nzk_followers\t2\nzk_synced_followers\t2\n";

/// Plays the I/O of one probe: `script` says what the node does.
fn probe(host: &String, script: &str) -> ProbeOutcome<Report, CollectError> {
    let mut step = begin(host);
    loop {
        let progress = match step {
            Step::Connect { address, timeout_ms } => {
                assert_eq!(address, format!("{}:2181", host));
                assert_eq!(timeout_ms, 2000);
                if script == "unreachable" {
                    Progress::ConnectTimedOut(String::from("deadline has elapsed"))
                } else {
                    Progress::Connected
                }
            }
            Step::Write { command } => {
                assert_eq!(command, "mntr");
                Progress::Written
            }
            Step::Read { timeout_ms } => {
                assert_eq!(timeout_ms, 100);
                Progress::Received(String::from(script))
            }
            Step::Done(outcome) => return outcome,
        };
        step = collect(host, progress);
    }
}

#[test]
fn scenario_two_nodes_answer_and_one_is_unreachable() {
    let roster = Roster::parse("z1,z2,z3");
    assert_eq!(roster.expected_followers(), 2);
    let outcomes = dispatch(roster.hosts(), |host: &String| match host.as_str() {
        "z1" => probe(host, FOLLOWER),
        "z2" => probe(host, LEADER),
        _ => probe(host, "unreachable"),
    });
    assert_eq!(outcomes.len(), 3);
    let plan = plan_zoo(roster.expected_followers(), String::from("http://juggler"), outcomes).unwrap();
    assert_eq!(plan.warnings, vec!["z3: timed out opening connection to z3"]);
    let sent = plan.publish.unwrap();
    assert_eq!(sent.url, "http://juggler/events");
    assert_eq!(sent.payload.source, "zoo");
    assert_eq!(
        sent.payload.events,
        vec![
            state_event("z1-test", Status::OK, "follower"),
            state_event("z2-test", Status::OK, "leader. followers: 2/2"),
        ]
    );
    let end = conclude("zoo", &Reply::Answered(b"{\"status\":\"ok\"}".to_vec()));
    assert_eq!(end.exit, Exit::Success);
    assert_eq!(end.exit.code(), 0);
    assert_eq!(end.level, Level::Info);
    assert_eq!(end.message, "zoo monitoring completed successfully.");
}

#[test]
fn scenario_two_brokers_one_link_starting() {
    let hosts = vec![String::from("rmq-a"), String::from("rmq-b")];
    let outcomes = dispatch(&hosts, |host: &String| {
        let record = if host == "rmq-a" {
            LinkRecord {
                node: String::from("rabbit@host-a"),
                upstream: String::from("db.sync"),
                status: String::from("running"),
            }
        } else {
            LinkRecord {
                node: String::from("rabbit@host-b"),
                upstream: String::from("cache.sync"),
                status: String::from("starting"),
            }
        };
        classify(host, Fetched::Answered(vec![record]))
    });
    let plan = plan_rmq(String::from("http://juggler"), outcomes);
    assert_eq!(plan.warnings, Vec::<String>::new());
    let sent = plan.publish.unwrap();
    assert_eq!(sent.payload.source, "rmq");
    assert_eq!(sent.payload.events.len(), 1);
    let event = &sent.payload.events[0];
    assert_eq!(event.status, Status::WARN);
    assert_eq!(event.service, "federation");
    assert!(event.description.contains("db: running"));
    assert!(event.description.contains("cache: starting"));
    assert_eq!(
        event.description,
        "Federation host-a upstreams status:\n\ndb: running\n\
         Federation host-b upstreams status:\n\ncache: starting"
    );
}

#[test]
fn scenario_the_sink_cannot_be_reached() {
    let end = conclude("zoo", &Reply::Unreachable(String::from("connection refused")));
    assert_eq!(
        end,
        Conclusion {
            exit: Exit::Failure,
            level: Level::Error,
            message: String::from("failed to reach Juggler: connection refused"),
        }
    );
    assert_ne!(end.exit.code(), 0);
}

#[test]
fn exit_codes_are_zero_and_one() {
    assert_eq!(Exit::Success.code(), 0);
    assert_eq!(Exit::Failure.code(), 1);
    assert_eq!(SINK_TIMEOUT_SECS, 3);
}

#[test]
fn every_node_that_answers_gets_an_event_whichever_fail() {
    let infos = [FOLLOWER, LEADER, FOLLOWER, FOLLOWER];
    for mask in 0u32..16 {
        let mut outcomes = Vec::new();
        let mut events = Vec::new();
        let mut warnings = Vec::new();
        for i in 0..4 {
            let host = format!("z{}.prod", i);
            if mask & (1 << i) != 0 {
                outcomes.push(report(&host, infos[i]));
                let description = if i == 1 { "leader. followers: 2/3" } else { "follower" };
                let status = if i == 1 { Status::WARN } else { Status::OK };
                events.push(state_event(&format!("z{}-test", i), status, description));
            } else {
                outcomes.push(timed_out(&host));
                warnings.push(format!("{}: timed out opening connection to {}", host, host));
            }
        }
        let plan = plan_zoo(3, String::from("http://j"), outcomes).unwrap();
        assert_eq!(plan.warnings, warnings);
        if mask == 0 {
            assert_eq!(plan.publish, None);
        } else {
            assert_eq!(plan.publish, Some(request("zoo", "http://j/events", events)));
        }
    }
}

#[test]
fn a_node_is_reported_under_its_name_up_to_the_first_dot() {
    let plan = plan_zoo(0, String::from("http://j"), vec![report("zoo-1.prod.local", FOLLOWER)]).unwrap();
    assert_eq!(plan.publish.unwrap().payload.events[0].host, "zoo-1-test");
    let plan = plan_zoo(0, String::from("http://j"), vec![report(".hidden", FOLLOWER)]).unwrap();
    assert_eq!(plan.publish.unwrap().payload.events[0].host, "-test");
}

#[test]
fn nothing_is_sent_when_every_probe_failed() {
    let plan = plan_zoo(1, String::from("http://j"), vec![timed_out("z1"), timed_out("z2")]).unwrap();
    assert_eq!(
        plan,
        Plan {
            warnings: vec![
                String::from("z1: timed out opening connection to z1"),
                String::from("z2: timed out opening connection to z2"),
            ],
            publish: None,
        }
    );
    let plan = plan_rmq(String::from("http://j"), vec![unreachable("r1", "refused"), unreachable("r2", "timeout")]);
    assert_eq!(
        plan,
        Plan {
            warnings: vec![
                String::from("failed to reach RMQ: refused"),
                String::from("failed to reach RMQ: timeout"),
            ],
            publish: None,
        }
    );
}

#[test]
fn nothing_is_sent_when_there_are_no_hosts_at_all() {
    assert_eq!(
        plan_zoo(0, String::from("http://j"), vec![]),
        Ok(Plan { warnings: vec![], publish: None })
    );
    assert_eq!(plan_rmq(String::from("http://j"), vec![]), Plan { warnings: vec![], publish: None });
}

#[test]
fn a_run_with_nothing_to_send_fails_with_a_warning() {
    assert_eq!(
        nothing_to_send("zoo"),
        Conclusion {
            exit: Exit::Failure,
            level: Level::Warn,
            message: String::from("zoo monitoring has no events to send"),
        }
    );
    assert_eq!(nothing_to_send("rmq").message, "rmq monitoring has no events to send");
    assert_eq!(nothing_to_send("rmq").exit.code(), 1);
}

#[test]
fn a_report_that_allows_no_judgment_ends_the_run() {
    let outcomes = vec![
        report("z1", FOLLOWER),
        timed_out("z2"),
        report("z3.local", "zk_server_state\tleader\n"),
        report("z4", "nonsense"),
    ];
    assert_eq!(
        plan_zoo(3, String::from("http://j"), outcomes),
        Err(Defect { host: String::from("z3.local"), error: EvalError::MissingFollowers })
    );
    assert_eq!(
        plan_zoo(3, String::from("http://j"), vec![report("z1", "")]),
        Err(Defect { host: String::from("z1"), error: EvalError::MissingState })
    );
}

#[test]
fn the_brokers_that_answer_are_judged_together_whichever_fail() {
    let a = vec![link("rabbit@a", "db.sync", UpstreamStatus::Running)];
    let b = vec![link("rabbit@b", "cache.sync", UpstreamStatus::Running)];
    let outcomes = vec![
        unreachable("r0", "refused"),
        ProbeOutcome::Success(a),
        unreachable("r2", "timeout"),
        ProbeOutcome::Success(b),
    ];
    let plan = plan_rmq(String::from("http://j"), outcomes);
    assert_eq!(plan.warnings, vec!["failed to reach RMQ: refused", "failed to reach RMQ: timeout"]);
    let sent = plan.publish.unwrap();
    assert_eq!(sent.url, "http://j/events");
    assert_eq!(sent.content_type, "application/json");
    assert_eq!(sent.payload.events.len(), 1);
    assert_eq!(sent.payload.events[0].status, Status::OK);
    assert_eq!(sent.payload.events[0].host, "a-test");
    assert_eq!(
        sent.payload.events[0].description,
        "Federation a upstreams status:\n\ndb: running\nFederation b upstreams status:\n\ncache: running"
    );
}

#[test]
fn brokers_without_links_leave_nothing_to_send() {
    let plan = plan_rmq(String::from("http://j"), vec![ProbeOutcome::Success(vec![])]);
    assert_eq!(plan, Plan { warnings: vec![], publish: None });
}

#[test]
fn any_json_in_the_reply_is_a_success() {
    for body in ["{}", "[]", "null", "true", "0", "\"error\"", "{\"status\": \"failed\"}", " [1, 2.5, {\"a\": null}] \n"] {
        let end = conclude("rmq", &Reply::Answered(body.as_bytes().to_vec()));
        assert_eq!(
            end,
            Conclusion {
                exit: Exit::Success,
                level: Level::Info,
                message: String::from("rmq monitoring completed successfully."),
            },
            "{:?}",
            body
        );
    }
}

#[test]
fn a_reply_that_is_no_json_is_a_failure() {
    for body in ["", "   ", "<html>502</html>", "{", "{\"a\": }", "[1, 2", "nul", "{} {}", "\u{feff}{}"] {
        let end = conclude("zoo", &Reply::Answered(body.as_bytes().to_vec()));
        assert_eq!(end.exit, Exit::Failure, "{:?}", body);
        assert_eq!(end.level, Level::Error);
        assert!(end.message.starts_with("failed to parse Juggler response: "), "{}", end.message);
        assert!(end.message.len() > "failed to parse Juggler response: ".len());
    }
    let end = conclude("zoo", &Reply::Answered(vec![0xff, 0xfe]));
    assert_eq!(end.exit, Exit::Failure);
}

#[test]
fn the_parser_words_its_own_errors() {
    let end = conclude("zoo", &Reply::Answered(b"<html>".to_vec()));
    assert_eq!(end.message, "failed to parse Juggler response: expected value at line 1 column 1");
    let fault = serde_json::from_slice::<serde_json::Value>(b"[1,").unwrap_err().to_string();
    let end = conclude("zoo", &Reply::Answered(b"[1,".to_vec()));
    assert_eq!(end.message, format!("failed to parse Juggler response: {}", fault));
}

#[test]
fn conclude_with_takes_the_fault_as_given() {
    let answered = Reply::Answered(b"whatever".to_vec());
    assert_eq!(
        conclude_with("zoo", &answered, None),
        Conclusion {
            exit: Exit::Success,
            level: Level::Info,
            message: String::from("zoo monitoring completed successfully."),
        }
    );
    assert_eq!(
        conclude_with("zoo", &answered, Some(String::from("EOF while parsing"))),
        Conclusion {
            exit: Exit::Failure,
            level: Level::Error,
            message: String::from("failed to parse Juggler response: EOF while parsing"),
        }
    );
    let unreachable = Reply::Unreachable(String::from("dns error"));
    for fault in [None, Some(String::from("ignored"))] {
        assert_eq!(
            conclude_with("rmq", &unreachable, fault),
            Conclusion {
                exit: Exit::Failure,
                level: Level::Error,
                message: String::from("failed to reach Juggler: dns error"),
            }
        );
    }
}

#[test]
fn a_body_that_did_not_arrive_counts_as_unparsable() {
    let end = conclude("zoo", &Reply::Unreadable(String::from("connection closed")));
    assert_eq!(
        end,
        Conclusion {
            exit: Exit::Failure,
            level: Level::Error,
            message: String::from("failed to parse Juggler response: connection closed"),
        }
    );
}
