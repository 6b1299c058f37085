use monitoring::juggler::{jugglerify, Status};

#[test]
fn jugglerify_appends_the_events_path() {
    assert_eq!(jugglerify(String::from("http://sink.local")), "http://sink.local/events");
}

#[test]
fn status_is_spelled_as_the_sink_expects() {
    assert_eq!(Status::OK.as_str(), "OK");
    assert_eq!(Status::WARN.as_str(), "WARN");
    assert_eq!(Status::CRIT.as_str(), "CRIT");
}
