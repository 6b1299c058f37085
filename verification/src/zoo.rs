//! The coordination-service monitor: reading a node's `mntr` report and
//! judging the node by it.

use vstd::prelude::*;
use vstd::string::*;
use crate::juggler::{Event, EventView, Status, Verdict, VerdictView};
use crate::probe::ProbeOutcome;
use crate::text::{
    append_decimal, before_first, chars_of, count_of, decimal, find_in, free_of, index_of,
    is_digit, lemma_before_first_whole, lemma_count_of_decimal, lemma_index_of_joint,
    parse_count, range_is,
};

verus! {

/// The key under which a node reports its role.
pub open spec fn state_key() -> Seq<char> {
    "zk_server_state"@
}

/// The key under which a leader reports how many followers are in sync.
pub open spec fn followers_key() -> Seq<char> {
    "zk_synced_followers"@
}

/// The role that a follower reports.
pub open spec fn follower_role() -> Seq<char> {
    "follower"@
}

/// The first line of `s`, without its line ending: the text before the
/// first newline, less one carriage return that stands right before that
/// newline.
pub open spec fn first_line(s: Seq<char>) -> Seq<char> {
    let n = index_of(s, '\n');
    if 0 < n < s.len() && s[n - 1] == '\r' {
        s.take(n - 1)
    } else {
        s.take(n)
    }
}

/// What follows the first line of `s` and its newline.
pub open spec fn after_first_line(s: Seq<char>) -> Seq<char> {
    let n = index_of(s, '\n');
    if 0 <= n < s.len() {
        s.skip(n + 1)
    } else {
        Seq::empty()
    }
}

/// The lines of a report. A line ends at a newline, or at a carriage
/// return and a newline; the last line needs no line ending, and no empty
/// line follows a final line ending.
pub open spec fn lines(s: Seq<char>) -> Seq<Seq<char>>
    decreases s.len(),
{
    if s.len() == 0 {
        Seq::empty()
    } else {
        seq![first_line(s)] + lines(after_first_line(s))
    }
}

/// Whether a line has a tab, and so a key and a value.
pub open spec fn has_value(line: Seq<char>) -> bool {
    index_of(line, '\t') < line.len()
}

/// The key of a line: the text before its first tab.
pub open spec fn key_of(line: Seq<char>) -> Seq<char> {
    before_first(line, '\t')
}

/// The value of a line: the text between its first tab and its second, or
/// the end of the line.
pub open spec fn value_of(line: Seq<char>) -> Seq<char> {
    before_first(line.skip(index_of(line, '\t') + 1), '\t')
}

/// What a report says of the two keys that matter.
pub struct Reading {
    pub state: Option<Seq<char>>,
    pub followers: Option<Seq<char>>,
}

/// Reads lines from the top, with `state` the role met so far. The reading
/// ends at the first line that reports the followers; a later report of the
/// role replaces an earlier one. A line without a tab, met before the
/// reading ends, leaves no reading.
pub open spec fn scan(lines: Seq<Seq<char>>, state: Option<Seq<char>>) -> Option<Reading>
    decreases lines.len(),
{
    if lines.len() == 0 {
        Some(Reading { state, followers: None })
    } else if !has_value(lines[0]) {
        None
    } else if key_of(lines[0]) == followers_key() {
        Some(Reading { state, followers: Some(value_of(lines[0])) })
    } else if key_of(lines[0]) == state_key() {
        scan(lines.drop_first(), Some(value_of(lines[0])))
    } else {
        scan(lines.drop_first(), state)
    }
}

/// What the report `info` says of the node's role and followers, if all the
/// lines read have a key and a value.
pub open spec fn reading_of(info: Seq<char>) -> Option<Reading> {
    scan(lines(info), None)
}

/// Why a report allows no judgment.
#[derive(Debug, Clone, Copy, PartialEq, Eq, Structural)]
pub enum EvalError {
    /// A line that had to be read has no tab.
    MalformedLine,
    /// The report does not say which role the node has.
    MissingState,
    /// The node is no follower, and the report does not say how many
    /// followers are in sync.
    MissingFollowers,
    /// The number of followers in sync is no count that fits the machine's
    /// word.
    InvalidFollowers,
}

impl EvalError {
    /// The words for what is wrong with a report.
    pub open spec fn words(self) -> Seq<char> {
        match self {
            EvalError::MalformedLine => "a line of the report has no tab"@,
            EvalError::MissingState => "the report lacks zk_server_state"@,
            EvalError::MissingFollowers => "the report lacks zk_synced_followers"@,
            EvalError::InvalidFollowers => "zk_synced_followers is no count"@,
        }
    }

    /// The words for what is wrong with a report.
    pub fn to_string(&self) -> (words: String)
        ensures
            words@ == self.words(),
    {
        match self {
            EvalError::MalformedLine => String::from_str("a line of the report has no tab"),
            EvalError::MissingState => String::from_str("the report lacks zk_server_state"),
            EvalError::MissingFollowers => String::from_str(
                "the report lacks zk_synced_followers",
            ),
            EvalError::InvalidFollowers => String::from_str("zk_synced_followers is no count"),
        }
    }
}

/// The count that `s` reads as, if it fits the machine's word.
pub open spec fn machine_count(s: Seq<char>) -> Option<nat> {
    match count_of(s) {
        Some(n) if n <= usize::MAX => Some(n),
        _ => None,
    }
}

/// The words that describe a leader with `actual` followers in sync out of
/// `expected`.
pub open spec fn leader_description(actual: nat, expected: nat) -> Seq<char> {
    "leader. followers: "@ + decimal(actual) + "/"@ + decimal(expected)
}

/// The judgment of a node that is not a follower: well when as many
/// followers are in sync as expected, a warning otherwise.
pub open spec fn leader_verdict(actual: nat, expected: nat) -> VerdictView {
    VerdictView {
        status: if actual == expected {
            Status::OK
        } else {
            Status::WARN
        },
        description: leader_description(actual, expected),
    }
}

/// The judgment of a follower: always well.
pub open spec fn follower_verdict() -> VerdictView {
    VerdictView { status: Status::OK, description: follower_role() }
}

/// The judgment that a reading allows, `expected` followers being the
/// quorum.
pub open spec fn verdict_of_reading(reading: Option<Reading>, expected: nat) -> Result<
    VerdictView,
    EvalError,
> {
    match reading {
        None => Err(EvalError::MalformedLine),
        Some(reading) => match reading.state {
            None => Err(EvalError::MissingState),
            Some(role) => if role == follower_role() {
                Ok(follower_verdict())
            } else {
                match reading.followers {
                    None => Err(EvalError::MissingFollowers),
                    Some(text) => match machine_count(text) {
                        None => Err(EvalError::InvalidFollowers),
                        Some(actual) => Ok(leader_verdict(actual, expected)),
                    },
                }
            },
        },
    }
}

/// The judgment of the node that sent the report `info`.
pub open spec fn verdict_of(info: Seq<char>, expected: nat) -> Result<VerdictView, EvalError> {
    verdict_of_reading(reading_of(info), expected)
}

/// The event that tells the sink of a node's judgment.
pub open spec fn state_event(host: Seq<char>, verdict: VerdictView) -> EventView {
    EventView {
        host: host + "-test"@,
        service: "state"@,
        instance: ""@,
        status: verdict.status,
        description: verdict.description,
        tags: seq!["zoo"@, "k8s"@, "monitoring"@],
    }
}

/// A report with text has a first line, and the other lines are the lines
/// of what follows it.
pub proof fn lemma_lines_step(s: Seq<char>)
    requires
        s.len() > 0,
    ensures
        lines(s).len() > 0,
        lines(s)[0] == first_line(s),
        lines(s).drop_first() == lines(after_first_line(s)),
{
    assert(lines(s).drop_first() =~= lines(after_first_line(s)));
}

/// Whether `span` marks `text` in `s`.
spec fn marks(s: Seq<char>, span: Option<(usize, usize)>, text: Option<Seq<char>>) -> bool {
    match span {
        None => text is None,
        Some((lo, hi)) => lo <= hi <= s.len() && text == Some(s.subrange(lo as int, hi as int)),
    }
}

/// Reads a report and marks where it gives the role and the followers.
fn read_report(chars: &Vec<char>) -> (found: Option<(Option<(usize, usize)>, Option<(usize, usize)>)>)
    ensures
        match reading_of(chars@) {
            None => found is None,
            Some(reading) => found matches Some((state, followers)) && marks(
                chars@,
                state,
                reading.state,
            ) && marks(chars@, followers, reading.followers),
        },
{
    let n = chars.len();
    let state_name = chars_of("zk_server_state");
    let followers_name = chars_of("zk_synced_followers");
    let mut pos: usize = 0;
    let mut state: Option<(usize, usize)> = None;
    let ghost mut role: Option<Seq<char>> = None;
    assert(chars@.skip(0) =~= chars@);
    while pos < n
        invariant
            pos <= n == chars.len(),
            state_name@ == state_key(),
            followers_name@ == followers_key(),
            marks(chars@, state, role),
            reading_of(chars@) == scan(lines(chars@.skip(pos as int)), role),
        decreases n - pos,
    {
        let ghost rest = chars@.skip(pos as int);
        let eol = find_in(chars, '\n', pos, n);
        let end = if eol < n && eol > pos && chars[eol - 1] == '\r' {
            eol - 1
        } else {
            eol
        };
        let next = if eol < n {
            eol + 1
        } else {
            n
        };
        let ghost line = chars@.subrange(pos as int, end as int);
        proof {
            assert(chars@.subrange(pos as int, n as int) =~= rest);
            lemma_lines_step(rest);
            assert(first_line(rest) =~= line);
            assert(after_first_line(rest) =~= chars@.skip(next as int));
        }
        let tab = find_in(chars, '\t', pos, end);
        if tab == end {
            return None;
        }
        let stop = find_in(chars, '\t', tab + 1, end);
        proof {
            assert(key_of(line) =~= chars@.subrange(pos as int, tab as int));
            assert(line.skip(tab - pos + 1) =~= chars@.subrange(tab + 1, end as int));
            assert(value_of(line) =~= chars@.subrange(tab + 1, stop as int));
        }
        if range_is(chars, pos, tab, &followers_name) {
            return Some((state, Some((tab + 1, stop))));
        }
        if range_is(chars, pos, tab, &state_name) {
            state = Some((tab + 1, stop));
            proof {
                role = Some(value_of(line));
            }
        }
        pos = next;
    }
    assert(chars@.skip(pos as int) =~= Seq::<char>::empty());
    Some((state, None))
}

/// Judges the node that sent the report `info`, `expected_followers` being
/// the quorum.
pub fn evaluate(info: &str, expected_followers: usize) -> (verdict: Result<Verdict, EvalError>)
    ensures
        match verdict_of(info@, expected_followers as nat) {
            Ok(v) => verdict is Ok && verdict->Ok_0@ == v,
            Err(e) => verdict == Err::<Verdict, EvalError>(e),
        },
{
    let chars = chars_of(info);
    let (state, followers) = match read_report(&chars) {
        None => {
            return Err(EvalError::MalformedLine);
        },
        Some(found) => found,
    };
    let (role_lo, role_hi) = match state {
        None => {
            return Err(EvalError::MissingState);
        },
        Some(span) => span,
    };
    let follower = chars_of("follower");
    if range_is(&chars, role_lo, role_hi, &follower) {
        return Ok(Verdict { status: Status::OK, description: String::from_str("follower") });
    }
    let (lo, hi) = match followers {
        None => {
            return Err(EvalError::MissingFollowers);
        },
        Some(span) => span,
    };
    let actual = match parse_count(&chars, lo, hi) {
        None => {
            return Err(EvalError::InvalidFollowers);
        },
        Some(actual) => actual,
    };
    let mut description = String::from_str("leader. followers: ");
    append_decimal(&mut description, actual);
    description.append("/");
    append_decimal(&mut description, expected_followers);
    let status = if actual == expected_followers {
        Status::OK
    } else {
        Status::WARN
    };
    Ok(Verdict { status, description })
}

/// The event that reports `verdict` about the node `host`.
pub fn event_for(host: &str, verdict: Verdict) -> (event: Event)
    ensures
        event@ == state_event(host@, verdict@),
{
    let mut tags: Vec<String> = Vec::new();
    tags.push(String::from_str("zoo"));
    tags.push(String::from_str("k8s"));
    tags.push(String::from_str("monitoring"));
    assert(tags.deep_view() =~= seq!["zoo"@, "k8s"@, "monitoring"@]);
    Event {
        host: String::from_str(host).concat("-test"),
        service: String::from_str("state"),
        instance: String::from_str(""),
        status: verdict.status,
        description: verdict.description,
        tags,
    }
}

/// Judges the node `host` by its report `info` and reports the judgment,
/// or says why the report allows none.
pub fn try_compute(host: &str, info: &str, expected_followers: usize) -> (event: Result<
    Event,
    EvalError,
>)
    ensures
        match verdict_of(info@, expected_followers as nat) {
            Ok(v) => event is Ok && event->Ok_0@ == state_event(host@, v),
            Err(e) => event == Err::<Event, EvalError>(e),
        },
{
    match evaluate(info, expected_followers) {
        Ok(verdict) => Ok(event_for(host, verdict)),
        Err(e) => Err(e),
    }
}

/// Judges the node `host` by its report `info`, which must allow a
/// judgment, and reports it.
pub fn compute(host: &str, info: String, expected_followers: usize) -> (event: Event)
    requires
        verdict_of(info@, expected_followers as nat) is Ok,
    ensures
        event@ == state_event(host@, verdict_of(info@, expected_followers as nat)->Ok_0),
{
    let verdict = evaluate(info.as_str(), expected_followers);
    event_for(host, verdict.unwrap())
}

/// The role that the report `info` gives, if its lines can be read.
pub open spec fn reported_role(info: Seq<char>) -> Option<Seq<char>> {
    match reading_of(info) {
        Some(reading) => reading.state,
        None => None,
    }
}

/// The followers in sync that the report `info` gives, if its lines can be
/// read.
pub open spec fn reported_followers(info: Seq<char>) -> Option<Seq<char>> {
    match reading_of(info) {
        Some(reading) => reading.followers,
        None => None,
    }
}

/// A node that reports a role other than follower, and `actual` followers
/// in sync, is judged well exactly when `actual` is the expected number,
/// and is warned about otherwise.
pub proof fn lemma_quorum_rule(info: Seq<char>, actual: nat, expected: nat)
    requires
        reported_role(info) is Some,
        reported_role(info) != Some(follower_role()),
        reported_followers(info) is Some,
        count_of(reported_followers(info)->0) == Some(actual),
        actual <= usize::MAX,
    ensures
        verdict_of(info, expected) == Ok::<VerdictView, EvalError>(
            leader_verdict(actual, expected),
        ),
        actual == expected <==> leader_verdict(actual, expected).status == Status::OK,
        actual != expected <==> leader_verdict(actual, expected).status == Status::WARN,
{
}

/// A node that reports the role of a follower is judged well, whatever the
/// report says of followers in sync, and also when it says nothing of them.
pub proof fn lemma_follower_shortcut(info: Seq<char>, expected: nat)
    requires
        reported_role(info) == Some(follower_role()),
    ensures
        verdict_of(info, expected) == Ok::<VerdictView, EvalError>(follower_verdict()),
        follower_verdict().status == Status::OK,
{
}

/// No report is judged critical.
pub proof fn lemma_never_critical(info: Seq<char>, expected: nat)
    ensures
        verdict_of(info, expected) matches Ok(v) ==> v.status != Status::CRIT,
{
}

/// The line that gives `value` under `key`.
pub open spec fn line_of(key: Seq<char>, value: Seq<char>) -> Seq<char> {
    key.push('\t') + value
}

/// Whether `s` can stand in a line as a key or a value: it holds no tab,
/// no newline and no carriage return.
pub open spec fn plain(s: Seq<char>) -> bool {
    free_of(s, '\t') && free_of(s, '\n') && free_of(s, '\r')
}

/// A line made of a key and a value gives back the key and the value.
pub proof fn lemma_line_parts(key: Seq<char>, value: Seq<char>)
    requires
        free_of(key, '\t'),
        free_of(value, '\t'),
    ensures
        has_value(line_of(key, value)),
        key_of(line_of(key, value)) == key,
        value_of(line_of(key, value)) == value,
{
    lemma_index_of_joint(key, '\t', value);
    lemma_before_first_whole(value, '\t');
}

/// A line, a newline and more text read as that line and then the lines of
/// the text that follows.
pub proof fn lemma_lines_prepend(line: Seq<char>, rest: Seq<char>)
    requires
        free_of(line, '\n'),
        line.len() > 0 ==> line.last() != '\r',
    ensures
        lines(line.push('\n') + rest) == seq![line] + lines(rest),
{
    let s = line.push('\n') + rest;
    lemma_index_of_joint(line, '\n', rest);
    if line.len() > 0 {
        assert(s[line.len() - 1] == line.last());
    }
    assert(first_line(s) == line);
    assert(after_first_line(s) == rest);
}

/// The report of two lines that gives `role` as the role and then `count`
/// as the followers in sync.
pub open spec fn report_of(role: Seq<char>, count: Seq<char>) -> Seq<char> {
    line_of(state_key(), role).push('\n') + line_of(followers_key(), count).push('\n')
}

/// The two keys hold letters and underscores only, and differ.
proof fn lemma_keys()
    ensures
        plain(state_key()),
        plain(followers_key()),
        state_key() != followers_key(),
{
    reveal_strlit("zk_server_state");
    reveal_strlit("zk_synced_followers");
    assert(state_key().len() == 15);
    assert(followers_key().len() == 19);
}

/// The report of two lines reads as the role and the followers that it was
/// made of.
pub proof fn lemma_report_reading(role: Seq<char>, count: Seq<char>)
    requires
        plain(role),
        plain(count),
    ensures
        reading_of(report_of(role, count)) == Some(
            Reading { state: Some(role), followers: Some(count) },
        ),
{
    lemma_keys();
    let first = line_of(state_key(), role);
    let second = line_of(followers_key(), count);
    let tail = second.push('\n');
    assert(free_of(first, '\n') && free_of(first, '\r'));
    assert(free_of(second, '\n') && free_of(second, '\r'));
    lemma_lines_prepend(first, tail);
    assert(tail =~= second.push('\n') + Seq::<char>::empty());
    lemma_lines_prepend(second, Seq::<char>::empty());
    let all = lines(report_of(role, count));
    assert(all =~= seq![first, second]);
    lemma_line_parts(state_key(), role);
    lemma_line_parts(followers_key(), count);
    let rest = all.drop_first();
    assert(rest =~= seq![second]);
    assert(scan(rest, Some(role)) == Some(Reading { state: Some(role), followers: Some(count) }));
    assert(scan(all, None) == scan(rest, Some(role)));
}

/// A node that reports a role other than follower and `actual` followers
/// in sync, in the report of two lines, is judged well exactly when
/// `actual` is the expected number, and is warned about otherwise.
pub proof fn lemma_quorum_rule_plain(role: Seq<char>, actual: nat, expected: nat)
    requires
        plain(role),
        role != follower_role(),
        actual <= usize::MAX,
    ensures
        verdict_of(report_of(role, decimal(actual)), expected) == Ok::<VerdictView, EvalError>(
            VerdictView {
                status: if actual == expected {
                    Status::OK
                } else {
                    Status::WARN
                },
                description: leader_description(actual, expected),
            },
        ),
{
    lemma_count_of_decimal(actual);
    assert(plain(decimal(actual))) by {
        assert forall|i: int| 0 <= i < decimal(actual).len() implies decimal(actual)[i] != '\t'
            && decimal(actual)[i] != '\n' && decimal(actual)[i] != '\r' by {
            assert(is_digit(decimal(actual)[i]));
        }
    }
    lemma_report_reading(role, decimal(actual));
}

/// A node that reports the role of a follower is judged well whatever it
/// reports as its followers in sync, and also when its report ends after
/// the role.
pub proof fn lemma_follower_shortcut_plain(count: Seq<char>, expected: nat)
    requires
        plain(count),
    ensures
        verdict_of(report_of(follower_role(), count), expected) == Ok::<VerdictView, EvalError>(
            follower_verdict(),
        ),
        verdict_of(line_of(state_key(), follower_role()).push('\n'), expected) == Ok::<
            VerdictView,
            EvalError,
        >(follower_verdict()),
{
    reveal_strlit("follower");
    assert(plain(follower_role()));
    lemma_report_reading(follower_role(), count);
    lemma_keys();
    let only = line_of(state_key(), follower_role());
    assert(free_of(only, '\n') && free_of(only, '\r'));
    assert(only.push('\n') =~= only.push('\n') + Seq::<char>::empty());
    lemma_lines_prepend(only, Seq::<char>::empty());
    let all = lines(only.push('\n'));
    assert(all =~= seq![only]);
    lemma_line_parts(state_key(), follower_role());
    let rest = all.drop_first();
    assert(rest =~= Seq::<Seq<char>>::empty());
    assert(scan(rest, Some(follower_role())) == Some(
        Reading { state: Some(follower_role()), followers: None },
    ));
    assert(scan(all, None) == scan(rest, Some(follower_role())));
}

/// The ways in which the probe of a node fails.
#[derive(Debug, Clone, Copy, PartialEq, Eq, Structural)]
pub enum FailureKind {
    /// No connection within the time allowed.
    ConnectTimeout,
    /// The connection was refused, reset, or the name not found.
    ConnectError,
    /// The command could not be written.
    WriteError,
    /// No complete report within the time allowed.
    ReadTimeout,
    /// The report could not be read.
    ReadError,
}

/// Why the probe of a node failed: the kind of failure, the node, and what
/// the operating system or the clock said.
#[derive(Debug, Clone, PartialEq, Eq)]
pub struct CollectError {
    pub kind: FailureKind,
    pub host: String,
    pub cause: String,
}

/// What a `CollectError` holds.
pub struct CollectErrorView {
    pub kind: FailureKind,
    pub host: Seq<char>,
    pub cause: Seq<char>,
}

impl View for CollectError {
    type V = CollectErrorView;

    open spec fn view(&self) -> CollectErrorView {
        CollectErrorView { kind: self.kind, host: self.host@, cause: self.cause@ }
    }
}

/// The words for a failed probe. A timeout names the node; any other
/// failure names the node and the cause.
pub open spec fn failure_message(error: CollectErrorView) -> Seq<char> {
    match error.kind {
        FailureKind::ConnectTimeout => "timed out opening connection to "@ + error.host,
        FailureKind::ConnectError => "failed to connect to "@ + error.host + ": "@ + error.cause,
        FailureKind::WriteError => "failed to write command to "@ + error.host + ": "@
            + error.cause,
        FailureKind::ReadTimeout => "timed out reading data from "@ + error.host,
        FailureKind::ReadError => "failed to read data from "@ + error.host + ": "@ + error.cause,
    }
}

impl CollectError {
    /// The words for this failure.
    pub fn to_string(&self) -> (message: String)
        ensures
            message@ == failure_message(self@),
    {
        let (lead, with_cause) = match self.kind {
            FailureKind::ConnectTimeout => ("timed out opening connection to ", false),
            FailureKind::ConnectError => ("failed to connect to ", true),
            FailureKind::WriteError => ("failed to write command to ", true),
            FailureKind::ReadTimeout => ("timed out reading data from ", false),
            FailureKind::ReadError => ("failed to read data from ", true),
        };
        let mut message = String::from_str(lead);
        message.append(self.host.as_str());
        if with_cause {
            message.append(": ");
            message.append(self.cause.as_str());
        }
        message
    }
}

/// What the run reports of a node that it drops.
#[derive(Debug, Clone, PartialEq, Eq)]
pub struct ZooError(pub String);

impl View for ZooError {
    type V = Seq<char>;

    open spec fn view(&self) -> Seq<char> {
        self.0@
    }
}

/// The report of a dropped node: its name as configured, then the words
/// for the failure.
pub open spec fn dropped_message(host: Seq<char>, error: CollectErrorView) -> Seq<char> {
    host + ": "@ + failure_message(error)
}

impl ZooError {
    /// The report that the node configured as `host` is dropped for
    /// `error`.
    pub fn new(host: &str, error: &CollectError) -> (report: ZooError)
        ensures
            report@ == dropped_message(host@, error@),
    {
        let mut message = String::from_str(host);
        message.append(": ");
        message.append(error.to_string().as_str());
        ZooError(message)
    }

    /// The words of the report.
    pub fn to_string(&self) -> (message: String)
        ensures
            message@ == self@,
    {
        self.0.clone()
    }
}

/// The report of a node that answered.
#[derive(Debug, Clone, PartialEq, Eq)]
pub struct Report {
    pub host: String,
    pub info: String,
}

/// What a `Report` holds.
pub struct ReportView {
    pub host: Seq<char>,
    pub info: Seq<char>,
}

impl View for Report {
    type V = ReportView;

    open spec fn view(&self) -> ReportView {
        ReportView { host: self.host@, info: self.info@ }
    }
}

/// Milliseconds allowed for opening the connection to a node.
pub const CONNECT_TIMEOUT_MS: u64 = 2000;

/// Milliseconds allowed for reading a node's report.
pub const READ_TIMEOUT_MS: u64 = 100;

/// The address of the admin port of `host`.
pub open spec fn admin_address(host: Seq<char>) -> Seq<char> {
    host + ":2181"@
}

/// The command that asks a node for its report.
pub open spec fn report_command() -> Seq<char> {
    "mntr"@
}

/// What the I/O of a probe came to, at the step it had reached.
#[derive(Debug, Clone, PartialEq, Eq)]
pub enum Progress {
    /// The connection is open.
    Connected,
    /// The connection did not open in time; the clock's words.
    ConnectTimedOut(String),
    /// The connection did not open; the error's words.
    ConnectFailed(String),
    /// The command is written.
    Written,
    /// The command could not be written; the error's words.
    WriteFailed(String),
    /// The report did not end in time; the clock's words.
    ReadTimedOut(String),
    /// The report could not be read; the error's words.
    ReadFailed(String),
    /// The report, read to its end.
    Received(String),
}

/// What a probe does next.
#[derive(Debug, Clone, PartialEq, Eq)]
pub enum Step {
    /// Open a connection to `address`, within `timeout_ms`.
    Connect { address: String, timeout_ms: u64 },
    /// Write `command` to the connection.
    Write { command: String },
    /// Read from the connection to its end, within `timeout_ms`.
    Read { timeout_ms: u64 },
    /// Stop: the probe has its outcome.
    Done(ProbeOutcome<Report, CollectError>),
}

/// Whether `step` is the failure of the given kind and cause, at `host`.
pub open spec fn fails_with(step: Step, kind: FailureKind, host: Seq<char>, cause: Seq<char>) -> bool {
    step matches Step::Done(ProbeOutcome::Failure(error)) && error@ == (CollectErrorView {
        kind,
        host,
        cause,
    })
}

/// Whether `step` is what follows `progress` in the probe of `host`: after
/// the connection the command, after the command the reading, after the
/// report the end; and after each failure the end, with the kind of failure
/// that belongs to the step at which it came.
pub open spec fn follows(host: Seq<char>, progress: Progress, step: Step) -> bool {
    match progress {
        Progress::Connected => step matches Step::Write { command } && command@
            == report_command(),
        Progress::ConnectTimedOut(cause) => fails_with(
            step,
            FailureKind::ConnectTimeout,
            host,
            cause@,
        ),
        Progress::ConnectFailed(cause) => fails_with(step, FailureKind::ConnectError, host, cause@),
        Progress::Written => step == (Step::Read { timeout_ms: READ_TIMEOUT_MS }),
        Progress::WriteFailed(cause) => fails_with(step, FailureKind::WriteError, host, cause@),
        Progress::ReadTimedOut(cause) => fails_with(step, FailureKind::ReadTimeout, host, cause@),
        Progress::ReadFailed(cause) => fails_with(step, FailureKind::ReadError, host, cause@),
        Progress::Received(info) => step matches Step::Done(ProbeOutcome::Success(report))
            && report@ == (ReportView { host, info: info@ }),
    }
}

/// The first step of the probe of `host`: to connect to its admin port.
pub fn begin(host: &str) -> (step: Step)
    ensures
        step matches Step::Connect { address, timeout_ms } && address@ == admin_address(host@)
            && timeout_ms == CONNECT_TIMEOUT_MS,
{
    Step::Connect { address: String::from_str(host).concat(":2181"), timeout_ms: CONNECT_TIMEOUT_MS }
}

/// The next step of the probe of `host`, given what the last one came to.
pub fn collect(host: &str, progress: Progress) -> (step: Step)
    ensures
        follows(host@, progress, step),
{
    let kind = match progress {
        Progress::Connected => {
            return Step::Write { command: String::from_str("mntr") };
        },
        Progress::Written => {
            return Step::Read { timeout_ms: READ_TIMEOUT_MS };
        },
        Progress::Received(info) => {
            return Step::Done(
                ProbeOutcome::Success(Report { host: String::from_str(host), info }),
            );
        },
        Progress::ConnectTimedOut(_) => FailureKind::ConnectTimeout,
        Progress::ConnectFailed(_) => FailureKind::ConnectError,
        Progress::WriteFailed(_) => FailureKind::WriteError,
        Progress::ReadTimedOut(_) => FailureKind::ReadTimeout,
        Progress::ReadFailed(_) => FailureKind::ReadError,
    };
    let cause = match progress {
        Progress::ConnectTimedOut(cause) => cause,
        Progress::ConnectFailed(cause) => cause,
        Progress::WriteFailed(cause) => cause,
        Progress::ReadTimedOut(cause) => cause,
        Progress::ReadFailed(cause) => cause,
        _ => String::new(),
    };
    Step::Done(ProbeOutcome::Failure(CollectError { kind, host: String::from_str(host), cause }))
}

} // verus!
