//! The broker-federation monitor: the federation links that each broker
//! reports, and the judgment of the cluster by them.

use vstd::prelude::*;
use vstd::string::*;
use crate::juggler::{Event, EventView, Status};
use crate::probe::ProbeOutcome;
use crate::text::{after_last, before_first, chars_of, first_segment, last_segment, range_is};

verus! {

/// The state of a federation link.
#[derive(Debug, Clone, Copy, PartialEq, Eq, Structural)]
pub enum UpstreamStatus {
    Running,
    Starting,
    Shutdown,
}

/// `c` in lower case, if it is an ASCII capital; else `c`.
pub open spec fn ascii_lower(c: char) -> char {
    if 'A' <= c <= 'Z' {
        ((c as u8 + 32) as u8) as char
    } else {
        c
    }
}

/// `s` with its ASCII capitals in lower case.
pub open spec fn lower_case(s: Seq<char>) -> Seq<char> {
    Seq::new(s.len(), |i: int| ascii_lower(s[i]))
}

impl UpstreamStatus {
    /// The state as the broker spells it.
    pub open spec fn wire_name(self) -> Seq<char> {
        match self {
            UpstreamStatus::Running => "running"@,
            UpstreamStatus::Starting => "starting"@,
            UpstreamStatus::Shutdown => "shutdown"@,
        }
    }

    /// The state that `text` spells, capitals counting as small letters.
    pub open spec fn spelled_by(text: Seq<char>) -> Option<UpstreamStatus> {
        if lower_case(text) == UpstreamStatus::Running.wire_name() {
            Some(UpstreamStatus::Running)
        } else if lower_case(text) == UpstreamStatus::Starting.wire_name() {
            Some(UpstreamStatus::Starting)
        } else if lower_case(text) == UpstreamStatus::Shutdown.wire_name() {
            Some(UpstreamStatus::Shutdown)
        } else {
            None
        }
    }

    /// The state as the broker spells it.
    pub fn as_str(&self) -> (name: &'static str)
        ensures
            name@ == self.wire_name(),
    {
        match self {
            UpstreamStatus::Running => "running",
            UpstreamStatus::Starting => "starting",
            UpstreamStatus::Shutdown => "shutdown",
        }
    }

    /// The state as the broker spells it.
    pub fn to_string(&self) -> (name: String)
        ensures
            name@ == self.wire_name(),
    {
        String::from_str(self.as_str())
    }

    /// Reads a state as the broker sent it, in whatever case.
    pub fn from_wire(text: &str) -> (status: Option<UpstreamStatus>)
        ensures
            status == UpstreamStatus::spelled_by(text@),
    {
        let chars = chars_of(text);
        let mut lower: Vec<char> = Vec::new();
        let mut i: usize = 0;
        while i < chars.len()
            invariant
                i <= chars.len(),
                lower@ == lower_case(chars@.take(i as int)),
            decreases chars.len() - i,
        {
            let c = chars[i];
            let small = if c >= 'A' && c <= 'Z' {
                (c as u8 + 32) as char
            } else {
                c
            };
            lower.push(small);
            assert(lower@ =~= lower_case(chars@.take(i + 1)));
            i += 1;
        }
        assert(chars@.take(i as int) =~= text@);
        let running = chars_of("running");
        let starting = chars_of("starting");
        let shutdown = chars_of("shutdown");
        assert(lower@.subrange(0, lower.len() as int) =~= lower@);
        if range_is(&lower, 0, lower.len(), &running) {
            Some(UpstreamStatus::Running)
        } else if range_is(&lower, 0, lower.len(), &starting) {
            Some(UpstreamStatus::Starting)
        } else if range_is(&lower, 0, lower.len(), &shutdown) {
            Some(UpstreamStatus::Shutdown)
        } else {
            None
        }
    }
}

/// One federation link, as the broker `node` reports it.
#[derive(Debug, Clone, PartialEq, Eq)]
pub struct Info {
    pub node: String,
    pub upstream: String,
    pub status: UpstreamStatus,
}

/// The address at which the broker `host` lists its federation links.
pub open spec fn federation_url(host: Seq<char>) -> Seq<char> {
    "http://"@ + host + ":15672/api/federation-links"@
}

/// The address at which the broker `host` lists its federation links.
pub fn federify(host: &str) -> (url: String)
    ensures
        url@ == federation_url(host@),
{
    let mut url = String::from_str("http://");
    url.append(host);
    url.append(":15672/api/federation-links");
    url
}

/// Seconds allowed for the whole request to a broker.
pub const REQUEST_TIMEOUT_SECS: u64 = 3;

/// The short name of a broker: what follows the last `@` of its name.
pub open spec fn node_name(node: Seq<char>) -> Seq<char> {
    after_last(node, '@')
}

/// The short name of an upstream: what stands before the first `.` of its
/// name.
pub open spec fn upstream_name(upstream: Seq<char>) -> Seq<char> {
    before_first(upstream, '.')
}

/// The line for one link: on a line of its own, the short name of the
/// upstream, a colon and the state.
pub open spec fn link_line(link: Info) -> Seq<char> {
    "\n"@ + upstream_name(link.upstream@) + ": "@ + link.status.wire_name()
}

/// The lines for the links, in order.
pub open spec fn link_lines(links: Seq<Info>) -> Seq<char>
    decreases links.len(),
{
    if links.len() == 0 {
        Seq::empty()
    } else {
        link_lines(links.drop_last()) + link_line(links.last())
    }
}

/// The header for the links of the broker with the short name `name`.
pub open spec fn header(name: Seq<char>) -> Seq<char> {
    "Federation "@ + name + " upstreams status:\n"@
}

/// The description of the links that one broker reports: a header that
/// names the broker, by the first link, then a line for each link.
pub open spec fn description_of(links: Seq<Info>) -> Seq<char>
    recommends
        links.len() > 0,
{
    header(node_name(links[0].node@)) + link_lines(links)
}

/// Whether every link is running.
pub open spec fn all_running(links: Seq<Info>) -> bool {
    forall|i: int| 0 <= i < links.len() ==> (#[trigger] links[i]).status == UpstreamStatus::Running
}

/// The level for a set of links: well if every link is running, a warning
/// otherwise.
pub open spec fn status_of(links: Seq<Info>) -> Status {
    if all_running(links) {
        Status::OK
    } else {
        Status::WARN
    }
}

/// The event about federation, as reported under the short name `name`.
pub open spec fn federation_event(name: Seq<char>, status: Status, description: Seq<char>) -> EventView {
    EventView {
        host: name + "-test"@,
        service: "federation"@,
        instance: ""@,
        status,
        description,
        tags: Seq::empty(),
    }
}

/// The event about the links that one broker reports.
pub open spec fn host_event(links: Seq<Info>) -> EventView
    recommends
        links.len() > 0,
{
    federation_event(node_name(links[0].node@), status_of(links), description_of(links))
}

/// Whether every link is running.
fn check_all_running(links: &Vec<Info>) -> (all: bool)
    ensures
        all == all_running(links@),
{
    let mut i: usize = 0;
    while i < links.len()
        invariant
            i <= links.len(),
            forall|j: int| 0 <= j < i ==> (#[trigger] links[j]).status == UpstreamStatus::Running,
        decreases links.len() - i,
    {
        match links[i].status {
            UpstreamStatus::Running => {},
            _ => {
                return false;
            },
        }
        i += 1;
    }
    true
}

/// Writes the description of one broker's links at the end of `out`.
fn describe(links: &Vec<Info>, out: &mut String)
    requires
        links.len() > 0,
    ensures
        final(out)@ == old(out)@ + description_of(links@),
{
    let name = last_segment(links[0].node.as_str(), '@');
    let ghost start = out@;
    out.append("Federation ");
    out.append(name.as_str());
    out.append(" upstreams status:\n");
    assert(out@ =~= start + header(name@) + link_lines(links@.take(0)));
    let mut i: usize = 0;
    while i < links.len()
        invariant
            i <= links.len(),
            out@ == start + header(name@) + link_lines(links@.take(i as int)),
        decreases links.len() - i,
    {
        let short = first_segment(links[i].upstream.as_str(), '.');
        let ghost before = out@;
        out.append("\n");
        out.append(short.as_str());
        out.append(": ");
        out.append(links[i].status.as_str());
        proof {
            assert(links@.take(i + 1).drop_last() =~= links@.take(i as int));
            assert(links@.take(i + 1).last() == links[i as int]);
            assert(out@ =~= before + link_line(links[i as int]));
            assert(out@ =~= start + header(name@) + link_lines(links@.take(i + 1)));
        }
        i += 1;
    }
    assert(links@.take(i as int) =~= links@);
    assert(out@ =~= start + description_of(links@));
}

/// The event with the given parts.
fn event_of(name: String, status: Status, description: String) -> (event: Event)
    ensures
        event@ == federation_event(name@, status, description@),
{
    let tags: Vec<String> = Vec::new();
    assert(tags.deep_view() =~= Seq::<Seq<char>>::empty());
    Event {
        host: name.concat("-test"),
        service: String::from_str("federation"),
        instance: String::from_str(""),
        status,
        description,
        tags,
    }
}

/// Judges the links that one broker reports, and reports the judgment
/// under that broker's short name.
pub fn compute(info: Vec<Info>) -> (event: Event)
    requires
        info.len() > 0,
    ensures
        event@ == host_event(info@),
{
    let status = if check_all_running(&info) {
        Status::OK
    } else {
        Status::WARN
    };
    let name = last_segment(info[0].node.as_str(), '@');
    let mut description = String::new();
    describe(&info, &mut description);
    assert(description@ =~= description_of(info@));
    event_of(name, status, description)
}

/// All the links that the brokers report, broker after broker.
pub open spec fn all_links(brokers: Seq<Vec<Info>>) -> Seq<Info>
    decreases brokers.len(),
{
    if brokers.len() == 0 {
        Seq::empty()
    } else {
        all_links(brokers.drop_last()) + brokers.last()@
    }
}

/// The description of a cluster: the descriptions of the brokers that
/// report links, in order, each on lines of its own.
pub open spec fn cluster_description(brokers: Seq<Vec<Info>>) -> Seq<char>
    decreases brokers.len(),
{
    if brokers.len() == 0 {
        Seq::empty()
    } else {
        let before = cluster_description(brokers.drop_last());
        let last = brokers.last()@;
        if last.len() == 0 {
            before
        } else if before.len() == 0 {
            description_of(last)
        } else {
            before + "\n"@ + description_of(last)
        }
    }
}

/// The one event about a cluster: under the short name of the broker that
/// reports the first link, well if every link of every broker is running,
/// a warning otherwise.
pub open spec fn cluster_event(brokers: Seq<Vec<Info>>) -> EventView
    recommends
        all_links(brokers).len() > 0,
{
    federation_event(
        node_name(all_links(brokers)[0].node@),
        status_of(all_links(brokers)),
        cluster_description(brokers),
    )
}

/// Whether one of the brokers reports `link`.
pub open spec fn reported_by(brokers: Seq<Vec<Info>>, link: Info) -> bool {
    exists|b: int, i: int|
        0 <= b < brokers.len() && 0 <= i < brokers[b]@.len() && #[trigger] brokers[b]@[i] == link
}

/// Every link of every broker is among all the links, and each of all the
/// links is one that a broker reports.
pub proof fn lemma_all_links(brokers: Seq<Vec<Info>>)
    ensures
        forall|b: int, i: int|
            0 <= b < brokers.len() && 0 <= i < brokers[b]@.len() ==> all_links(brokers).contains(
                #[trigger] brokers[b]@[i],
            ),
        forall|k: int|
            0 <= k < all_links(brokers).len() ==> reported_by(
                brokers,
                #[trigger] all_links(brokers)[k],
            ),
    decreases brokers.len(),
{
    if brokers.len() > 0 {
        let rest = brokers.drop_last();
        let last = brokers.last()@;
        let all = all_links(brokers);
        lemma_all_links(rest);
        assert forall|b: int, i: int|
            0 <= b < brokers.len() && 0 <= i < brokers[b]@.len() implies all.contains(
            #[trigger] brokers[b]@[i],
        ) by {
            if b < rest.len() {
                assert(rest[b] == brokers[b]);
                assert(all_links(rest).contains(rest[b]@[i]));
                let k = choose|k: int|
                    0 <= k < all_links(rest).len() && all_links(rest)[k] == rest[b]@[i];
                assert(all[k] == rest[b]@[i]);
            } else {
                assert(all[all_links(rest).len() + i] == last[i]);
            }
        }
        assert forall|k: int| 0 <= k < all.len() implies reported_by(brokers, #[trigger] all[k]) by {
            if k < all_links(rest).len() {
                assert(all[k] == all_links(rest)[k]);
                assert(reported_by(rest, all_links(rest)[k]));
                let (b, i) = choose|b: int, i: int|
                    0 <= b < rest.len() && 0 <= i < rest[b]@.len() && #[trigger] rest[b]@[i]
                        == all_links(rest)[k];
                assert(brokers[b]@[i] == all[k]);
            } else {
                let b = brokers.len() - 1;
                let i = k - all_links(rest).len();
                assert(brokers[b]@[i] == all[k]);
            }
        }
    }
}

/// The cluster is judged well exactly when every link that any broker
/// reports is running; one link in another state makes it a warning.
pub proof fn lemma_federation_uniformity(brokers: Seq<Vec<Info>>)
    ensures
        cluster_event(brokers).status == Status::OK <==> forall|b: int, i: int|
            0 <= b < brokers.len() && 0 <= i < brokers[b]@.len() ==> (#[trigger] brokers[b]@[i]).status
                == UpstreamStatus::Running,
        cluster_event(brokers).status != Status::OK ==> cluster_event(brokers).status
            == Status::WARN,
{
    lemma_all_links(brokers);
    let all = all_links(brokers);
    if all_running(all) {
        assert forall|b: int, i: int|
            0 <= b < brokers.len() && 0 <= i < brokers[b]@.len() implies (#[trigger] brokers[b]@[i]).status
            == UpstreamStatus::Running by {
            assert(all.contains(brokers[b]@[i]));
        }
    } else {
        let k = choose|k: int| 0 <= k < all.len() && all[k].status != UpstreamStatus::Running;
        assert(reported_by(brokers, all[k]));
        let (b, i) = choose|b: int, i: int|
            0 <= b < brokers.len() && 0 <= i < brokers[b]@.len() && #[trigger] brokers[b]@[i]
                == all[k];
        assert(brokers[b]@[i].status != UpstreamStatus::Running);
    }
}

/// Links put one after the other are all running exactly when those of
/// each part are.
proof fn lemma_all_running_joined(a: Seq<Info>, b: Seq<Info>)
    ensures
        all_running(a + b) == (all_running(a) && all_running(b)),
{
    let ab = a + b;
    if all_running(ab) {
        assert forall|i: int| 0 <= i < a.len() implies (#[trigger] a[i]).status
            == UpstreamStatus::Running by {
            assert(ab[i] == a[i]);
        }
        assert forall|i: int| 0 <= i < b.len() implies (#[trigger] b[i]).status
            == UpstreamStatus::Running by {
            assert(ab[a.len() + i] == b[i]);
        }
    }
}

/// The description of a broker's links is never empty.
proof fn lemma_description_has_text(links: Seq<Info>)
    ensures
        description_of(links).len() > 0,
{
    reveal_strlit("Federation ");
}

/// Judges a cluster by the links that its brokers report, and reports one
/// judgment for all of them. There is none where no broker reports a link.
pub fn aggregate(brokers: &Vec<Vec<Info>>) -> (event: Option<Event>)
    ensures
        match event {
            Some(e) => all_links(brokers@).len() > 0 && e@ == cluster_event(brokers@),
            None => all_links(brokers@).len() == 0,
        },
{
    let mut name: Option<String> = None;
    let mut well = true;
    let mut description = String::new();
    let mut b: usize = 0;
    while b < brokers.len()
        invariant
            b <= brokers.len(),
            well == all_running(all_links(brokers@.take(b as int))),
            description@ == cluster_description(brokers@.take(b as int)),
            description@.len() == 0 <==> all_links(brokers@.take(b as int)).len() == 0,
            match name {
                None => all_links(brokers@.take(b as int)).len() == 0,
                Some(n) => all_links(brokers@.take(b as int)).len() > 0 && n@ == node_name(
                    all_links(brokers@.take(b as int))[0].node@,
                ),
            },
        decreases brokers.len() - b,
    {
        let links = &brokers[b];
        let ghost seen = all_links(brokers@.take(b as int));
        proof {
            assert(brokers@.take(b + 1).drop_last() =~= brokers@.take(b as int));
            assert(brokers@.take(b + 1).last() == brokers@[b as int]);
            lemma_all_running_joined(seen, links@);
            lemma_description_has_text(links@);
        }
        if links.len() > 0 {
            if name.is_none() {
                name = Some(last_segment(links[0].node.as_str(), '@'));
            } else {
                description.append("\n");
            }
            describe(links, &mut description);
            if !check_all_running(links) {
                well = false;
            }
        } else {
            assert(seen + links@ =~= seen);
        }
        b += 1;
    }
    assert(brokers@.take(b as int) =~= brokers@);
    match name {
        None => None,
        Some(name) => {
            let status = if well {
                Status::OK
            } else {
                Status::WARN
            };
            Some(event_of(name, status, description))
        },
    }
}

/// One federation link as a broker sends it, the state still in the
/// broker's spelling.
#[derive(Debug, Clone, PartialEq, Eq)]
pub struct LinkRecord {
    pub node: String,
    pub upstream: String,
    pub status: String,
}

/// Whether `link` is `record` with its state read.
pub open spec fn reads_as(record: LinkRecord, link: Info) -> bool {
    &&& link.node@ == record.node@
    &&& link.upstream@ == record.upstream@
    &&& UpstreamStatus::spelled_by(record.status@) == Some(link.status)
}

/// Whether the state of `record` is one of the three that links have.
pub open spec fn readable(record: LinkRecord) -> bool {
    UpstreamStatus::spelled_by(record.status@) is Some
}

/// Reads the states of the links that a broker sent. The links come back in
/// the order sent; if a state is none of the three, the first such state
/// comes back instead.
pub fn read_links(records: Vec<LinkRecord>) -> (links: Result<Vec<Info>, String>)
    ensures
        match links {
            Ok(links) => links.len() == records.len() && forall|i: int|
                0 <= i < records.len() ==> reads_as(#[trigger] records[i], links[i]),
            Err(status) => exists|i: int|
                0 <= i < records.len() && !readable(#[trigger] records[i]) && status@
                    == records[i].status@ && forall|j: int|
                    0 <= j < i ==> readable(#[trigger] records[j]),
        },
{
    let mut links: Vec<Info> = Vec::new();
    let ghost all = records@;
    for record in it: records
        invariant
            it.seq() == all,
            links.len() == it.index(),
            forall|i: int| 0 <= i < it.index() ==> reads_as(#[trigger] all[i], links[i]),
    {
        match UpstreamStatus::from_wire(record.status.as_str()) {
            Some(status) => {
                links.push(Info { node: record.node, upstream: record.upstream, status });
            },
            None => {
                proof {
                    let k = it.index();
                    assert(!readable(all[k]));
                    assert forall|j: int| 0 <= j < k implies readable(#[trigger] all[j]) by {
                        assert(reads_as(all[j], links[j]));
                    }
                }
                return Err(record.status);
            },
        }
    }
    Ok(links)
}

/// Why a broker gave no list of links: the broker, and the words of the
/// error.
#[derive(Debug, Clone, PartialEq, Eq)]
pub struct FederationError {
    pub host: String,
    pub cause: String,
}

/// The words for a broker that is dropped.
pub open spec fn unreachable_message(cause: Seq<char>) -> Seq<char> {
    "failed to reach RMQ: "@ + cause
}

/// The words for a state that is none of the three.
pub open spec fn unknown_status_message(status: Seq<char>) -> Seq<char> {
    "unknown link status: "@ + status
}

impl FederationError {
    /// The words for this failure.
    pub fn to_string(&self) -> (message: String)
        ensures
            message@ == unreachable_message(self.cause@),
    {
        let mut message = String::from_str("failed to reach RMQ: ");
        message.append(self.cause.as_str());
        message
    }
}

/// What the request to a broker came to.
#[derive(Debug, Clone, PartialEq, Eq)]
pub enum Fetched {
    /// No answer, or none that is a list of links; the error's words.
    Unreachable(String),
    /// The links that the broker listed.
    Answered(Vec<LinkRecord>),
}

/// Whether `outcome` is the failure of `host` for `cause`.
pub open spec fn fails_for(
    outcome: ProbeOutcome<Vec<Info>, FederationError>,
    host: Seq<char>,
    cause: Seq<char>,
) -> bool {
    outcome matches ProbeOutcome::Failure(e) && e.host@ == host && e.cause@ == cause
}

/// Whether `outcome` is how the probe of `host` ends on `fetched`: with the
/// links, if the broker listed links whose states can all be read; with one
/// failure otherwise, whatever went wrong.
pub open spec fn ends_with(
    host: Seq<char>,
    fetched: Fetched,
    outcome: ProbeOutcome<Vec<Info>, FederationError>,
) -> bool {
    match fetched {
        Fetched::Unreachable(cause) => fails_for(outcome, host, cause@),
        Fetched::Answered(records) => if forall|i: int|
            0 <= i < records.len() ==> readable(#[trigger] records[i]) {
            outcome matches ProbeOutcome::Success(links) && links.len() == records.len()
                && forall|i: int|
                0 <= i < records.len() ==> reads_as(#[trigger] records[i], links[i])
        } else {
            exists|i: int|
                0 <= i < records.len() && !readable(#[trigger] records[i]) && fails_for(
                    outcome,
                    host,
                    unknown_status_message(records[i].status@),
                ) && forall|j: int| 0 <= j < i ==> readable(#[trigger] records[j])
        },
    }
}

/// The outcome of the probe of the broker `host`.
pub fn classify(host: &str, fetched: Fetched) -> (outcome: ProbeOutcome<Vec<Info>, FederationError>)
    ensures
        ends_with(host@, fetched, outcome),
{
    let cause = match fetched {
        Fetched::Unreachable(cause) => cause,
        Fetched::Answered(records) => match read_links(records) {
            Ok(links) => {
                return ProbeOutcome::Success(links);
            },
            Err(status) => {
                let mut cause = String::from_str("unknown link status: ");
                cause.append(status.as_str());
                cause
            },
        },
    };
    ProbeOutcome::Failure(FederationError { host: String::from_str(host), cause })
}

} // verus!
