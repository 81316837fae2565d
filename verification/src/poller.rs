//! The status poller: when it runs, and how one polling cycle turns what the
//! cloud and the game host answered into a [`ServerStatus`].
//!
//! The poller itself talks to nobody. Its driver asks the cloud for the
//! instance's state, runs the two commands on the game host where
//! [`plan_cycle`] asks for it, and hands the answers back as plain text.

use crate::model::{
    ContainerStatus, ContainerStatusView, OnlinePeople, OnlinePeopleView, ServerStatus,
    ServerStatusView,
};
use crate::registry::{
    count_after_register, count_after_registers, count_after_unregister, count_after_unregisters,
    lemma_count_is_balance,
};
use crate::text::{chars_of, find, find_chars, find_from, trim_bounds, trimmed};
use vstd::prelude::*;
use vstd::slice::slice_subrange;
use vstd::string::*;
use vstd::utf8::{decode_utf8, encode_utf8, valid_utf8};

verus! {

/// The seconds between two polling cycles.
pub const POLL_INTERVAL_SECS: u64 = 5;

/// Whether the poller is waiting for a viewer or polling.
#[derive(Clone, Copy, PartialEq, Eq, Debug, Structural)]
pub enum PollerState {
    /// No viewer is connected; the poller waits for the registry's wake signal.
    Idle,
    /// Viewers are connected; the poller runs one cycle after the other.
    Polling,
}

/// What the poller's driver reports.
#[derive(Clone, Copy, PartialEq, Eq, Debug, Structural)]
pub enum PollerEvent {
    /// The registry's wake signal arrived.
    Wake,
    /// A cycle is over: its status is published and the interval has passed.
    CycleDone,
}

/// What the poller's driver has to do next.
#[derive(Clone, Copy, PartialEq, Eq, Debug, Structural)]
pub enum PollerAction {
    /// Wait for the registry's wake signal.
    AwaitWake,
    /// Run one polling cycle, publish its status and wait for the interval.
    Poll,
    /// Go on with what is under way.
    Ignore,
}

/// The poller's transitions. Both events that a state waits for lead to a
/// fresh look at the number of live connections: with a viewer the poller
/// polls, without one it waits. An event that the state does not wait for
/// changes nothing, so a signal that comes twice starts no second cycle.
pub open spec fn poller_next(state: PollerState, event: PollerEvent, live: nat) -> (
    PollerState,
    PollerAction,
) {
    match (state, event) {
        (PollerState::Idle, PollerEvent::Wake) | (PollerState::Polling, PollerEvent::CycleDone) => {
            if live > 0 {
                (PollerState::Polling, PollerAction::Poll)
            } else {
                (PollerState::Idle, PollerAction::AwaitWake)
            }
        },
        _ => (state, PollerAction::Ignore),
    }
}

/// One transition of the poller: the state after `event`, seen at a moment
/// when `live` connections are registered, and what to do next.
pub fn poller_step(state: PollerState, event: PollerEvent, live: u64) -> (r: (
    PollerState,
    PollerAction,
))
    ensures
        r == poller_next(state, event, live as nat),
{
    match (state, event) {
        (PollerState::Idle, PollerEvent::Wake) | (PollerState::Polling, PollerEvent::CycleDone) => {
            if live > 0 {
                (PollerState::Polling, PollerAction::Poll)
            } else {
                (PollerState::Idle, PollerAction::AwaitWake)
            }
        },
        _ => (state, PollerAction::Ignore),
    }
}

/// The line break that separates the lines of a listing.
pub open spec fn line_break() -> Seq<char> {
    seq!['\n']
}

/// The text up to the first line break, or all of it where there is none.
pub open spec fn first_line(text: Seq<char>) -> Seq<char> {
    match find(text, line_break()) {
        Some(at) => text.take(at),
        None => text,
    }
}

/// The text behind the first line break, where there is one.
pub open spec fn after_first_line(text: Seq<char>) -> Option<Seq<char>> {
    match find(text, line_break()) {
        Some(at) => Some(text.skip(at + 1)),
        None => None,
    }
}

/// The container status that a listing of the host's containers shows.
///
/// The listing is a table. Its first line, once the white space around the
/// listing is gone, names the columns; the status cell of the second line
/// lies between the offsets at which the first line holds "STATUS" and
/// "PORTS". Where either name is missing, where there is no second line, or
/// where the second line does not reach that far, the container is not up.
pub open spec fn container_of_listing(listing: Seq<char>) -> ContainerStatusView {
    let text = trimmed(listing);
    let header = first_line(text);
    match (find(header, "STATUS"@), find(header, "PORTS"@), after_first_line(text)) {
        (Some(left), Some(right), Some(rest)) => {
            let line = first_line(rest);
            if left <= right <= line.len() {
                ContainerStatusView::Up(line.subrange(left, right))
            } else {
                ContainerStatusView::NotUp
            }
        },
        _ => ContainerStatusView::NotUp,
    }
}

/// Reads the container's status off the output of the command that lists the
/// host's containers.
pub fn container_from_listing(listing: &str) -> (status: ContainerStatus)
    ensures
        status@ == container_of_listing(listing@),
{
    let chars = chars_of(listing);
    let (start, end) = trim_bounds(chars.as_slice());
    let text = slice_subrange(chars.as_slice(), start, end);
    let newline = vec!['\n'];
    assert(newline@ == line_break());
    let status_name = chars_of("STATUS");
    let ports_name = chars_of("PORTS");
    let header_end = find_chars(text, newline.as_slice());
    let header = match header_end {
        Some(at) => slice_subrange(text, 0, at),
        None => text,
    };
    assert(header@ == first_line(text@));
    let left = find_chars(header, status_name.as_slice());
    let right = find_chars(header, ports_name.as_slice());
    match (left, right, header_end) {
        (Some(left), Some(right), Some(at)) => {
            let rest = slice_subrange(text, at + 1, text.len());
            assert(rest@ == text@.skip(at + 1));
            let line_len = match find_chars(rest, newline.as_slice()) {
                Some(len) => len,
                None => rest.len(),
            };
            assert(first_line(rest@).len() == line_len);
            if left <= right && right <= line_len {
                let from = start + at + 1 + left;
                let to = start + at + 1 + right;
                assert(listing@.subrange(from as int, to as int) == first_line(rest@).subrange(
                    left as int,
                    right as int,
                ));
                ContainerStatus::Up(listing.substring_char(from, to).to_owned())
            } else {
                ContainerStatus::NotUp
            }
        },
        _ => ContainerStatus::NotUp,
    }
}

/// What `strip_ansi_escapes::strip` makes of `bytes`: what a terminal would
/// print of them, without the escape sequences that steer it.
pub uninterp spec fn ansi_stripped(bytes: Seq<u8>) -> Seq<u8>;

/// `strip_ansi_escapes::strip`. Its result is given a name; all that is
/// claimed of it is that it depends on the bytes alone.
#[verifier::external_body]
fn strip_ansi(bytes: &[u8]) -> (stripped: Vec<u8>)
    ensures
        stripped@ == ansi_stripped(bytes@),
{
    strip_ansi_escapes::strip(bytes)
}

/// `String::from_utf8` of std: the text that `bytes` spell, where they are
/// valid UTF-8, and nothing where they are not.
#[verifier::external_body]
fn string_from_utf8(bytes: Vec<u8>) -> (text: Option<String>)
    ensures
        text is Some <==> valid_utf8(bytes@),
        text is Some ==> text->0@ == decode_utf8(bytes@),
{
    String::from_utf8(bytes).ok()
}

/// The roster that the game server's answer, already free of escape
/// sequences, spells: the answer without the white space around it, or
/// unknown where the bytes are no text.
pub open spec fn online_of_stripped(stripped: Seq<u8>) -> OnlinePeopleView {
    if valid_utf8(stripped) {
        OnlinePeopleView::Known(trimmed(decode_utf8(stripped)))
    } else {
        OnlinePeopleView::Unknown
    }
}

/// The roster that the raw answer of the game server spells.
pub open spec fn online_of_roster(raw: Seq<char>) -> OnlinePeopleView {
    online_of_stripped(ansi_stripped(encode_utf8(raw)))
}

/// Turns the game server's answer, already free of escape sequences, into
/// the roster.
pub fn online_from_stripped(stripped: Vec<u8>) -> (online: OnlinePeople)
    ensures
        online@ == online_of_stripped(stripped@),
{
    match string_from_utf8(stripped) {
        Some(text) => {
            let chars = chars_of(text.as_str());
            let (start, end) = trim_bounds(chars.as_slice());
            OnlinePeople::Known(text.as_str().substring_char(start, end).to_owned())
        },
        None => OnlinePeople::Unknown,
    }
}

/// Turns the raw answer of the game server to the roster query into the
/// roster: escape sequences are taken out, then the white space around the
/// rest.
pub fn online_from_roster(raw: &str) -> (online: OnlinePeople)
    ensures
        online@ == online_of_roster(raw@),
{
    online_from_stripped(strip_ansi(raw.as_bytes()))
}

/// Whether the state name says that the instance is running.
pub open spec fn indicates_running(host: Seq<char>) -> bool {
    find(host, "running"@) is Some
}

/// Whether the state name says that the instance is running: whether it
/// holds the word "running".
pub fn is_running(host: &str) -> (running: bool)
    ensures
        running == indicates_running(host@),
{
    let chars = chars_of(host);
    let word = chars_of("running");
    find_chars(chars.as_slice(), word.as_slice()).is_some()
}

/// The host text for an instance whose state the cloud did not tell.
pub open spec fn unknown_host() -> Seq<char> {
    "failed to get instance state"@
}

/// The host text of a cycle: the state name that the cloud gave, or
/// [`unknown_host`] where the query failed.
pub open spec fn host_of(described: Option<Seq<char>>) -> Seq<char> {
    match described {
        Some(name) => name,
        None => unknown_host(),
    }
}

/// The status of an instance that is not running: the game host is not
/// asked, so the container counts as not up and the roster is unknown.
pub open spec fn idle_status(host: Seq<char>) -> ServerStatusView {
    ServerStatusView {
        host,
        container: ContainerStatusView::NotUp,
        online: OnlinePeopleView::Unknown,
    }
}

/// The status of one cycle, from the instance's state name and the output
/// of the two commands, each absent where its command failed. A command that
/// failed leaves its field unknown. Where the instance is not running, the
/// outputs are not looked at.
pub open spec fn status_of(
    host: Seq<char>,
    listing: Option<Seq<char>>,
    roster: Option<Seq<char>>,
) -> ServerStatusView {
    if indicates_running(host) {
        ServerStatusView {
            host,
            container: match listing {
                Some(listing) => container_of_listing(listing),
                None => ContainerStatusView::Unknown,
            },
            online: match roster {
                Some(roster) => online_of_roster(roster),
                None => OnlinePeopleView::Unknown,
            },
        }
    } else {
        idle_status(host)
    }
}

/// What every status that the poller builds satisfies: unless the host's
/// state says "running", the container is not up and the roster is unknown.
pub open spec fn is_consistent(status: ServerStatusView) -> bool {
    !indicates_running(status.host) ==> status.container == ContainerStatusView::NotUp
        && status.online == OnlinePeopleView::Unknown
}

/// The view of an optional text.
pub open spec fn text_view(text: Option<String>) -> Option<Seq<char>> {
    match text {
        Some(text) => Some(text@),
        None => None,
    }
}

/// What a cycle does once the cloud has answered.
#[derive(PartialEq, Debug)]
pub enum CyclePlan {
    /// The instance is not running: publish this status and leave the game
    /// host alone.
    Publish(ServerStatus),
    /// The instance, whose state name this is, is running: run the two
    /// commands on the game host, then build the status with
    /// [`compose_status`].
    QueryHost(String),
}

/// View of a [`CyclePlan`].
pub ghost enum CyclePlanView {
    Publish(ServerStatusView),
    QueryHost(Seq<char>),
}

impl View for CyclePlan {
    type V = CyclePlanView;

    open spec fn view(&self) -> CyclePlanView {
        match self {
            CyclePlan::Publish(status) => CyclePlanView::Publish(status@),
            CyclePlan::QueryHost(host) => CyclePlanView::QueryHost(host@),
        }
    }
}

/// The plan of a cycle for what the cloud answered.
pub open spec fn plan_of(described: Option<Seq<char>>) -> CyclePlanView {
    let host = host_of(described);
    if indicates_running(host) {
        CyclePlanView::QueryHost(host)
    } else {
        CyclePlanView::Publish(idle_status(host))
    }
}

/// Decides what a cycle does with the cloud's answer: `described` is the
/// instance's state name, or nothing where the query failed. The game host is
/// contacted only for an instance that is running.
pub fn plan_cycle(described: Option<String>) -> (plan: CyclePlan)
    ensures
        plan@ == plan_of(text_view(described)),
        plan@ matches CyclePlanView::Publish(status) ==> is_consistent(status),
{
    let host = match described {
        Some(name) => name,
        None => "failed to get instance state".to_owned(),
    };
    if is_running(host.as_str()) {
        CyclePlan::QueryHost(host)
    } else {
        CyclePlan::Publish(
            ServerStatus { host, container: ContainerStatus::NotUp, online: OnlinePeople::Unknown },
        )
    }
}

/// Builds the status of a cycle from the instance's state name and the
/// output of the two commands on the game host: `listing` is what the
/// listing of containers printed, `roster` what the roster query printed,
/// each absent where the command could not be run.
pub fn compose_status(host: String, listing: Option<String>, roster: Option<String>) -> (status:
    ServerStatus)
    ensures
        status@ == status_of(host@, text_view(listing), text_view(roster)),
        is_consistent(status@),
{
    if is_running(host.as_str()) {
        let container = match listing {
            Some(listing) => container_from_listing(listing.as_str()),
            None => ContainerStatus::Unknown,
        };
        let online = match roster {
            Some(roster) => online_from_roster(roster.as_str()),
            None => OnlinePeople::Unknown,
        };
        ServerStatus { host, container, online }
    } else {
        ServerStatus { host, container: ContainerStatus::NotUp, online: OnlinePeople::Unknown }
    }
}

/// The poller runs exactly while somebody watches: after an event that its
/// state waits for, it is polling if a connection is registered and idle if
/// none is.
pub proof fn lemma_poller_follows_demand(state: PollerState, event: PollerEvent, live: nat)
    requires
        (state == PollerState::Idle && event == PollerEvent::Wake) || (state
            == PollerState::Polling && event == PollerEvent::CycleDone),
    ensures
        poller_next(state, event, live).0 == PollerState::Polling <==> live > 0,
        poller_next(state, event, live).1 == PollerAction::Poll <==> live > 0,
        poller_next(state, event, live).1 == PollerAction::AwaitWake <==> live == 0,
{
}

/// With two sessions registered into an empty registry the poller, once
/// woken, keeps polling from cycle to cycle until both have unregistered:
/// with one of them gone it still polls, with both gone it goes idle.
pub proof fn lemma_poller_polls_until_all_left()
    ensures
        poller_next(
            PollerState::Idle,
            PollerEvent::Wake,
            count_after_register(count_after_register(0)),
        ).0 == PollerState::Polling,
        poller_next(
            PollerState::Polling,
            PollerEvent::CycleDone,
            count_after_register(count_after_register(0)),
        ).0 == PollerState::Polling,
        poller_next(
            PollerState::Polling,
            PollerEvent::CycleDone,
            count_after_unregister(count_after_register(count_after_register(0))),
        ).0 == PollerState::Polling,
        poller_next(
            PollerState::Polling,
            PollerEvent::CycleDone,
            count_after_unregister(
                count_after_unregister(count_after_register(count_after_register(0))),
            ),
        ).0 == PollerState::Idle,
{
}

/// Of any number of sessions that registered into an empty registry, the
/// poller keeps polling from cycle to cycle while one is left, and goes idle
/// at the first cycle that finds all of them gone.
pub proof fn lemma_poller_polls_while_sessions_are_left(sessions: nat, left: nat)
    requires
        left <= sessions,
    ensures
        poller_next(
            PollerState::Polling,
            PollerEvent::CycleDone,
            count_after_unregisters(count_after_registers(0, sessions), left),
        ).0 == if left < sessions {
            PollerState::Polling
        } else {
            PollerState::Idle
        },
{
    lemma_count_is_balance(sessions, left);
}

/// Every status that a cycle builds is consistent: the container and the
/// roster are looked at only for an instance that is running.
pub proof fn lemma_status_is_consistent(
    host: Seq<char>,
    listing: Option<Seq<char>>,
    roster: Option<Seq<char>>,
)
    ensures
        is_consistent(status_of(host, listing, roster)),
        plan_of(Some(host)) matches CyclePlanView::Publish(status) ==> is_consistent(status),
{
}

/// Where the first line of a listing holds "STATUS" at offset `left` and
/// "PORTS" at offset `right`, and the second line reaches as far as `right`,
/// the container is up and its status is what the second line holds from
/// `left` up to `right`.
pub proof fn lemma_status_cell(listing: Seq<char>, left: int, right: int)
    requires
        find(first_line(trimmed(listing)), "STATUS"@) == Some(left),
        find(first_line(trimmed(listing)), "PORTS"@) == Some(right),
        after_first_line(trimmed(listing)) is Some,
        left <= right <= first_line(after_first_line(trimmed(listing))->0).len(),
    ensures
        container_of_listing(listing) == ContainerStatusView::Up(
            first_line(after_first_line(trimmed(listing))->0).subrange(left, right),
        ),
{
}

/// A listing without a second line shows no container that is up.
pub proof fn lemma_no_second_line(listing: Seq<char>)
    requires
        after_first_line(trimmed(listing)) is None,
    ensures
        container_of_listing(listing) == ContainerStatusView::NotUp,
{
}

/// For an instance that is not running the plan is to publish the host's
/// state with a container that is not up and an unknown roster, and not to
/// contact the game host.
pub proof fn lemma_idle_instance_is_not_queried(host: Seq<char>)
    requires
        !indicates_running(host),
    ensures
        plan_of(Some(host)) == CyclePlanView::Publish(
            ServerStatusView {
                host,
                container: ContainerStatusView::NotUp,
                online: OnlinePeopleView::Unknown,
            },
        ),
{
}

/// The state "stopped" does not say "running": a stopped instance is
/// published as stopped, not up and unknown, and the game host is left
/// alone.
pub proof fn lemma_stopped_instance()
    ensures
        !indicates_running("stopped"@),
        plan_of(Some("stopped"@)) == CyclePlanView::Publish(
            ServerStatusView {
                host: "stopped"@,
                container: ContainerStatusView::NotUp,
                online: OnlinePeopleView::Unknown,
            },
        ),
{
    reveal_strlit("stopped");
    reveal_strlit("running");
    assert("stopped"@.subrange(0, 7)[0] != "running"@[0]);
    assert(find_from("stopped"@, "running"@, 1) is None);
}

} // verus!
