//! The connection supervisor: connect, serve the session until it ends,
//! wait, and connect again, for as long as the process runs.
use crate::text::join;
use crate::websocket::{ConnectionView, RpcConnection};
use vstd::prelude::*;

verus! {

/// The seconds to wait before the hub is tried again.
pub const RECONNECT_DELAY_SECS: u64 = 10;

/// How many spotted plates may wait for the notifier.
pub const QUEUE_CAPACITY: usize = 8;

/// Where the supervisor stands.
#[derive(Clone, Copy, Debug, PartialEq, Eq, Structural)]
pub enum LinkState {
    Disconnected,
    Connecting,
    Connected,
}

/// What the supervisor is told.
#[derive(Clone, Copy, Debug, PartialEq, Eq, Structural)]
pub enum LinkEvent {
    /// It is time to try the hub: at the start, and after each wait.
    RetryDue,
    /// The socket could not be opened or upgraded.
    ConnectFailed,
    /// The socket is open.
    ConnectSucceeded,
    /// The session is over: the socket was closed or failed, or the queue of
    /// spotted plates was closed.
    SessionEnded,
}

/// What the supervisor asks for.
pub enum LinkAction {
    /// Open a socket to the hub.
    Connect,
    /// Serve a session on the new socket with this connection.
    Serve(RpcConnection),
    /// Wait this many seconds, then report `RetryDue`.
    Wait(u64),
}

/// The state that follows `state` on `event`, or `None` where `event` cannot
/// occur in `state`.
pub open spec fn next_state(state: LinkState, event: LinkEvent) -> Option<LinkState> {
    match (state, event) {
        (LinkState::Disconnected, LinkEvent::RetryDue) => Some(LinkState::Connecting),
        (LinkState::Connecting, LinkEvent::ConnectFailed) => Some(LinkState::Disconnected),
        (LinkState::Connecting, LinkEvent::ConnectSucceeded) => Some(LinkState::Connected),
        (LinkState::Connected, LinkEvent::SessionEnded) => Some(LinkState::Disconnected),
        _ => None,
    }
}

/// Takes one step of the supervisor.
///
/// Entering `Connecting` asks for a socket. Entering `Connected` hands out a
/// connection that has issued no id and has no call pending. Entering
/// `Disconnected`, after a failed attempt or at the end of a session, asks
/// for the fixed wait. An event that cannot occur in `state` changes
/// nothing.
pub fn supervise(state: LinkState, event: LinkEvent) -> (r: Option<(LinkState, LinkAction)>)
    ensures
        match next_state(state, event) {
            None => r is None,
            Some(next) => {
                &&& r matches Some((entered, action))
                &&& entered == next
                &&& match next {
                    LinkState::Connecting => action is Connect,
                    LinkState::Connected => action matches LinkAction::Serve(conn) && conn@
                        == ConnectionView::fresh(),
                    LinkState::Disconnected => action matches LinkAction::Wait(secs) && secs
                        == RECONNECT_DELAY_SECS,
                }
            },
        },
{
    match (state, event) {
        (LinkState::Disconnected, LinkEvent::RetryDue) => Some(
            (LinkState::Connecting, LinkAction::Connect),
        ),
        (LinkState::Connecting, LinkEvent::ConnectFailed) => Some(
            (LinkState::Disconnected, LinkAction::Wait(RECONNECT_DELAY_SECS)),
        ),
        (LinkState::Connecting, LinkEvent::ConnectSucceeded) => Some(
            (LinkState::Connected, LinkAction::Serve(RpcConnection::new())),
        ),
        (LinkState::Connected, LinkEvent::SessionEnded) => Some(
            (LinkState::Disconnected, LinkAction::Wait(RECONNECT_DELAY_SECS)),
        ),
        _ => None,
    }
}

/// The supervisor never comes to rest: in every state there is an event
/// that moves it on. A session is entered from `Connecting` alone, and an
/// attempt is made from `Disconnected` alone.
pub proof fn law_supervisor_goes_on(state: LinkState)
    ensures
        exists|event: LinkEvent| #[trigger] next_state(state, event) is Some,
        forall|event: LinkEvent| #[trigger]
            next_state(state, event) == Some(LinkState::Connected) ==> state
                == LinkState::Connecting && event == LinkEvent::ConnectSucceeded,
        forall|event: LinkEvent| #[trigger]
            next_state(state, event) == Some(LinkState::Connecting) ==> state
                == LinkState::Disconnected && event == LinkEvent::RetryDue,
{
    match state {
        LinkState::Disconnected => {
            assert(next_state(state, LinkEvent::RetryDue) is Some);
        },
        LinkState::Connecting => {
            assert(next_state(state, LinkEvent::ConnectFailed) is Some);
        },
        LinkState::Connected => {
            assert(next_state(state, LinkEvent::SessionEnded) is Some);
        },
    }
}

#[verifier::external_type_specification]
#[verifier::external_body]
pub struct ExParseError(url::ParseError);

/// The address as `url::Url::parse` reads and writes it back; `None` where
/// it rejects the text.
pub uninterp spec fn parsed_url(text: Seq<char>) -> Option<Seq<char>>;

/// `url::Url::parse`, with the parsed address turned back into a `String`.
/// What it makes of a text depends on the text alone.
#[verifier::external_body]
fn url_from_text(text: &str) -> (r: Result<String, url::ParseError>)
    ensures
        match r {
            Ok(address) => parsed_url(text@) == Some(address@),
            Err(_) => parsed_url(text@) is None,
        },
{
    url::Url::parse(text).map(String::from)
}

/// The text of the hub's websocket address for `host`.
pub open spec fn websocket_address(host: Seq<char>) -> Seq<char> {
    "ws://"@ + host + "/api/websocket"@
}

/// Builds `websocket_address`.
pub fn build_websocket_address(host: &str) -> (text: String)
    ensures
        text@ == websocket_address(host@),
{
    let text = join("ws://", host);
    join(text.as_str(), "/api/websocket")
}

/// The address of the hub's websocket for `host`, or `None` where `host`
/// does not make an address.
pub fn websocket_url(host: &str) -> (r: Option<String>)
    ensures
        match r {
            Some(address) => parsed_url(websocket_address(host@)) == Some(address@),
            None => parsed_url(websocket_address(host@)) is None,
        },
{
    let text = build_websocket_address(host);
    match url_from_text(text.as_str()) {
        Ok(address) => Some(address),
        Err(_) => None,
    }
}

} // verus!
