//! The RPC connection to the hub: call ids, pending calls, the frames that
//! go out and what each frame that comes in leads to.
//!
//! Nothing here touches the socket. A function that has something to say to
//! the hub returns the text to write, and the caller writes it.
use crate::error::{BridgeError, ProtocolFault};
use crate::json::{
    child, child_of, members_view, parse, parsed_text, render, rendered_text, text_in, text_of,
    Json, JsonView, Member,
};
use crate::text::{opt_text, same_text};
use std::collections::HashMap;
use vstd::prelude::*;

verus! {

broadcast use vstd::std_specs::hash::group_hash_axioms;

/// What a call is waiting to report once the hub has answered it.
#[derive(Clone, Copy, Debug, PartialEq, Eq, Structural)]
pub enum Completion {
    /// The subscription to notification actions.
    Subscribe,
    /// A plate notification.
    Notification,
    /// A logbook entry for a plate.
    Logbook,
}

/// The state of one session with the hub: the id that the next call will
/// carry, and the calls that the hub has not answered yet.
pub struct RpcConnection {
    next_message_id: u64,
    callbacks: HashMap<u64, Completion>,
}

/// An `RpcConnection` as a mathematical value.
#[verifier::ext_equal]
pub struct ConnectionView {
    pub next_id: u64,
    pub pending: Map<u64, Completion>,
}

impl ConnectionView {
    /// The state in which every session starts.
    pub open spec fn fresh() -> ConnectionView {
        ConnectionView { next_id: 1, pending: Map::empty() }
    }

    /// The state after the next id has been issued, with `completion`
    /// registered under it where there is one. The counter wraps at the end
    /// of `u64`.
    pub open spec fn issue(self, completion: Option<Completion>) -> ConnectionView {
        ConnectionView {
            next_id: if self.next_id == u64::MAX {
                0
            } else {
                (self.next_id + 1) as u64
            },
            pending: match completion {
                Some(c) => self.pending.insert(self.next_id, c),
                None => self.pending,
            },
        }
    }

    /// The state after the call `id` has been answered.
    pub open spec fn settle(self, id: u64) -> ConnectionView {
        ConnectionView { next_id: self.next_id, pending: self.pending.remove(id) }
    }
}

impl View for RpcConnection {
    type V = ConnectionView;

    closed spec fn view(&self) -> ConnectionView {
        ConnectionView { next_id: self.next_message_id, pending: self.callbacks@ }
    }
}

/// The event type of a reply to a notification.
pub open spec fn notification_action() -> Seq<char> {
    "mobile_app_notification_action"@
}

/// The frame that answers `auth_required`. It carries no id.
pub open spec fn auth_frame(token: Seq<char>) -> JsonView {
    JsonView::Object(
        seq![("type"@, JsonView::Str("auth"@)), ("access_token"@, JsonView::Str(token))],
    )
}

/// The call that subscribes to replies to notifications.
pub open spec fn subscribe_frame(id: u64) -> JsonView {
    JsonView::Object(
        seq![
            ("id"@, JsonView::Int(id as int)),
            ("type"@, JsonView::Str("subscribe_events"@)),
            ("event_type"@, JsonView::Str(notification_action())),
        ],
    )
}

/// Builds `auth_frame`.
pub fn build_auth_frame(token: &str) -> (frame: Json)
    ensures
        frame@ == auth_frame(token@),
{
    let mut members: Vec<Member> = Vec::new();
    members.push(Member::new("type", Json::text("auth")));
    members.push(Member::new("access_token", Json::text(token)));
    assert(members_view(members) =~= auth_frame(token@)->Object_0);
    Json::Object(members)
}

/// Builds `subscribe_frame`.
pub fn build_subscribe_frame(id: u64) -> (frame: Json)
    ensures
        frame@ == subscribe_frame(id),
{
    let mut members: Vec<Member> = Vec::new();
    members.push(Member::new("id", Json::unsigned(id)));
    members.push(Member::new("type", Json::text("subscribe_events")));
    members.push(Member::new("event_type", Json::text("mobile_app_notification_action")));
    assert(members_view(members) =~= subscribe_frame(id)->Object_0);
    Json::Object(members)
}

impl RpcConnection {
    /// The connection of a new session: the first id is 1 and nothing is
    /// pending.
    pub fn new() -> (conn: RpcConnection)
        ensures
            conn@ == ConnectionView::fresh(),
    {
        RpcConnection { next_message_id: 1, callbacks: HashMap::new() }
    }

    /// The id that the next call will carry.
    pub fn next_id(&self) -> (id: u64)
        ensures
            id == self@.next_id,
    {
        self.next_message_id
    }

    /// What the pending call `id` is waiting to report, if `id` is pending.
    pub fn pending(&self, id: u64) -> (r: Option<Completion>)
        ensures
            r == (if self@.pending.contains_key(id) {
                Some(self@.pending[id])
            } else {
                None
            }),
    {
        match self.callbacks.get(&id) {
            Some(c) => Some(*c),
            None => None,
        }
    }

    /// How many calls are pending.
    pub fn pending_count(&self) -> (n: usize)
        ensures
            n == self@.pending.len(),
    {
        self.callbacks.len()
    }

    /// Issues the next id, has `build` make the frame for it, registers the
    /// completion that `build` returns, if any, under that id, and returns
    /// the frame as the text to write to the socket.
    ///
    /// The completion stays registered whether or not the write then
    /// succeeds.
    pub fn send<F: Fn(u64) -> (Json, Option<Completion>)>(&mut self, build: F) -> (text: String)
        requires
            call_requires(build, (old(self)@.next_id,)),
        ensures
            exists|frame: Json, completion: Option<Completion>|
                {
                    &&& #[trigger] call_ensures(build, (old(self)@.next_id,), (frame, completion))
                    &&& text@ == rendered_text(frame@)
                    &&& final(self)@ == old(self)@.issue(completion)
                },
    {
        let id = self.next_message_id;
        self.next_message_id = id.wrapping_add(1);
        let (frame, completion) = build(id);
        if let Some(c) = completion {
            self.callbacks.insert(id, c);
        }
        assert(self@ =~= old(self)@.issue(completion));
        render(&frame)
    }
}

/// A name that a user gave to a plate.
#[derive(Debug, PartialEq, Eq)]
pub struct NameUpdate {
    pub plate: String,
    pub name: String,
}

/// What the caller is to do about a frame that was handled.
#[derive(Debug, PartialEq, Eq)]
pub enum Reaction {
    /// Write this text to the socket.
    Send(String),
    /// A pending call was answered and is pending no longer.
    Completed { completion: Completion, success: bool, result: Option<Json> },
    /// A result for a call that is not pending: nothing to do.
    Ignored,
    /// Store the name for the plate.
    SetName(NameUpdate),
}

/// What a push event asks for: the plate and the name of a notification
/// reply, or the reason why the event is turned down. The event type is
/// looked at first, then the plate, then the reply.
pub open spec fn reply_of(doc: JsonView) -> Result<(Seq<char>, Seq<char>), BridgeError> {
    let event = doc.member("event"@);
    let data = child(event, "data"@);
    if text_of(child(event, "event_type"@)) != Some(notification_action()) {
        Err(BridgeError::UnexpectedEvent)
    } else {
        match text_of(child(child(data, "action_data"@), "plate"@)) {
            None => Err(BridgeError::Protocol(ProtocolFault::MissingPlate)),
            Some(plate) => match text_of(child(data, "reply_text"@)) {
                None => Err(BridgeError::Protocol(ProtocolFault::MissingReply)),
                Some(name) => Ok((plate, name)),
            },
        }
    }
}

/// Reads a push event: a reply to a notification yields the name to store
/// for its plate, anything else an error.
pub fn handle_event(value: &Json) -> (r: Result<NameUpdate, BridgeError>)
    ensures
        match r {
            Ok(update) => reply_of(value@) == Ok::<_, BridgeError>((update.plate@, update.name@)),
            Err(e) => reply_of(value@) == Err::<(Seq<char>, Seq<char>), _>(e),
        },
{
    let event = value.member("event");
    let is_reply = match text_in(child_of(event, "event_type")) {
        Some(kind) => same_text(kind, "mobile_app_notification_action"),
        None => false,
    };
    if !is_reply {
        return Err(BridgeError::UnexpectedEvent);
    }
    let data = child_of(event, "data");
    let plate = match text_in(child_of(child_of(data, "action_data"), "plate")) {
        Some(plate) => plate,
        None => {
            return Err(BridgeError::Protocol(ProtocolFault::MissingPlate));
        },
    };
    let name = match text_in(child_of(data, "reply_text")) {
        Some(name) => name,
        None => {
            return Err(BridgeError::Protocol(ProtocolFault::MissingReply));
        },
    };
    Ok(NameUpdate { plate: plate.to_owned(), name: name.to_owned() })
}

/// The `id` of a `result` frame.
pub open spec fn result_id(doc: JsonView) -> Option<u64> {
    match doc.member("id"@) {
        Some(v) => v.as_u64(),
        None => None,
    }
}

/// The `success` of a `result` frame.
pub open spec fn result_success(doc: JsonView) -> Option<bool> {
    match doc.member("success"@) {
        Some(v) => v.as_bool(),
        None => None,
    }
}

/// What a `result` frame leads to. A frame without `id` or without `success`
/// is an error and changes nothing; one for a pending call completes that
/// call, and that call alone; one for a call that is not pending is
/// ignored.
pub open spec fn result_outcome(
    before: ConnectionView,
    doc: JsonView,
    after: ConnectionView,
    r: Result<Reaction, BridgeError>,
) -> bool {
    match result_id(doc) {
        None => r == Err::<Reaction, _>(BridgeError::Protocol(ProtocolFault::MissingId)) && after
            == before,
        Some(id) => match result_success(doc) {
            None => r == Err::<Reaction, _>(BridgeError::Protocol(ProtocolFault::MissingSuccess))
                && after == before,
            Some(success) => if before.pending.contains_key(id) {
                &&& r matches Ok(Reaction::Completed { completion, success: reported, result })
                &&& completion == before.pending[id]
                &&& reported == success
                &&& opt_view(result) == doc.member("result"@)
                &&& after == before.settle(id)
            } else {
                r == Ok::<_, BridgeError>(Reaction::Ignored) && after == before
            },
        },
    }
}

/// The content of a document that may be absent.
pub open spec fn opt_view(doc: Option<Json>) -> Option<JsonView> {
    match doc {
        Some(v) => Some(v@),
        None => None,
    }
}

/// Handles a `result` frame: see `result_outcome`.
pub fn handle_result(conn: &mut RpcConnection, value: &Json) -> (r: Result<Reaction, BridgeError>)
    ensures
        result_outcome(old(conn)@, value@, final(conn)@, r),
{
    let id = match value.member("id") {
        Some(v) => v.as_u64(),
        None => None,
    };
    let id = match id {
        Some(id) => id,
        None => {
            return Err(BridgeError::Protocol(ProtocolFault::MissingId));
        },
    };
    let success = match value.member("success") {
        Some(v) => v.as_bool(),
        None => None,
    };
    let success = match success {
        Some(success) => success,
        None => {
            return Err(BridgeError::Protocol(ProtocolFault::MissingSuccess));
        },
    };
    match conn.callbacks.remove(&id) {
        Some(completion) => {
            let result = match value.member("result") {
                Some(v) => Some(v.clone()),
                None => None,
            };
            assert(conn@ =~= old(conn)@.settle(id));
            Ok(Reaction::Completed { completion, success, result })
        },
        None => {
            assert(conn@ =~= old(conn)@);
            Ok(Reaction::Ignored)
        },
    }
}

/// What a frame that was read as JSON leads to.
///
/// The frame has to be an object with a string member `type`.
/// `auth_required` is answered with the `auth` frame, which takes no id, or
/// fails where no access token is configured. `auth_ok` is answered with the
/// call that subscribes to notification replies, under the next id. A
/// `result` goes by `result_outcome`, an `event` by `reply_of`. Every error
/// leaves the connection as it was.
pub open spec fn frame_outcome(
    before: ConnectionView,
    doc: JsonView,
    access_token: Option<Seq<char>>,
    after: ConnectionView,
    r: Result<Reaction, BridgeError>,
) -> bool {
    if !(doc is Object) {
        r == Err::<Reaction, _>(BridgeError::Protocol(ProtocolFault::NotAnObject)) && after
            == before
    } else {
        match text_of(doc.member("type"@)) {
            None => r == Err::<Reaction, _>(BridgeError::Protocol(ProtocolFault::MissingType))
                && after == before,
            Some(kind) => if kind == "auth_required"@ {
                &&& after == before
                &&& match access_token {
                    Some(token) => r matches Ok(Reaction::Send(reply)) && reply@ == rendered_text(
                        auth_frame(token),
                    ),
                    None => r == Err::<Reaction, _>(BridgeError::Config),
                }
            } else if kind == "auth_ok"@ {
                &&& after == before.issue(Some(Completion::Subscribe))
                &&& r matches Ok(Reaction::Send(call))
                &&& call@ == rendered_text(subscribe_frame(before.next_id))
            } else if kind == "result"@ {
                result_outcome(before, doc, after, r)
            } else if kind == "event"@ {
                &&& after == before
                &&& match reply_of(doc) {
                    Ok((plate, name)) => r matches Ok(Reaction::SetName(update)) && update.plate@
                        == plate && update.name@ == name,
                    Err(e) => r == Err::<Reaction, _>(e),
                }
            } else {
                r == Err::<Reaction, _>(BridgeError::Protocol(ProtocolFault::UnknownType))
                    && after == before
            },
        }
    }
}

/// What the text of an inbound frame leads to: a text that is not JSON is a
/// protocol error, and any other goes by `frame_outcome`.
pub open spec fn message_outcome(
    before: ConnectionView,
    text: Seq<char>,
    access_token: Option<Seq<char>>,
    after: ConnectionView,
    r: Result<Reaction, BridgeError>,
) -> bool {
    match parsed_text(text) {
        None => r == Err::<Reaction, _>(BridgeError::Protocol(ProtocolFault::Malformed)) && after
            == before,
        Some(doc) => frame_outcome(before, doc, access_token, after, r),
    }
}

/// Handles an inbound frame that was read as JSON: see `frame_outcome`.
/// `access_token` is the configured credential, if there is one.
pub fn dispatch(conn: &mut RpcConnection, value: &Json, access_token: Option<&str>) -> (r: Result<
    Reaction,
    BridgeError,
>)
    ensures
        frame_outcome(old(conn)@, value@, opt_text(access_token), final(conn)@, r),
{
    match value {
        Json::Object(_) => {},
        _ => {
            return Err(BridgeError::Protocol(ProtocolFault::NotAnObject));
        },
    }
    let tp = match text_in(value.member("type")) {
        Some(tp) => tp,
        None => {
            return Err(BridgeError::Protocol(ProtocolFault::MissingType));
        },
    };
    if same_text(tp, "auth_required") {
        match access_token {
            Some(token) => Ok(Reaction::Send(render(&build_auth_frame(token)))),
            None => Err(BridgeError::Config),
        }
    } else if same_text(tp, "auth_ok") {
        let build = |id: u64| -> (made: (Json, Option<Completion>))
            ensures
                made.0@ == subscribe_frame(id),
                made.1 == Some(Completion::Subscribe),
            { (build_subscribe_frame(id), Some(Completion::Subscribe)) };
        Ok(Reaction::Send(conn.send(build)))
    } else if same_text(tp, "result") {
        handle_result(conn, value)
    } else if same_text(tp, "event") {
        match handle_event(value) {
            Ok(update) => Ok(Reaction::SetName(update)),
            Err(e) => Err(e),
        }
    } else {
        Err(BridgeError::Protocol(ProtocolFault::UnknownType))
    }
}

/// Handles the text of one inbound frame: see `message_outcome`.
/// `access_token` is the configured credential, if there is one.
pub fn handle_websocket_message(
    conn: &mut RpcConnection,
    s: &str,
    access_token: Option<&str>,
) -> (r: Result<Reaction, BridgeError>)
    ensures
        message_outcome(old(conn)@, s@, opt_text(access_token), final(conn)@, r),
{
    match parse(s) {
        Some(value) => dispatch(conn, &value, access_token),
        None => Err(BridgeError::Protocol(ProtocolFault::Malformed)),
    }
}

/// A frame as it comes off the socket.
#[derive(Debug, PartialEq, Eq)]
pub enum Frame {
    Text(String),
    /// The hub is closing the connection.
    Close,
    /// A binary frame, a ping or a pong.
    Other,
}

/// What became of an inbound frame.
#[derive(Debug, PartialEq, Eq)]
pub enum Handled {
    /// A text frame was handled, with this result. An error here is for the
    /// log; the session goes on.
    Message(Result<Reaction, BridgeError>),
    /// The hub closed the connection: the session's inbound side is over.
    Closed,
    /// The frame was none for the bridge.
    Skipped,
}

/// Handles one inbound frame. Only text frames reach the connection; a
/// close frame ends the reading, and any other frame is passed over.
pub fn process_websocket_message(
    conn: &mut RpcConnection,
    message: &Frame,
    access_token: Option<&str>,
) -> (handled: Handled)
    ensures
        match *message {
            Frame::Text(s) => handled matches Handled::Message(r) && message_outcome(
                old(conn)@,
                s@,
                opt_text(access_token),
                final(conn)@,
                r,
            ),
            Frame::Close => handled == Handled::Closed && final(conn)@ == old(conn)@,
            Frame::Other => handled == Handled::Skipped && final(conn)@ == old(conn)@,
        },
{
    match message {
        Frame::Text(s) => Handled::Message(
            handle_websocket_message(conn, s.as_str(), access_token),
        ),
        Frame::Close => Handled::Closed,
        Frame::Other => Handled::Skipped,
    }
}

/// The state of a session that has made the given calls, in their order,
/// each with the completion that it registered.
pub open spec fn after_calls(calls: Seq<Option<Completion>>) -> ConnectionView
    decreases calls.len(),
{
    if calls.len() == 0 {
        ConnectionView::fresh()
    } else {
        after_calls(calls.drop_last()).issue(calls.last())
    }
}

/// The ids of a session count up from 1: after `n` calls the next id is
/// `n + 1`, so the call before it had the id `n`, and no id is issued twice.
/// This holds until the counter has run through all of `u64`.
pub proof fn law_ids_count_up(calls: Seq<Option<Completion>>)
    requires
        calls.len() < u64::MAX,
    ensures
        after_calls(calls).next_id == calls.len() + 1,
        forall|id: u64| #[trigger]
            after_calls(calls).pending.contains_key(id) ==> 1 <= id <= calls.len(),
    decreases calls.len(),
{
    if calls.len() > 0 {
        law_ids_count_up(calls.drop_last());
    }
}

/// A `result` frame for a call that is not pending is ignored without
/// error, and changes nothing.
pub proof fn law_unknown_result_is_ignored(
    before: ConnectionView,
    doc: JsonView,
    after: ConnectionView,
    r: Result<Reaction, BridgeError>,
)
    requires
        result_outcome(before, doc, after, r),
        result_id(doc) matches Some(id) && !before.pending.contains_key(id),
        result_success(doc) is Some,
    ensures
        r == Ok::<_, BridgeError>(Reaction::Ignored),
        after == before,
{
}

/// A `result` frame without `id` or without `success` is a protocol error
/// and leaves every pending call as it was.
pub proof fn law_incomplete_result_is_refused(
    before: ConnectionView,
    doc: JsonView,
    after: ConnectionView,
    r: Result<Reaction, BridgeError>,
)
    requires
        result_outcome(before, doc, after, r),
        result_id(doc) is None || result_success(doc) is None,
    ensures
        r matches Err(BridgeError::Protocol(_)),
        after == before,
{
}

/// A completed call is no longer pending, and every other pending call
/// stays as it was.
pub proof fn law_result_settles_one_call(
    before: ConnectionView,
    doc: JsonView,
    after: ConnectionView,
    r: Result<Reaction, BridgeError>,
    other: u64,
)
    requires
        result_outcome(before, doc, after, r),
        r matches Ok(Reaction::Completed { .. }),
    ensures
        result_id(doc) matches Some(id) && before.pending.contains_key(id)
            && !after.pending.contains_key(id),
        result_id(doc) != Some(other) ==> (after.pending.contains_key(other)
            <==> before.pending.contains_key(other)),
        result_id(doc) != Some(other) && before.pending.contains_key(other) ==> after.pending[other]
            == before.pending[other],
        after.next_id == before.next_id,
{
}

/// A new session starts with the id 1 and completes no call of an earlier
/// session: whatever frame arrives first, no completion comes of it.
pub proof fn law_new_session_owes_nothing(
    text: Seq<char>,
    access_token: Option<Seq<char>>,
    after: ConnectionView,
    r: Result<Reaction, BridgeError>,
)
    requires
        message_outcome(ConnectionView::fresh(), text, access_token, after, r),
    ensures
        ConnectionView::fresh().next_id == 1,
        !(r matches Ok(Reaction::Completed { .. })),
{
}

} // verus!
