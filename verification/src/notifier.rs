//! The plate notifier: what is sent to the hub for a spotted plate, and in
//! what order.
//!
//! The notifier asks the storage gateway for the plate's name, sends a
//! notification call and a logbook call over the socket, and reports the
//! sighting to the hub's REST API. Each of these is carried out by the
//! caller; `handle_plate` says, from what has been done so far, what comes
//! next.
use crate::error::BridgeError;
use crate::json::{items_view, members_view, render, rendered_text, Json, JsonView, Member};
use crate::text::{as_text, join, opt_string, opt_text};
use crate::types::SpottedPlate;
use crate::websocket::{Completion, ConnectionView, RpcConnection};
use vstd::prelude::*;

verus! {

/// The host of the hub where none is configured.
pub const DEFAULT_HOST: &'static str = "localhost:8123";

/// The notification service where no device is configured.
pub const DEFAULT_DEVICE: &'static str = "ALL_DEVICES";

/// What the environment configures.
#[derive(Debug, PartialEq, Eq)]
pub struct Settings {
    /// Host and port of the hub.
    pub host: String,
    /// The credential for the hub; the handshake and the REST call need it.
    pub access_token: Option<String>,
    /// The notification service that plate notifications go to.
    pub notify_device: String,
}

impl Settings {
    /// The settings for the given values of the environment, with the
    /// defaults for a host or a device that is not set.
    pub fn new(
        host: Option<String>,
        access_token: Option<String>,
        notify_device: Option<String>,
    ) -> (settings: Settings)
        ensures
            settings.host@ == (match host {
                Some(h) => h@,
                None => DEFAULT_HOST@,
            }),
            opt_string(settings.access_token) == opt_string(access_token),
            settings.notify_device@ == (match notify_device {
                Some(d) => d@,
                None => DEFAULT_DEVICE@,
            }),
    {
        Settings {
            host: match host {
                Some(h) => h,
                None => DEFAULT_HOST.to_owned(),
            },
            access_token,
            notify_device: match notify_device {
                Some(d) => d,
                None => DEFAULT_DEVICE.to_owned(),
            },
        }
    }
}

/// The text of a plate notification: the name where the plate has one, else
/// the plate id.
pub open spec fn notification_message(plate: Seq<char>, name: Option<Seq<char>>) -> Seq<char> {
    match name {
        Some(n) => "Spotted plate for "@ + n,
        None => "Spotted plate "@ + plate,
    }
}

/// The control that lets the user answer a notification with a name.
pub open spec fn reply_action() -> JsonView {
    JsonView::Object(
        seq![
            ("action"@, JsonView::Str("REPLY"@)),
            ("title"@, JsonView::Str("Save Name..."@)),
            ("textInputButtonTitle"@, JsonView::Str("Save"@)),
            ("textInputPlaceholder"@, JsonView::Str("e.g. 'John' or 'Trash Pickup'"@)),
        ],
    )
}

/// What makes a notification for a plate without a name one that can be
/// answered: the reply control, and the plate id as the data that comes back
/// with the answer.
pub open spec fn reply_members(plate: Seq<char>) -> Seq<(Seq<char>, JsonView)> {
    seq![
        ("actions"@, JsonView::Array(seq![reply_action()])),
        ("action_data"@, JsonView::Object(seq![("plate"@, JsonView::Str(plate))])),
    ]
}

/// The `data` of a plate notification: the reply control where the plate has
/// no name, and the picture where there is one.
pub open spec fn notification_data(
    plate: Seq<char>,
    name: Option<Seq<char>>,
    image_url: Option<Seq<char>>,
) -> JsonView {
    JsonView::Object(
        (if name is None {
            reply_members(plate)
        } else {
            Seq::empty()
        }) + (match image_url {
            Some(url) => seq![
                ("attachment"@, JsonView::Object(seq![("url"@, JsonView::Str(url))])),
            ],
            None => Seq::empty(),
        }),
    )
}

/// The call that notifies `device` of a spotted plate.
pub open spec fn notify_frame(
    id: u64,
    device: Seq<char>,
    plate: Seq<char>,
    name: Option<Seq<char>>,
    image_url: Option<Seq<char>>,
) -> JsonView {
    JsonView::Object(
        seq![
            ("id"@, JsonView::Int(id as int)),
            ("type"@, JsonView::Str("call_service"@)),
            ("domain"@, JsonView::Str("notify"@)),
            ("service"@, JsonView::Str(device)),
            (
                "service_data"@,
                JsonView::Object(
                    seq![
                        ("message"@, JsonView::Str(notification_message(plate, name))),
                        ("data"@, notification_data(plate, name, image_url)),
                    ],
                ),
            ),
        ],
    )
}

/// The call that writes a spotted plate to the hub's logbook.
pub open spec fn logbook_frame(id: u64, plate: Seq<char>) -> JsonView {
    JsonView::Object(
        seq![
            ("id"@, JsonView::Int(id as int)),
            ("type"@, JsonView::Str("call_service"@)),
            ("domain"@, JsonView::Str("logbook"@)),
            ("service"@, JsonView::Str("log"@)),
            (
                "service_data"@,
                JsonView::Object(
                    seq![
                        ("name"@, JsonView::Str("License plate "@ + plate)),
                        ("message"@, JsonView::Str("was spotted"@)),
                        ("domain"@, JsonView::Str("camera"@)),
                    ],
                ),
            ),
        ],
    )
}

/// The body of the REST call that reports a spotted plate.
pub open spec fn report_body(plate: Seq<char>) -> JsonView {
    JsonView::Object(seq![("plate"@, JsonView::Str(plate))])
}

/// The address of the REST call that reports a spotted plate.
pub open spec fn report_url(host: Seq<char>) -> Seq<char> {
    "http://"@ + host + "/api/events/license_plate_spotted"@
}

/// Builds `reply_action`.
fn build_reply_action() -> (action: Json)
    ensures
        action@ == reply_action(),
{
    let mut members: Vec<Member> = Vec::new();
    members.push(Member::new("action", Json::text("REPLY")));
    members.push(Member::new("title", Json::text("Save Name...")));
    members.push(Member::new("textInputButtonTitle", Json::text("Save")));
    members.push(Member::new("textInputPlaceholder", Json::text("e.g. 'John' or 'Trash Pickup'")));
    assert(members_view(members) =~= reply_action()->Object_0);
    Json::Object(members)
}

/// An object with the one member `key: text`.
fn build_single(key: &str, text: &str) -> (doc: Json)
    ensures
        doc@ == JsonView::Object(seq![(key@, JsonView::Str(text@))]),
{
    let mut members: Vec<Member> = Vec::new();
    members.push(Member::new(key, Json::text(text)));
    assert(members_view(members) =~= seq![(key@, JsonView::Str(text@))]);
    Json::Object(members)
}

/// Builds `notification_data`.
fn build_notification_data(plate: &str, name: Option<&str>, image_url: Option<&str>) -> (data: Json)
    ensures
        data@ == notification_data(plate@, opt_text(name), opt_text(image_url)),
{
    let mut members: Vec<Member> = Vec::new();
    if name.is_none() {
        let mut actions: Vec<Json> = Vec::new();
        actions.push(build_reply_action());
        assert(items_view(actions) =~= seq![reply_action()]);
        members.push(Member::new("actions", Json::Array(actions)));
        members.push(Member::new("action_data", build_single("plate", plate)));
    }
    if let Some(url) = image_url {
        members.push(Member::new("attachment", build_single("url", url)));
    }
    assert(members_view(members) =~= notification_data(
        plate@,
        opt_text(name),
        opt_text(image_url),
    )->Object_0);
    Json::Object(members)
}

/// Builds `notify_frame`.
pub fn build_notify_frame(
    id: u64,
    device: &str,
    plate: &str,
    name: Option<&str>,
    image_url: Option<&str>,
) -> (frame: Json)
    ensures
        frame@ == notify_frame(
            id,
            device@,
            plate@,
            opt_text(name),
            opt_text(image_url),
        ),
{
    let message = match name {
        Some(n) => join("Spotted plate for ", n),
        None => join("Spotted plate ", plate),
    };
    let mut service_data: Vec<Member> = Vec::new();
    service_data.push(Member::new("message", Json::Str(message)));
    service_data.push(Member::new("data", build_notification_data(plate, name, image_url)));
    let service_data = Json::Object(service_data);
    let mut members: Vec<Member> = Vec::new();
    members.push(Member::new("id", Json::unsigned(id)));
    members.push(Member::new("type", Json::text("call_service")));
    members.push(Member::new("domain", Json::text("notify")));
    members.push(Member::new("service", Json::text(device)));
    members.push(Member::new("service_data", service_data));
    let ghost expected = notify_frame(
        id,
        device@,
        plate@,
        opt_text(name),
        opt_text(image_url),
    );
    assert(service_data@->Object_0 =~= expected->Object_0[4].1->Object_0);
    assert(members_view(members) =~= expected->Object_0);
    Json::Object(members)
}

/// Builds `logbook_frame`.
pub fn build_logbook_frame(id: u64, plate: &str) -> (frame: Json)
    ensures
        frame@ == logbook_frame(id, plate@),
{
    let mut service_data: Vec<Member> = Vec::new();
    service_data.push(Member::new("name", Json::Str(join("License plate ", plate))));
    service_data.push(Member::new("message", Json::text("was spotted")));
    service_data.push(Member::new("domain", Json::text("camera")));
    let service_data = Json::Object(service_data);
    let mut members: Vec<Member> = Vec::new();
    members.push(Member::new("id", Json::unsigned(id)));
    members.push(Member::new("type", Json::text("call_service")));
    members.push(Member::new("domain", Json::text("logbook")));
    members.push(Member::new("service", Json::text("log")));
    members.push(Member::new("service_data", service_data));
    let ghost expected = logbook_frame(id, plate@);
    assert(service_data@->Object_0 =~= expected->Object_0[4].1->Object_0);
    assert(members_view(members) =~= expected->Object_0);
    Json::Object(members)
}

/// A REST call to the hub, for the caller to make.
#[derive(Debug, PartialEq, Eq)]
pub struct RestCall {
    /// The address to `POST` to.
    pub url: String,
    /// The value of the `Authorization` header.
    pub authorization: String,
    /// The JSON text of the body.
    pub body: String,
}

/// How far the handling of a spotted plate has come.
#[derive(Debug, PartialEq, Eq)]
pub enum Progress {
    /// The plate was taken from the queue; nothing has been done yet.
    Spotted,
    /// The storage gateway has recorded the sighting and returned the name
    /// that the plate is known by, if any.
    Recorded { name: Option<String> },
    /// The notification call was written to the socket.
    Notified,
    /// The logbook call was written to the socket.
    Logged,
    /// The REST call was made.
    Reported,
    /// The step that was asked for last could not be carried out.
    Failed,
}

/// What is to be done next for a spotted plate. Where the step can fail,
/// `then` is the progress to go on with once it is done; a step that could
/// not be carried out is followed by `Progress::Failed`.
#[derive(Debug, PartialEq, Eq)]
pub enum Action {
    /// Record a sighting of this plate with the storage gateway, and go on
    /// with what `sighting_recorded` makes of its answer.
    RecordSighting(String),
    /// Write this text to the socket.
    Transmit { text: String, then: Progress },
    /// Make this REST call.
    Post { call: RestCall, then: Progress },
    /// The plate is done, with this result.
    Finish(Result<(), BridgeError>),
}

/// The picture of a spotted plate, as a mathematical value.
pub open spec fn image_of(plate: SpottedPlate) -> Option<Seq<char>> {
    opt_string(plate.image_url)
}

/// What comes next for a spotted plate, and what it does to the connection.
///
/// The steps follow one another: the sighting is recorded; the notification
/// call goes out under the next id; the logbook call goes out under the id
/// after that; the sighting is reported over REST, which needs the access
/// token. A step that failed ends the handling of the plate, and nothing
/// that was done before it is undone.
pub open spec fn plate_outcome(
    before: ConnectionView,
    plate: SpottedPlate,
    progress: Progress,
    settings: Settings,
    after: ConnectionView,
    action: Action,
) -> bool {
    match progress {
        Progress::Spotted => {
            &&& after == before
            &&& action matches Action::RecordSighting(id)
            &&& id@ == plate.plate@
        },
        Progress::Recorded { name } => {
            &&& after == before.issue(Some(Completion::Notification))
            &&& action matches Action::Transmit { text, then }
            &&& then == Progress::Notified
            &&& text@ == rendered_text(
                notify_frame(
                    before.next_id,
                    settings.notify_device@,
                    plate.plate@,
                    opt_string(name),
                    image_of(plate),
                ),
            )
        },
        Progress::Notified => {
            &&& after == before.issue(Some(Completion::Logbook))
            &&& action matches Action::Transmit { text, then }
            &&& then == Progress::Logged
            &&& text@ == rendered_text(logbook_frame(before.next_id, plate.plate@))
        },
        Progress::Logged => {
            &&& after == before
            &&& match settings.access_token {
                Some(token) => {
                    &&& action matches Action::Post { call, then }
                    &&& then == Progress::Reported
                    &&& call.url@ == report_url(settings.host@)
                    &&& call.authorization@ == "Bearer "@ + token@
                    &&& call.body@ == rendered_text(report_body(plate.plate@))
                },
                None => action == Action::Finish(Err(BridgeError::Config)),
            }
        },
        Progress::Reported => after == before && action == Action::Finish(Ok(())),
        Progress::Failed => after == before && action == Action::Finish(
            Err(BridgeError::Transport),
        ),
    }
}

/// What the storage gateway's answer means for a plate. A failure of the
/// gateway stops here: the plate is then handled as one without a name.
pub fn sighting_recorded(outcome: Result<Option<String>, BridgeError>) -> (progress: Progress)
    ensures
        progress matches Progress::Recorded { name } && opt_string(name) == (match outcome {
            Ok(known) => opt_string(known),
            Err(_) => None,
        }),
{
    match outcome {
        Ok(name) => Progress::Recorded { name },
        Err(_) => Progress::Recorded { name: None },
    }
}

/// Says what is to be done next for `spotted_plate`: see `plate_outcome`.
pub fn handle_plate(
    conn: &mut RpcConnection,
    spotted_plate: &SpottedPlate,
    progress: &Progress,
    settings: &Settings,
) -> (action: Action)
    ensures
        plate_outcome(old(conn)@, *spotted_plate, *progress, *settings, final(conn)@, action),
{
    match progress {
        Progress::Spotted => Action::RecordSighting(spotted_plate.plate.clone()),
        Progress::Recorded { name } => {
            let build = |id: u64| -> (made: (Json, Option<Completion>))
                ensures
                    made.0@ == notify_frame(
                        id,
                        settings.notify_device@,
                        spotted_plate.plate@,
                        opt_string(*name),
                        image_of(*spotted_plate),
                    ),
                    made.1 == Some(Completion::Notification),
                {
                    (
                        build_notify_frame(
                            id,
                            settings.notify_device.as_str(),
                            spotted_plate.plate.as_str(),
                            as_text(name),
                            as_text(&spotted_plate.image_url),
                        ),
                        Some(Completion::Notification),
                    )
                };
            Action::Transmit { text: conn.send(build), then: Progress::Notified }
        },
        Progress::Notified => {
            let build = |id: u64| -> (made: (Json, Option<Completion>))
                ensures
                    made.0@ == logbook_frame(id, spotted_plate.plate@),
                    made.1 == Some(Completion::Logbook),
                {
                    (
                        build_logbook_frame(id, spotted_plate.plate.as_str()),
                        Some(Completion::Logbook),
                    )
                };
            Action::Transmit { text: conn.send(build), then: Progress::Logged }
        },
        Progress::Logged => match &settings.access_token {
            Some(token) => {
                let url = join("http://", settings.host.as_str());
                let url = join(url.as_str(), "/api/events/license_plate_spotted");
                let body = render(&build_report_body(spotted_plate.plate.as_str()));
                let call = RestCall { url, authorization: join("Bearer ", token.as_str()), body };
                Action::Post { call, then: Progress::Reported }
            },
            None => Action::Finish(Err(BridgeError::Config)),
        },
        Progress::Reported => Action::Finish(Ok(())),
        Progress::Failed => Action::Finish(Err(BridgeError::Transport)),
    }
}

/// Builds `report_body`.
pub fn build_report_body(plate: &str) -> (body: Json)
    ensures
        body@ == report_body(plate@),
{
    build_single("plate", plate)
}

} // verus!
