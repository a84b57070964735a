//! The payload of the recogniser's webhook: from its JSON to the spotted
//! plates that go into the queue.
use crate::json::{
    child, child_of, items_view, parse, parsed_text, text_in, text_of, Json, JsonView, Number,
};
use crate::text::{opt_string, opt_text};
use crate::types::SpottedPlate;
use vstd::prelude::*;

verus! {

/// Why a webhook payload yields no plate.
#[derive(Clone, Copy, Debug, PartialEq, Eq, Structural)]
pub enum WebhookError {
    /// The form has no `json` part.
    MissingJson,
    /// The `json` part is not JSON.
    Malformed,
    /// The payload has no array `data.results`.
    MissingResults,
    /// A result has no string `plate`.
    MissingPlate,
    /// A result has no number `score`.
    MissingScore,
    /// A result has no string `vehicle.type`.
    MissingVehicleType,
}

impl WebhookError {
    /// A short description for the log.
    pub fn message(&self) -> (text: &'static str)
        ensures
            text@ == self.message_text(),
    {
        match self {
            WebhookError::MissingJson => "Missing JSON data",
            WebhookError::Malformed => "Invalid JSON data",
            WebhookError::MissingResults => "Missing results in JSON",
            WebhookError::MissingPlate => "Missing plate field",
            WebhookError::MissingScore => "Missing score field",
            WebhookError::MissingVehicleType => "Missing vehicle type field",
        }
    }

    /// The description that `message` returns.
    pub open spec fn message_text(self) -> Seq<char> {
        match self {
            WebhookError::MissingJson => "Missing JSON data"@,
            WebhookError::Malformed => "Invalid JSON data"@,
            WebhookError::MissingResults => "Missing results in JSON"@,
            WebhookError::MissingPlate => "Missing plate field"@,
            WebhookError::MissingScore => "Missing score field"@,
            WebhookError::MissingVehicleType => "Missing vehicle type field"@,
        }
    }
}

/// An ASCII lower-case letter as its upper-case letter; any other character
/// as itself.
pub open spec fn upper_char(c: char) -> char {
    if 'a' as u32 <= c as u32 <= 'z' as u32 {
        ((c as u32) - 32) as char
    } else {
        c
    }
}

/// A text with its ASCII letters in upper case.
pub open spec fn upper(text: Seq<char>) -> Seq<char> {
    text.map_values(|c: char| upper_char(c))
}

/// `str::to_ascii_uppercase`: the letters `a` to `z` become `A` to `Z`, and
/// every other character stays.
#[verifier::external_body]
fn to_upper(text: &str) -> (r: String)
    ensures
        r@ == upper(text@),
{
    text.to_ascii_uppercase()
}

/// The payload that the `json` part of a form holds.
pub fn read_payload(part: Option<&str>) -> (r: Result<Json, WebhookError>)
    ensures
        match r {
            Ok(payload) => part matches Some(text) && parsed_text(text@) == Some(payload@),
            Err(e) => e == (match part {
                None => WebhookError::MissingJson,
                Some(_) => WebhookError::Malformed,
            }) && (part matches Some(text) ==> parsed_text(text@) is None),
        },
{
    match part {
        None => Err(WebhookError::MissingJson),
        Some(text) => match parse(text) {
            Some(payload) => Ok(payload),
            None => Err(WebhookError::Malformed),
        },
    }
}

/// The results that a payload lists under `data.results`.
pub open spec fn results_of(payload: JsonView) -> Option<Seq<JsonView>> {
    match child(payload.member("data"@), "results"@) {
        Some(v) => v.as_array(),
        None => None,
    }
}

/// The results of a payload, or `MissingResults` where `data.results` is no
/// array.
pub fn detections(payload: &Json) -> (r: Result<&Vec<Json>, WebhookError>)
    ensures
        match r {
            Ok(results) => results_of(payload@) == Some(items_view(*results)),
            Err(e) => e == WebhookError::MissingResults && results_of(payload@) is None,
        },
{
    let results = match child_of(payload.member("data"), "results") {
        Some(v) => v.as_array(),
        None => None,
    };
    match results {
        Some(results) => Ok(results),
        None => Err(WebhookError::MissingResults),
    }
}

/// The score of a result: its member `score`, where that is a number.
pub open spec fn score_of(result: JsonView) -> Option<JsonView> {
    match result.member("score"@) {
        Some(v) => if v.is_number() {
            Some(v)
        } else {
            None
        },
        None => None,
    }
}

/// What is wrong with a result, if anything: the plate is looked at first,
/// then the score, then the type of vehicle.
pub open spec fn result_fault(result: JsonView) -> Option<WebhookError> {
    if text_of(result.member("plate"@)) is None {
        Some(WebhookError::MissingPlate)
    } else if score_of(result) is None {
        Some(WebhookError::MissingScore)
    } else if text_of(child(result.member("vehicle"@), "type"@)) is None {
        Some(WebhookError::MissingVehicleType)
    } else {
        None
    }
}

/// Whether `plate` is what `result` reports, with `image_url` for its
/// picture: the plate id in upper case, the score and the type of vehicle
/// as they stand in the result.
pub open spec fn reports(
    result: JsonView,
    image_url: Option<Seq<char>>,
    plate: SpottedPlate,
) -> bool {
    &&& text_of(result.member("plate"@)) matches Some(id)
    &&& plate.plate@ == upper(id)
    &&& score_of(result) == Some(plate.score@)
    &&& text_of(child(result.member("vehicle"@), "type"@)) == Some(plate.vehicle_type@)
    &&& opt_string(plate.image_url) == image_url
}

/// The spotted plate that one result of a payload reports.
pub fn spotted_plate(result: &Json, image_url: Option<&str>) -> (r: Result<
    SpottedPlate,
    WebhookError,
>)
    ensures
        match r {
            Ok(plate) => result_fault(result@) is None && reports(
                result@,
                opt_text(image_url),
                plate,
            ),
            Err(e) => result_fault(result@) == Some(e),
        },
{
    let plate = match text_in(result.member("plate")) {
        Some(plate) => to_upper(plate),
        None => {
            return Err(WebhookError::MissingPlate);
        },
    };
    let score = match result.member("score") {
        Some(v) => v.as_number(),
        None => None,
    };
    let score = match score {
        Some(score) => score.clone(),
        None => {
            return Err(WebhookError::MissingScore);
        },
    };
    let vehicle_type = match text_in(child_of(result.member("vehicle"), "type")) {
        Some(kind) => kind.to_owned(),
        None => {
            return Err(WebhookError::MissingVehicleType);
        },
    };
    let image_url = match image_url {
        Some(url) => Some(url.to_owned()),
        None => None,
    };
    Ok(SpottedPlate { plate, score, vehicle_type, image_url })
}

/// Turns the results of a payload into spotted plates, in their order, up to
/// the first result that is wrong. Returns the plates, and the error that
/// stopped the reading if one did.
pub fn handle_plate(results: &Vec<Json>, image_url: Option<&str>) -> (r: (
    Vec<SpottedPlate>,
    Option<WebhookError>,
))
    ensures
        r.0.len() <= results.len(),
        forall|i: int|
            0 <= i < r.0.len() ==> result_fault(#[trigger] results[i]@) is None && reports(
                results[i]@,
                opt_text(image_url),
                r.0[i],
            ),
        match r.1 {
            Some(e) => r.0.len() < results.len() && result_fault(results[r.0.len() as int]@)
                == Some(e),
            None => r.0.len() == results.len(),
        },
{
    let mut plates: Vec<SpottedPlate> = Vec::new();
    let mut i: usize = 0;
    while i < results.len()
        invariant
            i <= results.len(),
            plates.len() == i,
            forall|k: int|
                0 <= k < i ==> result_fault(#[trigger] results[k]@) is None && reports(
                    results[k]@,
                    opt_text(image_url),
                    plates[k],
                ),
        decreases results.len() - i,
    {
        match spotted_plate(&results[i], image_url) {
            Ok(plate) => {
                plates.push(plate);
            },
            Err(e) => {
                return (plates, Some(e));
            },
        }
        i = i + 1;
    }
    (plates, None)
}

/// A text in upper case holds no ASCII lower-case letter, and putting it in
/// upper case again changes nothing: a plate id that arrives in any mix of
/// cases reaches the storage as one id.
pub proof fn law_upper_settles(text: Seq<char>)
    ensures
        upper(text).len() == text.len(),
        forall|i: int|
            0 <= i < text.len() ==> !('a' as u32 <= (#[trigger] upper(text)[i]) as u32 <= 'z' as u32),
        upper(upper(text)) == upper(text),
{
    assert forall|i: int| 0 <= i < text.len() implies upper(upper(text))[i] == upper(text)[i] by {
        let c = text[i];
        assert(upper_char(upper_char(c)) == upper_char(c));
    }
    assert(upper(upper(text)) =~= upper(text));
}

} // verus!
