use vstd::prelude::*;

use crate::error::FetchError;
use crate::json::{find_member, json_of, lookup, parse_json, Json};
use crate::request::{request_url, RequestPlan, REQUEST_TIMEOUT_SECS};
use crate::status::{check_status, status_judged};

verus! {

/// The temperature that a JSON document of the shape
/// `{"current": {"temperature_2m": <number>, "time": <string>}}` holds, other
/// members ignored; otherwise why the document has not that shape.
pub open spec fn reading_of(doc: Json) -> Result<serde_json::Number, Seq<char>> {
    match doc {
        Json::Object(top) => match lookup(top@, "current"@) {
            None => Err("missing field `current`"@),
            Some(Json::Object(current)) => match lookup(current@, "temperature_2m"@) {
                None => Err("missing field `temperature_2m`"@),
                Some(Json::Number(n)) => match lookup(current@, "time"@) {
                    None => Err("missing field `time`"@),
                    Some(Json::Text(_)) => Ok(n),
                    Some(_) => Err("field `time` is not a string"@),
                },
                Some(_) => Err("field `temperature_2m` is not a number"@),
            },
            Some(_) => Err("field `current` is not an object"@),
        },
        _ => Err("the response is not a JSON object"@),
    }
}

/// `r` is what reading the temperature out of `body` gives: the number of
/// `reading_of` on what serde_json reads, or a `Parse` error with the reason.
pub open spec fn body_read(body: Seq<u8>, r: Result<serde_json::Number, FetchError>) -> bool {
    match json_of(body) {
        Err(m) => r matches Err(FetchError::Parse(t)) && t@ == m,
        Ok(doc) => match reading_of(doc) {
            Ok(n) => r == Ok::<serde_json::Number, FetchError>(n),
            Err(m) => r matches Err(FetchError::Parse(t)) && t@ == m,
        },
    }
}

fn parse_error(reason: &str) -> (r: Result<serde_json::Number, FetchError>)
    ensures
        r matches Err(FetchError::Parse(t)) && t@ == reason@,
{
    Err(FetchError::Parse(String::from_str(reason)))
}

/// Reads the temperature out of a response body of the shape
/// `{"current": {"temperature_2m": <number>, "time": <string>}}`; other members
/// are ignored, and where an object repeats a key the last one counts, as
/// serde_json's map keeps it. Every failure is a `Parse` error.
pub fn read_temperature(body: &[u8]) -> (r: Result<serde_json::Number, FetchError>)
    ensures
        body_read(body@, r),
{
    let doc = match parse_json(body) {
        Ok(doc) => doc,
        Err(m) => {
            return Err(FetchError::Parse(m));
        },
    };
    let ghost whole = doc;
    let mut top = match doc {
        Json::Object(fields) => fields,
        _ => {
            return parse_error("the response is not a JSON object");
        },
    };
    let ci = match find_member(&top, &String::from_str("current")) {
        Some(i) => i,
        None => {
            return parse_error("missing field `current`");
        },
    };
    let (_, current) = top.remove(ci);
    let mut fields = match current {
        Json::Object(fields) => fields,
        _ => {
            return parse_error("field `current` is not an object");
        },
    };
    let ti = match find_member(&fields, &String::from_str("temperature_2m")) {
        Some(i) => i,
        None => {
            return parse_error("missing field `temperature_2m`");
        },
    };
    match &fields[ti].1 {
        Json::Number(_) => {},
        _ => {
            return parse_error("field `temperature_2m` is not a number");
        },
    }
    match find_member(&fields, &String::from_str("time")) {
        Some(i) => match &fields[i].1 {
            Json::Text(_) => {},
            _ => {
                return parse_error("field `time` is not a string");
            },
        },
        None => {
            return parse_error("missing field `time`");
        },
    }
    let (_, temperature) = fields.remove(ti);
    match temperature {
        Json::Number(n) => Ok(n),
        _ => parse_error("field `temperature_2m` is not a number"),
    }
}

/// Judges the outcome of sending the request: a failure to get any response is
/// a `Transport` error with its message; a response is judged by its status.
/// `Ok` means the body is to be read.
pub fn on_response(sent: Result<u16, String>) -> (r: Result<(), FetchError>)
    ensures
        match sent {
            Err(m) => r matches Err(FetchError::Transport(t)) && t@ == m@,
            Ok(code) => status_judged(code, r),
        },
{
    match sent {
        Err(m) => Err(FetchError::Transport(m)),
        Ok(code) => check_status(code),
    }
}

/// Judges the outcome of reading the body of a successful response: a failure
/// to read it is a `Transport` error with its message; the bytes read go to
/// `read_temperature`.
pub fn on_body(read: Result<Vec<u8>, String>) -> (r: Result<serde_json::Number, FetchError>)
    ensures
        match read {
            Err(m) => r matches Err(FetchError::Transport(t)) && t@ == m@,
            Ok(body) => body_read(body@, r),
        },
{
    match read {
        Err(m) => Err(FetchError::Transport(m)),
        Ok(body) => read_temperature(body.as_slice()),
    }
}

/// A lookup keeps no state between calls: the same query against the same
/// endpoint is sent as the same request, the same status is judged the same
/// way, and the same body gives the same temperature or the same error.
pub proof fn lemma_lookup_repeatable(
    base: Seq<char>,
    latitude: Seq<char>,
    longitude: Seq<char>,
    first_plan: RequestPlan,
    second_plan: RequestPlan,
    code: u16,
    first: Result<(), FetchError>,
    second: Result<(), FetchError>,
    body: Seq<u8>,
    first_read: Result<serde_json::Number, FetchError>,
    second_read: Result<serde_json::Number, FetchError>,
)
    requires
        first_plan.url@ == request_url(base, latitude, longitude),
        first_plan.timeout_secs == REQUEST_TIMEOUT_SECS,
        second_plan.url@ == request_url(base, latitude, longitude),
        second_plan.timeout_secs == REQUEST_TIMEOUT_SECS,
        status_judged(code, first),
        status_judged(code, second),
        body_read(body, first_read),
        body_read(body, second_read),
    ensures
        first_plan.url@ == second_plan.url@,
        first_plan.timeout_secs == second_plan.timeout_secs,
        (first is Ok) == (second is Ok),
        first matches Err(e1) ==> (second matches Err(e2) && e1.same_as(&e2)),
        first_read matches Ok(n) ==> second_read == Ok::<serde_json::Number, FetchError>(n),
        first_read matches Err(e1) ==> (second_read matches Err(e2) && e1.same_as(&e2)),
{
}

} // verus!
