use vstd::prelude::*;
use crate::reply::HttpReply;
use crate::reply::has_cors_headers;
use crate::reply::reply;
use crate::response::Response;
use crate::response::json_body;
use crate::routing::Route;
use crate::routing::route_of;
use crate::routing::spec_route;

verus! {

/// The message of the health-check reply.
pub open spec fn health_message() -> Seq<char> {
    "Everything is working fine"@
}

/// The message of the not-found reply.
pub open spec fn not_found_message() -> Seq<char> {
    "Resource not found"@
}

/// The message of the action reply, and of the log line on success.
pub open spec fn started_message() -> Seq<char> {
    "Gesture Recognition Started"@
}

/// The message of the log line when the external process failed.
pub open spec fn failed_message() -> Seq<char> {
    "Gesture Recognition Failed"@
}

/// The HTTP status each route answers with.
pub open spec fn route_status(r: Route) -> int {
    match r {
        Route::Health => 200,
        Route::StartGestureRecognition => 200,
        Route::NotFound => 404,
    }
}

/// The message each route answers with.
pub open spec fn route_message(r: Route) -> Seq<char> {
    match r {
        Route::Health => health_message(),
        Route::StartGestureRecognition => started_message(),
        Route::NotFound => not_found_message(),
    }
}

/// The reply a route owes: its status, the permissive cross-origin
/// headers, and the JSON body built from its message.
pub open spec fn reply_for_route(r: HttpReply, rt: Route) -> bool {
    &&& r.status == route_status(rt)
    &&& has_cors_headers(r.headers@)
    &&& r.body@ == json_body(route_message(rt))
}

/// The severity of a log line.
#[derive(Clone, Copy, PartialEq, Eq, Structural, Debug)]
pub enum LogLevel {
    Debug,
    Error,
}

/// A log line the caller is to emit: a severity and a message.
pub struct LogLine {
    pub level: LogLevel,
    pub message: String,
}

/// Health check: always status 200 with body
/// `{"message":"Everything is working fine"}`; no input consulted,
/// no side effect.
pub fn healthcheck() -> (r: HttpReply)
    ensures
        reply_for_route(r, Route::Health),
{
    let resp = Response { message: String::from_str("Everything is working fine") };
    reply(200, &resp)
}

/// Catch-all: always status 404 with body
/// `{"message":"Resource not found"}`.
pub fn not_found() -> (r: HttpReply)
    ensures
        reply_for_route(r, Route::NotFound),
{
    let resp = Response { message: String::from_str("Resource not found") };
    reply(404, &resp)
}

/// Decides the action endpoint's reply and log line from the external
/// process's outcome. The HTTP reply is status 200 with body
/// `{"message":"Gesture Recognition Started"}` in both outcomes; only
/// the log line reflects a failure.
pub fn start_gesture_recognition(process_succeeded: bool) -> (r: (HttpReply, LogLine))
    ensures
        reply_for_route(r.0, Route::StartGestureRecognition),
        process_succeeded ==> r.1.level == LogLevel::Debug && r.1.message@ == started_message(),
        !process_succeeded ==> r.1.level == LogLevel::Error && r.1.message@ == failed_message(),
{
    let log = if process_succeeded {
        LogLine {
            level: LogLevel::Debug,
            message: String::from_str("Gesture Recognition Started"),
        }
    } else {
        LogLine {
            level: LogLevel::Error,
            message: String::from_str("Gesture Recognition Failed"),
        }
    };
    let resp = Response { message: String::from_str("Gesture Recognition Started") };
    (reply(200, &resp), log)
}

/// What the caller must do next for a request: send a finished reply,
/// or run the gesture-recognition process and come back with its
/// outcome through `start_gesture_recognition`.
pub enum Action {
    Reply(HttpReply),
    RunGestureProcess,
}

/// Routes a request and produces the finished reply where no outside
/// work is needed; the action route alone asks the caller to run the
/// external process first.
pub fn dispatch(method: &str, path: &str) -> (a: Action)
    ensures
        spec_route(method@, path@) is Health ==> (a matches Action::Reply(r)
            && reply_for_route(r, Route::Health)),
        spec_route(method@, path@) is NotFound ==> (a matches Action::Reply(r)
            && reply_for_route(r, Route::NotFound)),
        spec_route(method@, path@) is StartGestureRecognition ==> a is RunGestureProcess,
{
    match route_of(method, path) {
        Route::Health => Action::Reply(healthcheck()),
        Route::StartGestureRecognition => Action::RunGestureProcess,
        Route::NotFound => Action::Reply(not_found()),
    }
}

/// The fixed path of the gesture-recognition script.
pub open spec fn gesture_script_path() -> Seq<char> {
    "~/Documents/Projects/Raspberry-Pi-Gesture-Controlled-Led-System/firmware/python/gesture_recognition/gesture_recognition.py"@
}

/// The fixed invocation target of the action endpoint: the elevation
/// wrapper as the program, then the interpreter and the script path as
/// its two arguments.
pub fn gesture_command() -> (c: (String, Vec<String>))
    ensures
        c.0@ == "sudo"@,
        c.1@.len() == 2,
        c.1@[0]@ == "python"@,
        c.1@[1]@ == gesture_script_path(),
{
    let mut args: Vec<String> = Vec::new();
    args.push(String::from_str("python"));
    args.push(String::from_str(
        "~/Documents/Projects/Raspberry-Pi-Gesture-Controlled-Led-System/firmware/python/gesture_recognition/gesture_recognition.py",
    ));
    (String::from_str("sudo"), args)
}

/// Law: the router recognises exactly the two routes. A pair is sent to
/// `Health` or `StartGestureRecognition` if and only if it is
/// `GET /health` or `GET /start_gesture_recognition` respectively, and
/// to `NotFound` if and only if it is neither.
pub proof fn lemma_route_characterisation(method: Seq<char>, path: Seq<char>)
    ensures
        spec_route(method, path) is Health <==> (method == "GET"@ && path == "/health"@),
        spec_route(method, path) is StartGestureRecognition <==> (method == "GET"@
            && path == "/start_gesture_recognition"@),
        spec_route(method, path) is NotFound <==> (!(method == "GET"@ && path == "/health"@)
            && !(method == "GET"@ && path == "/start_gesture_recognition"@)),
{
    reveal_strlit("/health");
    reveal_strlit("/start_gesture_recognition");
    assert("/health"@.len() == 7);
    assert("/start_gesture_recognition"@.len() == 26);
    assert("/health"@ != "/start_gesture_recognition"@);
}

/// Law: every reply the library owes a route — whichever route, and for
/// the action route whichever way the external process went — carries
/// the permissive cross-origin headers.
pub proof fn lemma_every_reply_has_cors(r: HttpReply, rt: Route)
    requires
        reply_for_route(r, rt),
    ensures
        has_cors_headers(r.headers@),
{
}

/// Law: any method+path pair other than `GET /health` and
/// `GET /start_gesture_recognition` — a recognised path with the wrong
/// method included — routes to the not-found reply: status 404 with
/// body `{"message":"Resource not found"}`.
pub proof fn lemma_unmatched_is_not_found(method: Seq<char>, path: Seq<char>)
    requires
        !(method == "GET"@ && path == "/health"@),
        !(method == "GET"@ && path == "/start_gesture_recognition"@),
    ensures
        spec_route(method, path) == Route::NotFound,
        route_status(Route::NotFound) == 404,
        route_message(Route::NotFound) == "Resource not found"@,
{
}

/// Law: `GET /health` routes to the health reply — status 200 with body
/// `{"message":"Everything is working fine"}` — whatever requests came
/// before: routing and the handlers read no state.
pub proof fn lemma_health_is_ok(method: Seq<char>, path: Seq<char>)
    requires
        method == "GET"@,
        path == "/health"@,
    ensures
        spec_route(method, path) == Route::Health,
        route_status(Route::Health) == 200,
        route_message(Route::Health) == "Everything is working fine"@,
{
}

/// Law: the action endpoint's HTTP reply is the same in status and body
/// whether the external process succeeded or failed; only the log line
/// tells the outcomes apart.
pub proof fn lemma_action_reply_outcome_blind(a: HttpReply, b: HttpReply)
    requires
        reply_for_route(a, Route::StartGestureRecognition),
        reply_for_route(b, Route::StartGestureRecognition),
    ensures
        a.status == b.status,
        a.body@ == b.body@,
{
}

} // verus!
