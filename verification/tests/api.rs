use gesture_api::handlers::dispatch;
use gesture_api::handlers::gesture_command;
use gesture_api::handlers::healthcheck;
use gesture_api::handlers::not_found;
use gesture_api::handlers::start_gesture_recognition;
use gesture_api::handlers::Action;
use gesture_api::handlers::LogLevel;
use gesture_api::reply::HttpReply;

fn assert_cors(reply: &HttpReply) {
    assert!(reply.headers.len() >= 3);
    assert_eq!(reply.headers[0].0, "Access-Control-Allow-Origin");
    assert_eq!(reply.headers[0].1, "*");
    assert_eq!(reply.headers[1].0, "Access-Control-Allow-Methods");
    assert_eq!(reply.headers[1].1, "*");
    assert_eq!(reply.headers[2].0, "Access-Control-Allow-Headers");
    assert_eq!(reply.headers[2].1, "*");
}

#[test]
fn health_reply_is_exact() {
    let r = healthcheck();
    assert_eq!(r.status, 200);
    assert_eq!(r.body, "{\"message\":\"Everything is working fine\"}");
}

#[test]
fn health_reply_ignores_history() {
    let first = healthcheck();
    let _ = start_gesture_recognition(false);
    let _ = not_found();
    let again = healthcheck();
    assert_eq!(again.status, first.status);
    assert_eq!(again.body, first.body);
}

#[test]
fn not_found_reply_is_exact() {
    let r = not_found();
    assert_eq!(r.status, 404);
    assert_eq!(r.body, "{\"message\":\"Resource not found\"}");
}

#[test]
fn start_success_replies_and_logs_debug() {
    let (r, log) = start_gesture_recognition(true);
    assert_eq!(r.status, 200);
    assert_eq!(r.body, "{\"message\":\"Gesture Recognition Started\"}");
    assert_eq!(log.level, LogLevel::Debug);
    assert_eq!(log.message, "Gesture Recognition Started");
}

#[test]
fn start_failure_replies_same_and_logs_error() {
    let (ok_reply, _) = start_gesture_recognition(true);
    let (r, log) = start_gesture_recognition(false);
    assert_eq!(r.status, 200);
    assert_eq!(r.body, "{\"message\":\"Gesture Recognition Started\"}");
    assert_eq!(log.level, LogLevel::Error);
    assert_eq!(log.message, "Gesture Recognition Failed");
    assert_eq!(r.status, ok_reply.status);
    assert_eq!(r.body, ok_reply.body);
}

#[test]
fn every_reply_carries_cors_headers() {
    assert_cors(&healthcheck());
    assert_cors(&not_found());
    let (r, _) = start_gesture_recognition(true);
    assert_cors(&r);
    let (r, _) = start_gesture_recognition(false);
    assert_cors(&r);
}

#[test]
fn dispatch_health_route() {
    match dispatch("GET", "/health") {
        Action::Reply(r) => {
            assert_eq!(r.status, 200);
            assert_eq!(r.body, "{\"message\":\"Everything is working fine\"}");
            assert_cors(&r);
        }
        Action::RunGestureProcess => panic!("health must not run the process"),
    }
}

#[test]
fn dispatch_action_route_asks_for_the_process() {
    match dispatch("GET", "/start_gesture_recognition") {
        Action::RunGestureProcess => {}
        Action::Reply(_) => panic!("the action route must run the process"),
    }
}

#[test]
fn dispatch_unmatched_is_not_found() {
    let unmatched = [
        ("POST", "/health"),
        ("PUT", "/start_gesture_recognition"),
        ("GET", "/healthz"),
        ("GET", "/"),
        ("DELETE", "/health"),
        ("GET", ""),
        ("OPTIONS", "/health"),
    ];
    for (method, path) in unmatched {
        match dispatch(method, path) {
            Action::Reply(r) => {
                assert_eq!(r.status, 404, "{} {}", method, path);
                assert_eq!(r.body, "{\"message\":\"Resource not found\"}");
                assert_cors(&r);
            }
            Action::RunGestureProcess => panic!("unmatched route ran the process"),
        }
    }
}

#[test]
fn gesture_command_is_the_fixed_target() {
    let (program, args) = gesture_command();
    assert_eq!(program, "sudo");
    assert_eq!(args.len(), 2);
    assert_eq!(args[0], "python");
    assert_eq!(
        args[1],
        "~/Documents/Projects/Raspberry-Pi-Gesture-Controlled-Led-System/firmware/python/gesture_recognition/gesture_recognition.py"
    );
}
