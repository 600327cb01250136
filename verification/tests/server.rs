use clouds_viewer::call_messages;
use clouds_viewer::error::BindError;
use clouds_viewer::http_server::{
    auth_finished_ok_event, callback_error_response, callback_success_response, decide_callback,
    host_port_for_url, incoming_request_error_event, not_found_response, parse_query,
    ping_response, query_param, route_request, BindFlow, BindStep, CallbackDecision, Route,
};
use clouds_viewer::storage_models::AuthError;

#[test]
fn host_port_derivation() {
    assert_eq!(
        host_port_for_url("http://localhost:8080/cb").unwrap(),
        ("localhost".to_string(), 8080)
    );
    assert_eq!(
        host_port_for_url("http://127.0.0.1/cb").unwrap(),
        ("127.0.0.1".to_string(), 80)
    );
    match host_port_for_url("https://localhost/cb") {
        Err(BindError::InvalidUrl { url, text }) => {
            assert_eq!(url, "https://localhost/cb");
            assert_eq!(text, "https scheme not supported");
        }
        other => panic!("wrong result: {:?}", other),
    }
    assert!(matches!(
        host_port_for_url("%%%not a url%%%"),
        Err(BindError::InvalidUrlOnParse { .. })
    ));
}

#[test]
fn bind_fallback_takes_the_first_success() {
    let mut flow = BindFlow::new();
    let fail = BindError::Error { addr: "127.0.0.1:80".to_string(), text: "denied".to_string() };
    let step = flow.on_attempt("http://a/cb".to_string(), Err(fail));
    assert!(matches!(step, BindStep::TryNext));
    let step = flow.on_attempt("http://b:8080/cb".to_string(), Ok("127.0.0.1:8080".to_string()));
    match step {
        BindStep::Bound { redirect_url, addr } => {
            assert_eq!(redirect_url, "http://b:8080/cb");
            assert_eq!(addr, "127.0.0.1:8080");
        }
        BindStep::TryNext => panic!("should have bound"),
    }
    assert_eq!(flow.errors.len(), 1);
}

#[test]
fn bind_fallback_aggregates_every_failure() {
    let mut flow = BindFlow::new();
    let e1 = BindError::Error { addr: "a:1".to_string(), text: "one".to_string() };
    let e2 = BindError::CantGetHostPortFromUrl { url: "u".to_string(), text: "two".to_string() };
    assert!(matches!(flow.on_attempt("http://a/".to_string(), Err(e1)), BindStep::TryNext));
    assert!(matches!(flow.on_attempt("http://b/".to_string(), Err(e2)), BindStep::TryNext));
    match flow.into_failure() {
        AuthError::BindErrors { errors } => {
            assert_eq!(errors.len(), 2);
            assert_eq!(errors[0].text(), "can't bind to 'a:1': one");
            assert_eq!(errors[1].text(), "can't get host:port from url 'u': two");
        }
        other => panic!("wrong error: {:?}", other),
    }
}

#[test]
fn bind_errors_text_is_joined_with_commas() {
    let e1 = BindError::Error { addr: "a:1".to_string(), text: "one".to_string() };
    let e2 = BindError::Error { addr: "b:2".to_string(), text: "two".to_string() };
    let err = AuthError::BindErrors { errors: vec![e1, e2] };
    assert_eq!(
        err.text(),
        "bind errors: 'can't bind to 'a:1': one, can't bind to 'b:2': two'"
    );
}

#[test]
fn query_parsing_splits_pairs_and_last_key_wins() {
    let pairs = parse_query("code=abc&state=xyz");
    assert_eq!(pairs.len(), 2);
    assert_eq!(pairs[0], ("code".to_string(), "abc".to_string()));
    assert_eq!(pairs[1], ("state".to_string(), "xyz".to_string()));
    assert_eq!(query_param(&pairs, "state"), Some("xyz".to_string()));
    assert_eq!(query_param(&pairs, "missing"), None);

    let pairs = parse_query("a=1&a=2");
    assert_eq!(query_param(&pairs, "a"), Some("2".to_string()));

    let pairs = parse_query("flag&x=1");
    assert_eq!(pairs[0], ("flag".to_string(), String::new()));

    let pairs = parse_query("v=a=b");
    assert_eq!(pairs[0], ("v".to_string(), "a=b".to_string()));
}

#[test]
fn csrf_mismatch_is_rejected_and_never_exchanged() {
    let d = decide_callback(Some("code=abc&state=WRONG"), "expected");
    match d {
        CallbackDecision::Reject { reason } => {
            assert_eq!(reason, "unknown state field value: 'WRONG', waiting for state: 'expected'");
        }
        other => panic!("a CSRF mismatch must be rejected: {:?}", kind(&other)),
    }
}

#[test]
fn matching_state_with_code_goes_to_the_exchange() {
    let d = decide_callback(Some("code=abc&state=tok"), "tok");
    match d {
        CallbackDecision::Exchange { code } => assert_eq!(code, "abc"),
        other => panic!("wrong decision: {:?}", kind(&other)),
    }
}

#[test]
fn provider_errors_are_passed_on_when_the_state_matches() {
    let d = decide_callback(
        Some("error=access_denied&error_description=user%20said%20no&state=tok"),
        "tok",
    );
    match d {
        CallbackDecision::ProviderError { error, error_description } => {
            assert_eq!(error, "access_denied");
            assert_eq!(error_description, "user%20said%20no");
        }
        other => panic!("wrong decision: {:?}", kind(&other)),
    }
}

#[test]
fn requests_without_query_or_state_or_code_are_rejected() {
    assert!(matches!(decide_callback(None, "tok"), CallbackDecision::Reject { .. }));
    match decide_callback(Some("code=abc"), "tok") {
        CallbackDecision::Reject { reason } => assert_eq!(reason, "state field is empty"),
        other => panic!("wrong decision: {:?}", kind(&other)),
    }
    match decide_callback(Some("state=tok"), "tok") {
        CallbackDecision::Reject { reason } => {
            assert_eq!(reason, "can't extract code and state from url")
        }
        other => panic!("wrong decision: {:?}", kind(&other)),
    }
}

#[test]
fn routing_serves_ping_callback_and_nothing_else() {
    assert!(matches!(route_request("/ping", "/dropbox"), Route::Ping));
    assert!(matches!(route_request("/dropbox", "/dropbox"), Route::Callback));
    assert!(matches!(route_request("/other", "/dropbox"), Route::Unknown));
}

#[test]
fn response_plans() {
    let r = ping_response();
    assert_eq!(r.status, 200);
    assert_eq!(r.body, "ok");
    let r = not_found_response();
    assert_eq!(r.status, 404);
    assert_eq!(r.body, "");
    let r = callback_success_response();
    assert_eq!(r.status, 200);
    assert_eq!(r.body, "Ok. Successful.");
    assert_eq!(r.content_type.as_deref(), Some("text/plain"));
    let r = callback_error_response("bad".to_string());
    assert_eq!(r.status, 400);
    assert_eq!(r.body, "bad");
}

#[test]
fn callback_events() {
    let m = auth_finished_ok_event(9);
    assert_eq!(m.call_id, Some(9));
    assert!(matches!(
        m.data,
        call_messages::Data::Auth(call_messages::Auth::Finished { result: Ok(()) })
    ));
    let m = incoming_request_error_event(9, "/cb?x=1", "boom");
    match m.data {
        call_messages::Data::Auth(call_messages::Auth::Finished {
            result: Err(AuthError::IncomingRequestError { url, error }),
        }) => {
            assert_eq!(url, "/cb?x=1");
            assert_eq!(error, "boom");
        }
        other => panic!("wrong event: {:?}", other),
    }
}

fn kind(d: &CallbackDecision) -> &'static str {
    match d {
        CallbackDecision::Reject { .. } => "Reject",
        CallbackDecision::Exchange { .. } => "Exchange",
        CallbackDecision::ProviderError { .. } => "ProviderError",
    }
}
