use webrtc_signaling::auth::{Backend, ClientToken, Credentials, User};
use webrtc_signaling::web::{
    api, callback, callback_authenticated, delete_value, get_me, get_value, login, set_value,
    AuthzRequestQuery, CallbackStep, ErrorKind, HttpReply, Ise, Request, Response,
    State, CSRF_STATE_KEY,
};

fn alice() -> Option<User> {
    Some(User { user_id: 11 })
}

fn set(key: &str, value: &str) -> Option<Request> {
    Some(Request::SetValue(set_value::Request { key: key.to_string(), value: value.to_string() }))
}

fn get(key: &str) -> Option<Request> {
    Some(Request::GetValue(get_value::Request { key: key.to_string() }))
}

fn delete(key: &str) -> Option<Request> {
    Some(Request::DeleteValue(delete_value::Request { key: key.to_string() }))
}

fn value_of(reply: HttpReply) -> Option<String> {
    match reply {
        HttpReply::Json(Response::GetValue(get_value::Response { value })) => value,
        other => panic!("unexpected reply {:?}", other),
    }
}

#[test]
fn api_without_user_is_unauthorized_and_changes_nothing() {
    let mut st = State::new();
    let reply = api(None, set("offer", "sdp"), &mut st);
    assert_eq!(reply, HttpReply::Text { status: 401, body: "401".to_string() });
    assert_eq!(value_of(api(alice(), get("offer"), &mut st)), None);
}

#[test]
fn api_with_invalid_request_is_bad_request() {
    let mut st = State::new();
    let reply = api(alice(), None, &mut st);
    assert_eq!(reply, HttpReply::Text { status: 400, body: "invalid request".to_string() });
}

#[test]
fn api_get_me_names_the_caller() {
    let mut st = State::default();
    let reply = api(alice(), Some(Request::GetMe(get_me::Request {})), &mut st);
    assert_eq!(reply, HttpReply::Json(Response::GetMe(get_me::Response { user_id: 11 })));
}

#[test]
fn api_get_returns_last_set_value() {
    let mut st = State::new();
    assert_eq!(
        api(alice(), set("offer", "v=0"), &mut st),
        HttpReply::Json(Response::SetValue(set_value::Response {}))
    );
    assert_eq!(value_of(api(alice(), get("offer"), &mut st)), Some("v=0".to_string()));
    api(alice(), set("offer", "v=1"), &mut st);
    assert_eq!(value_of(api(alice(), get("offer"), &mut st)), Some("v=1".to_string()));
}

#[test]
fn api_store_is_shared_between_users() {
    let mut st = State::new();
    api(alice(), set("answer", "sdp-b"), &mut st);
    let bob = Some(User { user_id: 12 });
    assert_eq!(value_of(api(bob, get("answer"), &mut st)), Some("sdp-b".to_string()));
}

#[test]
fn api_delete_removes_only_its_key() {
    let mut st = State::new();
    api(alice(), set("a", "1"), &mut st);
    api(alice(), set("b", "2"), &mut st);
    assert_eq!(
        api(alice(), delete("a"), &mut st),
        HttpReply::Json(Response::DeleteValue(delete_value::Response {}))
    );
    assert_eq!(value_of(api(alice(), get("a"), &mut st)), None);
    assert_eq!(value_of(api(alice(), get("b"), &mut st)), Some("2".to_string()));
    api(alice(), delete("missing"), &mut st);
    assert_eq!(value_of(api(alice(), get("b"), &mut st)), Some("2".to_string()));
}

#[test]
fn error_kinds_are_distinct() {
    assert_ne!(ErrorKind::PermissionDenied, ErrorKind::InvalidRequest);
    assert_ne!(Response::Error(ErrorKind::InvalidRequest), Response::SetValue(set_value::Response {}));
}

#[test]
fn internal_error_answers_500_with_description() {
    let reply = Ise("boom".to_string()).into_response();
    assert_eq!(
        reply,
        HttpReply::Text { status: 500, body: "Something went wrong: boom".to_string() }
    );
}

#[test]
fn login_keeps_state_that_the_url_carries() {
    let backend = Backend::new(
        ClientToken { client_id: "cid".to_string(), client_secret: "cs".to_string() },
        "http://localhost:8080/oauth/callback".to_string(),
    );
    let redirect = login(&backend).unwrap();
    assert_eq!(redirect.session_key, CSRF_STATE_KEY);
    assert_eq!(redirect.session_key, "oauth.csrf-state");
    assert!(redirect.location.starts_with("https://github.com/login/oauth/authorize?"));
    assert!(redirect.location.contains(&format!("&state={}&", redirect.csrf_state)));
    assert!(redirect.location.contains("client_id=cid"));
}

#[test]
fn callback_without_session_state_is_expired() {
    let query = AuthzRequestQuery { code: "c".to_string(), state: "s".to_string() };
    match callback(None, query, None) {
        CallbackStep::Reply(reply) => assert_eq!(
            reply,
            HttpReply::Text { status: 400, body: "session expired".to_string() }
        ),
        _ => panic!("expected a reply"),
    }
}

#[test]
fn callback_hands_query_and_session_to_authentication() {
    let query = AuthzRequestQuery { code: "code-1".to_string(), state: "echoed".to_string() };
    match callback(Some("kept".to_string()), query, alice()) {
        CallbackStep::Authenticate(Credentials { code, old_state, new_state, user }) => {
            assert_eq!(code, "code-1");
            assert_eq!(old_state, "kept");
            assert_eq!(new_state, "echoed");
            assert_eq!(user, alice());
        }
        _ => panic!("expected authentication"),
    }
}

#[test]
fn login_state_echoed_by_callback_passes_csrf_check() {
    let backend = Backend::new(
        ClientToken { client_id: "cid".to_string(), client_secret: "cs".to_string() },
        "http://localhost:8080/oauth/callback".to_string(),
    );
    let redirect = login(&backend).unwrap();
    let query = AuthzRequestQuery { code: "c".to_string(), state: redirect.csrf_state.clone() };
    let creds = match callback(Some(redirect.csrf_state.clone()), query, None) {
        CallbackStep::Authenticate(creds) => creds,
        _ => panic!("expected authentication"),
    };
    assert!(backend.authentication_plan(&creds).is_some());
    let forged = AuthzRequestQuery { code: "c".to_string(), state: "forged".to_string() };
    let creds = match callback(Some(redirect.csrf_state), forged, None) {
        CallbackStep::Authenticate(creds) => creds,
        _ => panic!("expected authentication"),
    };
    assert!(backend.authentication_plan(&creds).is_none());
}

#[test]
fn callback_outcomes() {
    match callback_authenticated(None) {
        CallbackStep::Reply(reply) => assert_eq!(
            reply,
            HttpReply::Text { status: 401, body: "authentication failed".to_string() }
        ),
        _ => panic!("expected a reply"),
    }
    match callback_authenticated(alice()) {
        CallbackStep::Login { user, then } => {
            assert_eq!(Some(user), alice());
            assert_eq!(then, HttpReply::Redirect { location: "/".to_string() });
        }
        _ => panic!("expected login"),
    }
}

#[test]
fn request_type_strings_are_variant_tags() {
    assert_eq!(Request::GetMe(get_me::Request {}).to_request_type_string(), "GetMe");
    assert_eq!(set("k", "v").unwrap().to_request_type_string(), "SetValue");
    assert_eq!(get("k").unwrap().to_request_type_string(), "GetValue");
    assert_eq!(delete("k").unwrap().to_request_type_string(), "DeleteValue");
}

#[test]
fn response_type_strings_are_variant_tags() {
    assert_eq!(Response::GetMe(get_me::Response { user_id: 1 }).to_response_type_string(), "GetMe");
    assert_eq!(Response::SetValue(set_value::Response {}).to_response_type_string(), "SetValue");
    assert_eq!(
        Response::GetValue(get_value::Response { value: None }).to_response_type_string(),
        "GetValue"
    );
    assert_eq!(
        Response::DeleteValue(delete_value::Response {}).to_response_type_string(),
        "DeleteValue"
    );
    assert_eq!(Response::Error(ErrorKind::PermissionDenied).to_response_type_string(), "Error");
}
