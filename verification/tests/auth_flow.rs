use webrtc_signaling::auth::{
    user_info_request, Backend, ClientToken, Credentials, GithubUserInfo, User, AUTH_URL,
    TOKEN_URL,
};

fn backend() -> Backend {
    Backend::new(
        ClientToken { client_id: "client-123".to_string(), client_secret: "s3cret".to_string() },
        "https://webrtc.example.com/oauth/callback".to_string(),
    )
}

fn creds(old_state: &str, new_state: &str, user: Option<User>) -> Credentials {
    Credentials {
        code: "the-code".to_string(),
        old_state: old_state.to_string(),
        new_state: new_state.to_string(),
        user,
    }
}

#[test]
fn user_id_is_the_github_id() {
    let user = User { user_id: 583231 };
    assert_eq!(user.id(), 583231);
}

#[test]
fn session_auth_hash_is_native_order_bytes() {
    let user = User { user_id: 0x0102_0304_0506_0708 };
    let hash = user.session_auth_hash();
    assert_eq!(hash.len(), 8);
    assert_eq!(hash, 0x0102_0304_0506_0708i64.to_ne_bytes().to_vec());
    let le = 0x0102_0304_0506_0708i64.to_le_bytes().to_vec();
    let be = 0x0102_0304_0506_0708i64.to_be_bytes().to_vec();
    assert!(hash == le || hash == be);
}

#[test]
fn session_auth_hash_differs_between_users() {
    let a = User { user_id: 1 }.session_auth_hash();
    let b = User { user_id: 256 }.session_auth_hash();
    let c = User { user_id: -1 }.session_auth_hash();
    assert_ne!(a, b);
    assert_ne!(a, c);
    assert_eq!(c, vec![0xff; 8]);
}

#[test]
fn new_backend_knows_nobody() {
    let backend = backend();
    assert_eq!(backend.get_user(42).unwrap(), None);
}

#[test]
fn mismatched_csrf_state_is_refused_before_any_request() {
    let backend = backend();
    assert!(backend.authentication_plan(&creds("state-a", "state-b", None)).is_none());
    assert!(backend.authentication_plan(&creds("state-a", "", None)).is_none());
}

#[test]
fn matching_csrf_state_plans_the_token_exchange() {
    let backend = backend();
    let plan = backend.authentication_plan(&creds("state-a", "state-a", None)).unwrap();
    assert_eq!(plan.auth_url, AUTH_URL);
    assert_eq!(plan.token_url, TOKEN_URL);
    assert_eq!(plan.auth_url, "https://github.com/login/oauth/authorize");
    assert_eq!(plan.token_url, "https://github.com/login/oauth/access_token");
    assert_eq!(plan.client_id, "client-123");
    assert_eq!(plan.client_secret, "s3cret");
    assert_eq!(plan.redirect_url, "https://webrtc.example.com/oauth/callback");
    assert_eq!(plan.code, "the-code");
}

#[test]
fn user_info_request_carries_bearer_token() {
    let req = user_info_request("gho_abc");
    assert_eq!(req.url, "https://api.github.com/user");
    assert_eq!(req.authorization, "Bearer gho_abc");
    assert_eq!(req.user_agent, "axum-login");
}

#[test]
fn sign_up_registers_the_github_account() {
    let mut backend = backend();
    let user = backend.sign_in(
        &creds("st", "st", None),
        GithubUserInfo { login: "legokichi".to_string(), id: 1234 },
    );
    assert_eq!(user, Some(User { user_id: 1234 }));
    assert_eq!(backend.get_user(1234).unwrap(), Some(User { user_id: 1234 }));
    assert_eq!(backend.get_user(1235).unwrap(), None);
}

#[test]
fn signed_in_session_keeps_its_user() {
    let mut backend = backend();
    let user = backend.sign_in(
        &creds("st", "st", Some(User { user_id: 7 })),
        GithubUserInfo { login: "someone".to_string(), id: 99 },
    );
    assert_eq!(user, Some(User { user_id: 7 }));
    assert_eq!(backend.get_user(99).unwrap(), None);
}

#[test]
fn sign_in_with_mismatched_state_signs_nobody_in() {
    let mut backend = backend();
    let user = backend.sign_in(
        &creds("kept", "forged", None),
        GithubUserInfo { login: "mallory".to_string(), id: 666 },
    );
    assert_eq!(user, None);
    assert_eq!(backend.get_user(666).unwrap(), None);
    let user = backend.sign_in(
        &creds("kept", "forged", Some(User { user_id: 7 })),
        GithubUserInfo { login: "mallory".to_string(), id: 666 },
    );
    assert_eq!(user, None);
}

#[test]
fn authorize_url_carries_client_state_and_redirect() {
    let backend = backend();
    let (url, state) = backend.authorize_url().unwrap();
    assert_eq!(state.len(), 22);
    assert!(state.chars().all(|c| c.is_ascii_alphanumeric() || c == '-' || c == '_'));
    let expected = format!(
        "https://github.com/login/oauth/authorize?response_type=code&client_id=client-123&state={}&redirect_uri=https%3A%2F%2Fwebrtc.example.com%2Foauth%2Fcallback",
        state
    );
    assert_eq!(url, expected);
}

#[test]
fn authorize_url_states_are_fresh() {
    let backend = backend();
    let (_, first) = backend.authorize_url().unwrap();
    let (_, second) = backend.authorize_url().unwrap();
    assert_ne!(first, second);
}

#[test]
fn authorize_url_refuses_a_redirect_that_is_no_url() {
    let backend = Backend::new(
        ClientToken { client_id: "id".to_string(), client_secret: "secret".to_string() },
        "not a url".to_string(),
    );
    assert!(backend.authorize_url().is_none());
}
