use vstd::prelude::*;
use vstd::hash_map::HashMapWithView;

verus! {

/// GitHub's OAuth2 authorization endpoint.
pub const AUTH_URL: &'static str = "https://github.com/login/oauth/authorize";

/// GitHub's OAuth2 token endpoint.
pub const TOKEN_URL: &'static str = "https://github.com/login/oauth/access_token";

/// The GitHub API endpoint that describes the authenticated user.
pub const GITHUB_USER_URL: &'static str = "https://api.github.com/user";

/// The `User-Agent` sent with the user-info request.
pub const USER_AGENT: &'static str = "axum-login";

/// The scheme that prefixes the access token in the `Authorization` header.
pub const BEARER_PREFIX: &'static str = "Bearer ";

/// A signed-in user, identified by the GitHub account id.
#[derive(Clone, Copy, Debug, PartialEq, Eq, Structural)]
pub struct User {
    pub user_id: i64,
}

/// The eight bytes of `x` in little-endian order.
pub open spec fn le_bytes(x: i64) -> Seq<u8> {
    Seq::new(8, |i: int| ((x as u64) >> ((8 * i) as u64)) as u8)
}

/// Calls `i64::to_ne_bytes`. Its documentation promises the bytes of the
/// integer in the machine's native order, which is little- or big-endian;
/// the contract says that the result is one of the two.
#[verifier::external_body]
fn i64_to_ne_bytes(x: i64) -> (bytes: Vec<u8>)
    ensures
        bytes@ == le_bytes(x) || bytes@ == le_bytes(x).reverse(),
{
    x.to_ne_bytes().to_vec()
}

impl User {
    /// The id under which sessions store this user.
    pub fn id(&self) -> (id: i64)
        ensures
            id == self.user_id,
    {
        self.user_id
    }

    /// The bytes that tie a session to this user: the user id in the
    /// machine's native byte order.
    pub fn session_auth_hash(&self) -> (hash: Vec<u8>)
        ensures
            hash@ == le_bytes(self.user_id) || hash@ == le_bytes(self.user_id).reverse(),
    {
        i64_to_ne_bytes(self.user_id)
    }
}

/// The OAuth2 application's credentials at GitHub.
#[derive(Clone, Debug)]
pub struct ClientToken {
    pub client_id: String,
    pub client_secret: String,
}

/// What a sign-in attempt brings: the authorization code from GitHub, the
/// CSRF state kept in the session at login, the state echoed back by GitHub,
/// and the user already signed in on this session, if any.
#[derive(Clone, Debug)]
pub struct Credentials {
    pub code: String,
    pub old_state: String,
    pub new_state: String,
    pub user: Option<User>,
}

/// An error met while talking to GitHub during sign-in.
#[derive(Clone, Debug)]
pub struct BackendError(pub String);

/// The token request to send to GitHub for an authorization code.
#[derive(Clone, Debug)]
pub struct TokenExchange {
    pub auth_url: String,
    pub token_url: String,
    pub client_id: String,
    pub client_secret: String,
    pub redirect_url: String,
    pub code: String,
}

/// The request that asks GitHub who owns an access token.
#[derive(Clone, Debug)]
pub struct UserInfoRequest {
    pub url: String,
    pub authorization: String,
    pub user_agent: String,
}

/// What GitHub says about the authenticated user.
#[derive(Clone, Debug)]
pub struct GithubUserInfo {
    pub login: String,
    pub id: i64,
}

/// The characters of base64's URL-safe alphabet.
pub open spec fn is_base64_url_char(c: char) -> bool {
    ||| ('A' <= c && c <= 'Z')
    ||| ('a' <= c && c <= 'z')
    ||| ('0' <= c && c <= '9')
    ||| c == '-'
    ||| c == '_'
}

/// The shape of a fresh CSRF state: sixteen random bytes in unpadded
/// URL-safe base64, that is 22 characters of that alphabet.
pub open spec fn is_csrf_token(s: Seq<char>) -> bool {
    &&& s.len() == 22
    &&& forall|i: int| 0 <= i < s.len() ==> is_base64_url_char(#[trigger] s[i])
}

/// The authorization URL that the `oauth2` crate builds for an endpoint, a
/// client id, a redirect URL and a CSRF state; `None` where the endpoint or
/// the redirect URL is not a URL.
pub uninterp spec fn oauth2_authorization_url(
    auth_url: Seq<char>,
    client_id: Seq<char>,
    redirect_url: Seq<char>,
    state: Seq<char>,
) -> Option<Seq<char>>;

/// Builds an `oauth2::basic::BasicClient` and calls its `authorize_url` with
/// `oauth2::CsrfToken::new_random`, then `url()`. The contract claims that
/// the URL is what `oauth2_authorization_url` names for the returned state,
/// that the state has the shape `new_random` gives it (16 random bytes in
/// unpadded URL-safe base64), and that `None` comes only where the endpoint
/// or the redirect URL fails to parse, whatever the state. Which state comes
/// back is chance.
#[verifier::external_body]
fn oauth2_authorize_url(auth_url: &str, client_id: &str, redirect_url: &str) -> (res: Option<
    (String, String),
>)
    ensures
        match res {
            Some((url, state)) => {
                &&& oauth2_authorization_url(auth_url@, client_id@, redirect_url@, state@)
                    == Some(url@)
                &&& is_csrf_token(state@)
            },
            None => forall|s: Seq<char>|
                #[trigger] oauth2_authorization_url(auth_url@, client_id@, redirect_url@, s)
                    is None,
        },
{
    let auth_url = oauth2::AuthUrl::new(auth_url.to_string()).ok()?;
    let redirect_url = oauth2::RedirectUrl::new(redirect_url.to_string()).ok()?;
    let client = oauth2::basic::BasicClient::new(oauth2::ClientId::new(client_id.to_string()))
        .set_auth_uri(auth_url).set_redirect_uri(redirect_url);
    let (url, state) = client.authorize_url(oauth2::CsrfToken::new_random).url();
    Some((url.to_string(), state.secret().clone()))
}

/// The registry after a successful sign-in, and the user signed in: a user
/// already signed in on the session stays who they are and the registry is
/// left alone; otherwise the GitHub account is recorded (its login replacing
/// any earlier one) and becomes the user.
pub open spec fn signed_in(
    users: Map<i64, String>,
    existing: Option<User>,
    info: GithubUserInfo,
) -> (Map<i64, String>, User) {
    match existing {
        Some(user) => (users, user),
        None => (users.insert(info.id, info.login), User { user_id: info.id }),
    }
}

/// The user that a session's user id resolves to.
pub open spec fn lookup(users: Map<i64, String>, user_id: i64) -> Option<User> {
    if users.contains_key(user_id) {
        Some(User { user_id })
    } else {
        None
    }
}

/// Whether a token request is owed for these credentials: only when the
/// state GitHub echoed back is the one kept in the session.
pub open spec fn csrf_state_matches(creds: Credentials) -> bool {
    creds.old_state@ == creds.new_state@
}

/// The OAuth2 application and the registry of users who signed up.
pub struct Backend {
    db: HashMapWithView<i64, String>,
    github_client_id: String,
    github_client_secret: String,
    redirect_url: String,
}

impl Backend {
    /// The registry of signed-up users: GitHub id to GitHub login.
    pub closed spec fn users(&self) -> Map<i64, String> {
        self.db@
    }

    /// The OAuth2 application's client id.
    pub closed spec fn client_id(&self) -> Seq<char> {
        self.github_client_id@
    }

    /// The OAuth2 application's client secret.
    pub closed spec fn client_secret(&self) -> Seq<char> {
        self.github_client_secret@
    }

    /// Where GitHub sends the browser back after sign-in.
    pub closed spec fn redirect_url(&self) -> Seq<char> {
        self.redirect_url@
    }

    /// A backend for the given application, with nobody signed up yet.
    pub fn new(client_token: ClientToken, redirect_url: String) -> (backend: Backend)
        ensures
            backend.users() == Map::<i64, String>::empty(),
            backend.client_id() == client_token.client_id@,
            backend.client_secret() == client_token.client_secret@,
            backend.redirect_url() == redirect_url@,
    {
        broadcast use vstd::std_specs::hash::group_hash_axioms;

        let db = HashMapWithView::new();
        let github_client_id = client_token.client_id;
        let github_client_secret = client_token.client_secret;
        Backend { db, github_client_id, github_client_secret, redirect_url }
    }

    /// The URL that sends a browser to GitHub to sign in, with the fresh CSRF
    /// state that it carries; `None` where `oauth2` rejects the endpoint or
    /// the redirect URL.
    pub fn authorize_url(&self) -> (res: Option<(String, String)>)
        ensures
            match res {
                Some((url, state)) => {
                    &&& oauth2_authorization_url(
                        AUTH_URL@,
                        self.client_id(),
                        self.redirect_url(),
                        state@,
                    ) == Some(url@)
                    &&& is_csrf_token(state@)
                },
                None => forall|s: Seq<char>|
                    #[trigger] oauth2_authorization_url(
                        AUTH_URL@,
                        self.client_id(),
                        self.redirect_url(),
                        s,
                    ) is None,
            },
    {
        oauth2_authorize_url(AUTH_URL, self.github_client_id.as_str(), self.redirect_url.as_str())
    }

    /// The first step of authentication: the token request to make for the
    /// authorization code, or `None` (sign-in refused, nothing sent) when the
    /// CSRF state echoed back differs from the one kept in the session.
    pub fn authentication_plan(&self, creds: &Credentials) -> (plan: Option<TokenExchange>)
        ensures
            !csrf_state_matches(*creds) ==> plan is None,
            csrf_state_matches(*creds) ==> (plan matches Some(p) && {
                &&& p.auth_url@ == AUTH_URL@
                &&& p.token_url@ == TOKEN_URL@
                &&& p.client_id@ == self.client_id()
                &&& p.client_secret@ == self.client_secret()
                &&& p.redirect_url@ == self.redirect_url()
                &&& p.code@ == creds.code@
            }),
    {
        if creds.old_state != creds.new_state {
            return None;
        }
        Some(
            TokenExchange {
                auth_url: String::from_str(AUTH_URL),
                token_url: String::from_str(TOKEN_URL),
                client_id: self.github_client_id.clone(),
                client_secret: self.github_client_secret.clone(),
                redirect_url: self.redirect_url.clone(),
                code: creds.code.clone(),
            },
        )
    }

    /// The last step of authentication, once GitHub has said who the token
    /// belongs to. Nobody is signed in, and the registry is left alone,
    /// unless the CSRF state echoed back is the one kept in the session;
    /// otherwise see `signed_in`.
    pub fn sign_in(&mut self, creds: &Credentials, info: GithubUserInfo) -> (res: Option<User>)
        ensures
            !csrf_state_matches(*creds) ==> res is None && final(self).users() == old(
                self,
            ).users(),
            csrf_state_matches(*creds) ==> (res matches Some(user) && (final(self).users(), user)
                == signed_in(old(self).users(), creds.user, info)),
            final(self).client_id() == old(self).client_id(),
            final(self).client_secret() == old(self).client_secret(),
            final(self).redirect_url() == old(self).redirect_url(),
    {
        if creds.old_state != creds.new_state {
            return None;
        }
        match creds.user {
            Some(user) => Some(user),
            None => {
                let user_id = info.id;
                self.db.insert(user_id, info.login);
                Some(User { user_id })
            },
        }
    }

    /// Looks a session's user id up in the registry; this never fails.
    pub fn get_user(&self, user_id: i64) -> (res: Result<Option<User>, BackendError>)
        ensures
            res == Ok::<Option<User>, BackendError>(lookup(self.users(), user_id)),
    {
        if self.db.contains_key(&user_id) {
            Ok(Some(User { user_id }))
        } else {
            Ok(None)
        }
    }
}

/// The session hash tells users apart: in either byte order, two user ids
/// with the same bytes are the same id.
pub proof fn lemma_session_hash_identifies_user(x: i64, y: i64)
    requires
        le_bytes(x) == le_bytes(y) || le_bytes(x).reverse() == le_bytes(y).reverse(),
    ensures
        x == y,
{
    if le_bytes(x).reverse() == le_bytes(y).reverse() {
        assert forall|i: int| 0 <= i < 8 implies le_bytes(x)[i] == le_bytes(y)[i] by {
            assert(le_bytes(x).reverse()[7 - i] == le_bytes(y).reverse()[7 - i]);
        }
    }
    let a = x as u64;
    let b = y as u64;
    assert(le_bytes(x)[0] == le_bytes(y)[0]);
    assert(le_bytes(x)[1] == le_bytes(y)[1]);
    assert(le_bytes(x)[2] == le_bytes(y)[2]);
    assert(le_bytes(x)[3] == le_bytes(y)[3]);
    assert(le_bytes(x)[4] == le_bytes(y)[4]);
    assert(le_bytes(x)[5] == le_bytes(y)[5]);
    assert(le_bytes(x)[6] == le_bytes(y)[6]);
    assert(le_bytes(x)[7] == le_bytes(y)[7]);
    assert(a == b) by (bit_vector)
        requires
            (a >> 0u64) as u8 == (b >> 0u64) as u8,
            (a >> 8u64) as u8 == (b >> 8u64) as u8,
            (a >> 16u64) as u8 == (b >> 16u64) as u8,
            (a >> 24u64) as u8 == (b >> 24u64) as u8,
            (a >> 32u64) as u8 == (b >> 32u64) as u8,
            (a >> 40u64) as u8 == (b >> 40u64) as u8,
            (a >> 48u64) as u8 == (b >> 48u64) as u8,
            (a >> 56u64) as u8 == (b >> 56u64) as u8,
    ;
    assert(x == y) by (bit_vector)
        requires
            x as u64 == y as u64,
    ;
}

/// A user who signs up through GitHub is found in the registry afterwards,
/// under the GitHub id, with the GitHub login.
pub proof fn lemma_signed_up_user_is_found(users: Map<i64, String>, info: GithubUserInfo)
    ensures
        ({
            let (after, user) = signed_in(users, None, info);
            &&& user.user_id == info.id
            &&& lookup(after, user.user_id) == Some(user)
            &&& after[info.id] == info.login
        }),
{
}

/// Signing in again on a session that already has a user keeps that user
/// and leaves the registry as it was, whichever GitHub account answered.
pub proof fn lemma_session_user_kept(users: Map<i64, String>, user: User, info: GithubUserInfo)
    ensures
        signed_in(users, Some(user), info) == (users, user),
{
}

/// A sign-up changes no other entry of the registry.
pub proof fn lemma_sign_up_leaves_others(
    users: Map<i64, String>,
    info: GithubUserInfo,
    other: i64,
)
    requires
        other != info.id,
    ensures
        lookup(signed_in(users, None, info).0, other) == lookup(users, other),
{
}

/// A session's user id resolves to a user with that id, or to nobody.
pub proof fn lemma_lookup_keeps_id(users: Map<i64, String>, user_id: i64)
    ensures
        lookup(users, user_id) matches Some(u) ==> u.user_id == user_id,
        lookup(users, user_id) is None <==> !users.contains_key(user_id),
{
}

/// The request that asks GitHub who owns `access_token`.
pub fn user_info_request(access_token: &str) -> (req: UserInfoRequest)
    ensures
        req.url@ == GITHUB_USER_URL@,
        req.authorization@ == BEARER_PREFIX@ + access_token@,
        req.user_agent@ == USER_AGENT@,
{
    let mut authorization = String::from_str(BEARER_PREFIX);
    authorization.append(access_token);
    UserInfoRequest {
        url: String::from_str(GITHUB_USER_URL),
        authorization,
        user_agent: String::from_str(USER_AGENT),
    }
}

} // verus!
