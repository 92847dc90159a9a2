use vstd::prelude::*;
use vstd::hash_map::StringHashMap;
use crate::auth::{
    csrf_state_matches, is_csrf_token, oauth2_authorization_url, Backend, Credentials, User,
    AUTH_URL,
};

pub mod delete_value;
pub mod get_me;
pub mod get_value;
pub mod set_value;

verus! {

/// The session key under which login keeps the CSRF state.
pub const CSRF_STATE_KEY: &'static str = "oauth.csrf-state";

/// Where a browser goes once signed in or out.
pub const HOME: &'static str = "/";

/// HTTP 400.
pub const STATUS_BAD_REQUEST: u16 = 400;

/// HTTP 401.
pub const STATUS_UNAUTHORIZED: u16 = 401;

/// HTTP 500.
pub const STATUS_INTERNAL_SERVER_ERROR: u16 = 500;

/// The body that introduces an internal error's description.
pub const INTERNAL_ERROR_PREFIX: &'static str = "Something went wrong: ";

/// A call of the key-value API, told apart by its `type` field.
#[derive(Clone, Debug, PartialEq)]
pub enum Request {
    GetMe(get_me::Request),
    SetValue(set_value::Request),
    GetValue(get_value::Request),
    DeleteValue(delete_value::Request),
}

/// The answer to a call of the key-value API.
#[derive(Clone, Debug, PartialEq)]
pub enum Response {
    GetMe(get_me::Response),
    SetValue(set_value::Response),
    GetValue(get_value::Response),
    DeleteValue(delete_value::Response),
    Error(ErrorKind),
}

/// Errors that the API can report in a `Response`.
#[derive(Clone, Copy, Debug, PartialEq, Eq, Structural)]
pub enum ErrorKind {
    PermissionDenied,
    InvalidRequest,
}

/// What a handler answers: a plain-text body with a status, a redirect
/// (303 See Other), or a JSON `Response` with status 200.
#[derive(Clone, Debug, PartialEq)]
pub enum HttpReply {
    Text { status: u16, body: String },
    Redirect { location: String },
    Json(Response),
}

/// `reply` is the plain-text answer `body` with `status`.
pub open spec fn is_text(reply: HttpReply, status: u16, body: Seq<char>) -> bool {
    reply matches HttpReply::Text { status: s, body: b } && s == status && b@ == body
}

/// `reply` redirects to `location`.
pub open spec fn is_redirect(reply: HttpReply, location: Seq<char>) -> bool {
    reply matches HttpReply::Redirect { location: l } && l@ == location
}

/// An internal error, with the description of what went wrong.
#[derive(Clone, Debug)]
pub struct Ise(pub String);

impl Ise {
    /// The answer to an internal error: status 500 and the description.
    pub fn into_response(&self) -> (reply: HttpReply)
        ensures
            is_text(reply, STATUS_INTERNAL_SERVER_ERROR, INTERNAL_ERROR_PREFIX@ + self.0@),
    {
        let mut body = String::from_str(INTERNAL_ERROR_PREFIX);
        body.append(self.0.as_str());
        HttpReply::Text { status: STATUS_INTERNAL_SERVER_ERROR, body }
    }
}

/// The key-value store that signed-in users share.
pub struct State {
    db: StringHashMap<String>,
}

impl State {
    /// What the store holds: key to value.
    pub closed spec fn store(&self) -> Map<Seq<char>, String> {
        self.db@
    }

    /// An empty store.
    pub fn new() -> (st: State)
        ensures
            st.store() == Map::<Seq<char>, String>::empty(),
    {
        State { db: StringHashMap::new() }
    }
}

impl Default for State {
    fn default() -> (st: State)
        ensures
            st.store() == Map::<Seq<char>, String>::empty(),
    {
        State::new()
    }
}

/// The store after a call: a write replaces the key's value, a delete
/// removes the key, and reads leave the store as it was.
pub open spec fn stored_after(request: Request, store: Map<Seq<char>, String>) -> Map<
    Seq<char>,
    String,
> {
    match request {
        Request::SetValue(r) => store.insert(r.key@, r.value),
        Request::DeleteValue(r) => store.remove(r.key@),
        _ => store,
    }
}

/// The answer that `user` gets to a call made on `store`.
pub open spec fn response_to(user: User, request: Request, store: Map<Seq<char>, String>) -> Response {
    match request {
        Request::GetMe(_) => Response::GetMe(get_me::Response { user_id: user.user_id }),
        Request::SetValue(_) => Response::SetValue(set_value::Response {  }),
        Request::GetValue(r) => Response::GetValue(
            get_value::Response {
                value: if store.contains_key(r.key@) {
                    Some(store[r.key@])
                } else {
                    None
                },
            },
        ),
        Request::DeleteValue(_) => Response::DeleteValue(delete_value::Response {  }),
    }
}

/// `POST /api`: answers a call of the key-value API. Nobody signed in gets
/// 401; a body that is no API call gets 400; both leave the store alone.
/// Otherwise the call runs against the store.
pub fn api(user: Option<User>, request: Option<Request>, st: &mut State) -> (reply: HttpReply)
    ensures
        match (user, request) {
            (None, _) => {
                &&& is_text(reply, STATUS_UNAUTHORIZED, "401"@)
                &&& final(st).store() == old(st).store()
            },
            (Some(_), None) => {
                &&& is_text(reply, STATUS_BAD_REQUEST, "invalid request"@)
                &&& final(st).store() == old(st).store()
            },
            (Some(u), Some(req)) => {
                &&& reply == HttpReply::Json(response_to(u, req, old(st).store()))
                &&& final(st).store() == stored_after(req, old(st).store())
            },
        },
{
    let user = match user {
        Some(user) => user,
        None => {
            return HttpReply::Text { status: STATUS_UNAUTHORIZED, body: String::from_str("401") };
        },
    };
    let req = match request {
        Some(req) => req,
        None => {
            return HttpReply::Text {
                status: STATUS_BAD_REQUEST,
                body: String::from_str("invalid request"),
            };
        },
    };
    let res = match req {
        Request::GetMe(_) => Response::GetMe(get_me::Response { user_id: user.user_id }),
        Request::SetValue(set_value::Request { key, value }) => {
            st.db.insert(key, value);
            Response::SetValue(set_value::Response {  })
        },
        Request::GetValue(get_value::Request { key }) => {
            let value = match st.db.get(key.as_str()) {
                Some(v) => Some(v.clone()),
                None => None,
            };
            Response::GetValue(get_value::Response { value })
        },
        Request::DeleteValue(delete_value::Request { key }) => {
            st.db.remove(key.as_str());
            Response::DeleteValue(delete_value::Response {  })
        },
    };
    HttpReply::Json(res)
}

/// Where `POST /login` sends the browser, and the CSRF state to keep in the
/// session under `session_key` until GitHub calls back.
#[derive(Clone, Debug)]
pub struct LoginRedirect {
    pub session_key: String,
    pub csrf_state: String,
    pub location: String,
}

/// `POST /login`: a fresh CSRF state, to be kept in the session, and the
/// GitHub authorization URL carrying it; `None` where `oauth2` rejects the
/// endpoint or the redirect URL.
pub fn login(backend: &Backend) -> (res: Option<LoginRedirect>)
    ensures
        match res {
            Some(r) => {
                &&& r.session_key@ == CSRF_STATE_KEY@
                &&& oauth2_authorization_url(
                    AUTH_URL@,
                    backend.client_id(),
                    backend.redirect_url(),
                    r.csrf_state@,
                ) == Some(r.location@)
                &&& is_csrf_token(r.csrf_state@)
            },
            None => forall|s: Seq<char>|
                #[trigger] oauth2_authorization_url(
                    AUTH_URL@,
                    backend.client_id(),
                    backend.redirect_url(),
                    s,
                ) is None,
        },
{
    match backend.authorize_url() {
        Some((location, csrf_state)) => Some(
            LoginRedirect { session_key: String::from_str(CSRF_STATE_KEY), csrf_state, location },
        ),
        None => None,
    }
}

/// The query GitHub calls back with: the authorization code and the CSRF
/// state it was handed.
#[derive(Clone, Debug)]
pub struct AuthzRequestQuery {
    pub code: String,
    pub state: String,
}

/// Where `GET /oauth/callback` stands.
#[derive(Clone, Debug)]
pub enum CallbackStep {
    /// Answer the browser and stop.
    Reply(HttpReply),
    /// Authenticate these credentials, then go on with `callback_authenticated`.
    Authenticate(Credentials),
    /// Sign `user` in on the session, then answer `then`.
    Login { user: User, then: HttpReply },
}

/// The credentials that a callback authenticates, when the session still
/// holds the CSRF state kept at login.
pub open spec fn callback_credentials(
    old_state: Option<String>,
    query: AuthzRequestQuery,
    current_user: Option<User>,
) -> Option<Credentials> {
    match old_state {
        Some(s) => Some(
            Credentials { code: query.code, old_state: s, new_state: query.state, user: current_user },
        ),
        None => None,
    }
}

/// `GET /oauth/callback`, first step: with no CSRF state left in the session
/// the answer is 400 "session expired"; otherwise the query and the session's
/// state and user are handed to authentication.
pub fn callback(old_state: Option<String>, query: AuthzRequestQuery, current_user: Option<User>) -> (step:
    CallbackStep)
    ensures
        match callback_credentials(old_state, query, current_user) {
            Some(creds) => step == CallbackStep::Authenticate(creds),
            None => step matches CallbackStep::Reply(r) && is_text(
                r,
                STATUS_BAD_REQUEST,
                "session expired"@,
            ),
        },
{
    match old_state {
        None => CallbackStep::Reply(
            HttpReply::Text { status: STATUS_BAD_REQUEST, body: String::from_str("session expired") },
        ),
        Some(old_state) => CallbackStep::Authenticate(
            Credentials { code: query.code, old_state, new_state: query.state, user: current_user },
        ),
    }
}

/// `GET /oauth/callback`, second step: a refused authentication gets 401
/// "authentication failed"; an accepted one signs the user in and sends the
/// browser home.
pub fn callback_authenticated(outcome: Option<User>) -> (step: CallbackStep)
    ensures
        match outcome {
            Some(u) => step matches CallbackStep::Login { user, then } && user == u && is_redirect(
                then,
                HOME@,
            ),
            None => step matches CallbackStep::Reply(r) && is_text(
                r,
                STATUS_UNAUTHORIZED,
                "authentication failed"@,
            ),
        },
{
    match outcome {
        None => CallbackStep::Reply(
            HttpReply::Text {
                status: STATUS_UNAUTHORIZED,
                body: String::from_str("authentication failed"),
            },
        ),
        Some(user) => CallbackStep::Login {
            user,
            then: HttpReply::Redirect { location: String::from_str(HOME) },
        },
    }
}

/// The `type` tag that a serialized call carries: the variant's name.
pub open spec fn request_tag(request: Request) -> Seq<char> {
    match request {
        Request::GetMe(_) => "GetMe"@,
        Request::SetValue(_) => "SetValue"@,
        Request::GetValue(_) => "GetValue"@,
        Request::DeleteValue(_) => "DeleteValue"@,
    }
}

/// The `type` tag that a serialized answer carries: the variant's name.
pub open spec fn response_tag(response: Response) -> Seq<char> {
    match response {
        Response::GetMe(_) => "GetMe"@,
        Response::SetValue(_) => "SetValue"@,
        Response::GetValue(_) => "GetValue"@,
        Response::DeleteValue(_) => "DeleteValue"@,
        Response::Error(_) => "Error"@,
    }
}

impl Request {
    /// The tag under which the call is serialized in its `type` field.
    pub fn to_request_type_string(&self) -> (tag: String)
        ensures
            tag@ == request_tag(*self),
    {
        match self {
            Request::GetMe(_) => String::from_str("GetMe"),
            Request::SetValue(_) => String::from_str("SetValue"),
            Request::GetValue(_) => String::from_str("GetValue"),
            Request::DeleteValue(_) => String::from_str("DeleteValue"),
        }
    }
}

impl Response {
    /// The tag under which the answer is serialized in its `type` field;
    /// an error answer is tagged `Error`, its kind going in `errorType`.
    pub fn to_response_type_string(&self) -> (tag: String)
        ensures
            tag@ == response_tag(*self),
    {
        match self {
            Response::GetMe(_) => String::from_str("GetMe"),
            Response::SetValue(_) => String::from_str("SetValue"),
            Response::GetValue(_) => String::from_str("GetValue"),
            Response::DeleteValue(_) => String::from_str("DeleteValue"),
            Response::Error(_) => String::from_str("Error"),
        }
    }
}

/// Every call answered by `api` is answered under the tag of the call.
pub proof fn lemma_answer_tag_matches_call(user: User, request: Request, store: Map<
    Seq<char>,
    String,
>)
    ensures
        response_tag(response_to(user, request, store)) == request_tag(request),
{
}

/// The credentials of a callback pass the CSRF check exactly when the query
/// echoes the state that login kept in the session.
pub proof fn lemma_echoed_state_passes_csrf_check(
    stored: String,
    query: AuthzRequestQuery,
    current_user: Option<User>,
)
    ensures
        callback_credentials(Some(stored), query, current_user) matches Some(creds)
            && (csrf_state_matches(creds) <==> stored@ == query.state@),
{
}

/// A read of a key returns the value last written to it.
pub proof fn lemma_get_returns_last_set(
    user: User,
    set: set_value::Request,
    get: get_value::Request,
    store: Map<Seq<char>, String>,
)
    requires
        get.key@ == set.key@,
    ensures
        response_to(user, Request::GetValue(get), stored_after(Request::SetValue(set), store))
            == Response::GetValue(get_value::Response { value: Some(set.value) }),
{
}

/// A read of a deleted key finds nothing.
pub proof fn lemma_get_after_delete_is_none(
    user: User,
    delete: delete_value::Request,
    get: get_value::Request,
    store: Map<Seq<char>, String>,
)
    requires
        get.key@ == delete.key@,
    ensures
        response_to(user, Request::GetValue(get), stored_after(Request::DeleteValue(delete), store))
            == Response::GetValue(get_value::Response { value: None }),
{
}

/// Writing or deleting one key changes what a read of any other key returns
/// in no way.
pub proof fn lemma_writes_leave_other_keys(
    user: User,
    write: Request,
    get: get_value::Request,
    store: Map<Seq<char>, String>,
)
    requires
        write matches Request::SetValue(r) ==> r.key@ != get.key@,
        write matches Request::DeleteValue(r) ==> r.key@ != get.key@,
    ensures
        response_to(user, Request::GetValue(get), stored_after(write, store)) == response_to(
            user,
            Request::GetValue(get),
            store,
        ),
{
}

/// Reads change nothing in the store.
pub proof fn lemma_reads_leave_store(request: Request, store: Map<Seq<char>, String>)
    requires
        request is GetMe || request is GetValue,
    ensures
        stored_after(request, store) == store,
{
}

/// Of two writes to one key, the later one wins.
pub proof fn lemma_later_write_wins(
    first: set_value::Request,
    second: set_value::Request,
    store: Map<Seq<char>, String>,
)
    requires
        first.key@ == second.key@,
    ensures
        stored_after(Request::SetValue(second), stored_after(Request::SetValue(first), store))
            == stored_after(Request::SetValue(second), store),
{
    assert(stored_after(Request::SetValue(second), stored_after(Request::SetValue(first), store))
        =~= stored_after(Request::SetValue(second), store));
}

/// Deleting a key twice is deleting it once; deleting an absent key changes
/// nothing.
pub proof fn lemma_delete_idempotent(delete: delete_value::Request, store: Map<Seq<char>, String>)
    ensures
        stored_after(Request::DeleteValue(delete), stored_after(Request::DeleteValue(delete), store))
            == stored_after(Request::DeleteValue(delete), store),
        !store.contains_key(delete.key@) ==> stored_after(Request::DeleteValue(delete), store)
            == store,
{
    assert(stored_after(Request::DeleteValue(delete), stored_after(Request::DeleteValue(delete), store))
        =~= stored_after(Request::DeleteValue(delete), store));
    if !store.contains_key(delete.key@) {
        assert(stored_after(Request::DeleteValue(delete), store) =~= store);
    }
}

/// The store is shared: every signed-in user gets the same answer to a
/// read of a key, and a write has the same effect whoever makes it. Only
/// `GetMe` depends on who asks, and it names the asker.
pub proof fn lemma_store_shared_by_users(
    alice: User,
    bob: User,
    request: Request,
    store: Map<Seq<char>, String>,
)
    ensures
        !(request is GetMe) ==> response_to(alice, request, store) == response_to(
            bob,
            request,
            store,
        ),
        request is GetMe ==> response_to(alice, request, store) == Response::GetMe(
            get_me::Response { user_id: alice.user_id },
        ),
{
}

/// A callback hands authentication the query's authorization code and
/// echoed state, the session's kept state and the session's user, as they
/// came, whether or not the two states agree; with no state kept it hands
/// over nothing.
pub proof fn lemma_callback_passes_query_through(
    old_state: Option<String>,
    query: AuthzRequestQuery,
    current_user: Option<User>,
)
    ensures
        old_state is None ==> callback_credentials(old_state, query, current_user) is None,
        old_state matches Some(s) ==> (callback_credentials(old_state, query, current_user) matches Some(
            c,
        ) && c.code == query.code && c.old_state == s && c.new_state == query.state && c.user
            == current_user),
{
}

/// A write is always acknowledged as a write, whatever the key, the value,
/// the caller and the store, and always stores exactly that value.
pub proof fn lemma_set_value_acknowledged(
    user: User,
    r: set_value::Request,
    store: Map<Seq<char>, String>,
)
    ensures
        response_to(user, Request::SetValue(r), store) == Response::SetValue(
            set_value::Response {  },
        ),
        stored_after(Request::SetValue(r), store).contains_key(r.key@),
        stored_after(Request::SetValue(r), store)[r.key@] == r.value,
        stored_after(Request::SetValue(r), store).dom() == store.dom().insert(r.key@),
{
}

/// A delete is always acknowledged as a delete, whatever the key, the
/// caller and the store, and the key is gone afterwards, every other entry
/// kept.
pub proof fn lemma_delete_value_acknowledged(
    user: User,
    r: delete_value::Request,
    store: Map<Seq<char>, String>,
)
    ensures
        response_to(user, Request::DeleteValue(r), store) == Response::DeleteValue(
            delete_value::Response {  },
        ),
        !stored_after(Request::DeleteValue(r), store).contains_key(r.key@),
        forall|k: Seq<char>|
            k != r.key@ ==> #[trigger] stored_after(Request::DeleteValue(r), store).contains_key(k)
                == store.contains_key(k) && (store.contains_key(k) ==> stored_after(
                Request::DeleteValue(r),
                store,
            )[k] == store[k]),
{
}

/// A read answers the stored value of the key, and nothing exactly when the
/// key holds none; asking who one is answers the caller's id.
pub proof fn lemma_reads_answer_the_store(
    user: User,
    get: get_value::Request,
    me: get_me::Request,
    store: Map<Seq<char>, String>,
)
    ensures
        response_to(user, Request::GetValue(get), store) matches Response::GetValue(res) && (
        res.value is None <==> !store.contains_key(get.key@)) && (res.value matches Some(v)
            ==> v == store[get.key@]),
        response_to(user, Request::GetMe(me), store) == Response::GetMe(
            get_me::Response { user_id: user.user_id },
        ),
{
}

/// The API never answers a call with an error.
pub proof fn lemma_api_answers_no_error(user: User, request: Request, store: Map<Seq<char>, String>)
    ensures
        !(response_to(user, request, store) is Error),
{
}

/// The tags are the variants' names: every call and every answer is tagged
/// by its variant alone, an error answer is tagged `Error` whatever its kind,
/// no call is tagged `Error`, and different variants get different tags.
pub proof fn lemma_tags_name_the_variants(request: Request, response: Response, kind: ErrorKind)
    ensures
        request is GetMe ==> request_tag(request) == "GetMe"@,
        request is SetValue ==> request_tag(request) == "SetValue"@,
        request is GetValue ==> request_tag(request) == "GetValue"@,
        request is DeleteValue ==> request_tag(request) == "DeleteValue"@,
        response is GetMe ==> response_tag(response) == "GetMe"@,
        response is SetValue ==> response_tag(response) == "SetValue"@,
        response is GetValue ==> response_tag(response) == "GetValue"@,
        response is DeleteValue ==> response_tag(response) == "DeleteValue"@,
        response_tag(Response::Error(kind)) == "Error"@,
        request_tag(request) != "Error"@,
        response_tag(response) == "Error"@ <==> response is Error,
{
    reveal_strlit("GetMe");
    reveal_strlit("SetValue");
    reveal_strlit("GetValue");
    reveal_strlit("DeleteValue");
    reveal_strlit("Error");
    assert("GetMe"@[0] != "Error"@[0]);
    assert("SetValue"@.len() != "Error"@.len());
    assert("GetValue"@.len() != "Error"@.len());
    assert("DeleteValue"@.len() != "Error"@.len());
}

/// Different calls carry different tags exactly when they are of different
/// variants.
pub proof fn lemma_request_tags_distinct(a: Request, b: Request)
    ensures
        request_tag(a) == request_tag(b) <==> ((a is GetMe && b is GetMe) || (a is SetValue
            && b is SetValue) || (a is GetValue && b is GetValue) || (a is DeleteValue
            && b is DeleteValue)),
{
    reveal_strlit("GetMe");
    reveal_strlit("SetValue");
    reveal_strlit("GetValue");
    reveal_strlit("DeleteValue");
    assert("GetMe"@.len() != "SetValue"@.len());
    assert("GetMe"@.len() != "DeleteValue"@.len());
    assert("SetValue"@[0] != "GetValue"@[0]);
    assert("SetValue"@.len() != "DeleteValue"@.len());
    assert("GetValue"@.len() != "DeleteValue"@.len());
}

} // verus!
