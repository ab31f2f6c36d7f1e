//! The callback handler as a state machine. The caller performs each action
//! (a request to the provider, a store write, drawing a session id, the
//! response) and hands the outcome back as the next event.
use vstd::prelude::*;
use vstd::string::*;
use crate::model::{row_of, user_row, Config, TokenPair, UpstreamError, UserProfile, UserRow};

verus! {

/// What the provider returned for the logged-in user.
#[derive(Debug, Clone, PartialEq, Eq)]
pub struct Profiles {
    pub me: UserProfile,
    pub friends: Vec<UserProfile>,
}

#[derive(Debug, Clone, PartialEq, Eq)]
pub enum AuthState {
    /// Nothing received yet.
    Start,
    /// The code was present; its exchange for tokens is under way.
    ExchangingCode,
    /// Tokens are in hand; the profiles are being fetched.
    FetchingProfiles { tokens: TokenPair },
    /// The user and friends are being stored.
    PersistingUsers { tokens: TokenPair, user_id: i32, friend_ids: Vec<i32> },
    /// The users are stored; a session id is being drawn.
    UsersPersisted { tokens: TokenPair, user_id: i32, friend_ids: Vec<i32> },
    /// The session is being stored under `session_id`.
    CreatingSession { tokens: TokenPair, session_id: String },
    /// The browser was sent on with its session cookie.
    Redirected,
    /// An error response was sent.
    Failed,
}

#[derive(Debug, PartialEq, Eq)]
pub enum AuthEvent {
    /// The callback request arrived, with its `code` query parameter if any.
    Callback { code: Option<String> },
    TokensExchanged { result: Result<TokenPair, UpstreamError> },
    ProfilesFetched { result: Result<Profiles, UpstreamError> },
    UsersStored { ok: bool },
    SessionIdDrawn { session_id: String },
    SessionStored { result: Result<(), UpstreamError> },
}

#[derive(Debug, Clone, PartialEq, Eq)]
pub enum AuthAction {
    /// Post `form` to the provider's token endpoint.
    ExchangeCode { form: Vec<(String, String)> },
    /// Fetch the current user and their friends with `tokens`.
    FetchProfiles { tokens: TokenPair },
    /// Insert `rows` in one batch, skipping ids already stored.
    UpsertUsers { rows: Vec<UserRow> },
    /// Draw a fresh unpredictable session id.
    DrawSessionId,
    /// Store the session record.
    CreateSession {
        session_id: String,
        user_id: i32,
        friend_ids: Vec<i32>,
        access_token: String,
        refresh_token: String,
    },
    /// Answer with a permanent redirect to `location`, adding the cookie.
    Redirect { location: String, cookie_name: String, cookie_value: String },
    /// Answer with an error status and a plain-text body.
    Fail { status: u16, body: String },
}

pub open spec fn pair_views(form: Seq<(String, String)>) -> Seq<(Seq<char>, Seq<char>)> {
    form.map_values(|p: (String, String)| (p.0@, p.1@))
}

/// The form of the token exchange for `code`.
pub open spec fn token_form_spec(config: Config, code: Seq<char>) -> Seq<(Seq<char>, Seq<char>)> {
    seq![
        ("client_id"@, config.client_id@),
        ("client_secret"@, config.client_secret@),
        ("code"@, code),
        ("grant_type"@, "authorization_code"@),
        ("redirect_uri"@, config.oauth_redirect_uri@),
    ]
}

/// The ids of `friends`, in the provider's order.
pub open spec fn ids_of(friends: Seq<UserProfile>) -> Seq<i32> {
    friends.map_values(|p: UserProfile| p.id)
}

/// The ids of `friends` other than the user's own, in the provider's order.
pub open spec fn friend_ids_of(me_id: i32, friends: Seq<UserProfile>) -> Seq<i32> {
    ids_of(friends).filter(|id: i32| id != me_id)
}

/// The rows stored for a login: each friend's, then the user's own.
pub open spec fn rows_for(me: UserProfile, friends: Seq<UserProfile>) -> Seq<UserRow> {
    friends.map_values(|p: UserProfile| row_of(p)).push(row_of(me))
}

/// Where the browser goes after login, carrying both tokens.
pub open spec fn redirect_target_spec(config: Config, tokens: TokenPair) -> Seq<char> {
    config.post_login_redirect_uri@ + "?access_token="@ + tokens.access_token@ + "&refresh_token="@
        + tokens.refresh_token@
}

pub open spec fn is_fail(a: AuthAction, status: u16, body: Seq<char>) -> bool {
    match a {
        AuthAction::Fail { status: s, body: b } => s == status && b@ == body,
        _ => false,
    }
}

/// Whether `event` is the one awaited in `state`.
pub open spec fn awaits(state: AuthState, event: AuthEvent) -> bool {
    match (state, event) {
        (AuthState::Start, AuthEvent::Callback { .. }) => true,
        (AuthState::ExchangingCode, AuthEvent::TokensExchanged { .. }) => true,
        (AuthState::FetchingProfiles { .. }, AuthEvent::ProfilesFetched { .. }) => true,
        (AuthState::PersistingUsers { .. }, AuthEvent::UsersStored { .. }) => true,
        (AuthState::UsersPersisted { .. }, AuthEvent::SessionIdDrawn { .. }) => true,
        (AuthState::CreatingSession { .. }, AuthEvent::SessionStored { .. }) => true,
        _ => false,
    }
}

/// One transition: from `state` on `event` to `next`, performing `action`.
pub open spec fn transition(
    config: Config,
    state: AuthState,
    event: AuthEvent,
    next: AuthState,
    action: AuthAction,
) -> bool {
    match (state, event) {
        (AuthState::Start, AuthEvent::Callback { code: None }) => next is Failed && is_fail(
            action,
            400,
            "Code is required!"@,
        ),
        (AuthState::Start, AuthEvent::Callback { code: Some(c) }) => next is ExchangingCode
            && match action {
            AuthAction::ExchangeCode { form } => pair_views(form@) == token_form_spec(config, c@),
            _ => false,
        },
        (AuthState::ExchangingCode, AuthEvent::TokensExchanged { result: Err(e) }) => next is Failed
            && is_fail(action, e.status, e.body@),
        (AuthState::ExchangingCode, AuthEvent::TokensExchanged { result: Ok(t) }) => next
            == AuthState::FetchingProfiles { tokens: t } && action == AuthAction::FetchProfiles {
            tokens: t,
        },
        (AuthState::FetchingProfiles { .. }, AuthEvent::ProfilesFetched { result: Err(e) }) => next is Failed
            && is_fail(action, e.status, e.body@),
        (
            AuthState::FetchingProfiles { tokens },
            AuthEvent::ProfilesFetched { result: Ok(p) },
        ) => match (next, action) {
            (
                AuthState::PersistingUsers { tokens: t, user_id, friend_ids },
                AuthAction::UpsertUsers { rows },
            ) => t == tokens && user_id == p.me.id && friend_ids@ == friend_ids_of(p.me.id, p.friends@) && rows@
                == rows_for(p.me, p.friends@),
            _ => false,
        },
        (AuthState::PersistingUsers { .. }, AuthEvent::UsersStored { ok: false }) => next is Failed
            && is_fail(action, 500, "Can't add users!"@),
        (
            AuthState::PersistingUsers { tokens, user_id, friend_ids },
            AuthEvent::UsersStored { ok: true },
        ) => action is DrawSessionId && match next {
            AuthState::UsersPersisted { tokens: t, user_id: u, friend_ids: f } => t == tokens && u
                == user_id && f@ == friend_ids@,
            _ => false,
        },
        (
            AuthState::UsersPersisted { tokens, user_id, friend_ids },
            AuthEvent::SessionIdDrawn { session_id },
        ) => next == AuthState::CreatingSession { tokens, session_id } && match action {
            AuthAction::CreateSession {
                session_id: s,
                user_id: u,
                friend_ids: f,
                access_token: a,
                refresh_token: r,
            } => s == session_id && u == user_id && f@ == friend_ids@ && a == tokens.access_token && r
                == tokens.refresh_token,
            _ => false,
        },
        (AuthState::CreatingSession { .. }, AuthEvent::SessionStored { result: Err(e) }) => next is Failed
            && is_fail(action, e.status, e.body@),
        (
            AuthState::CreatingSession { tokens, session_id },
            AuthEvent::SessionStored { result: Ok(_) },
        ) => next is Redirected && match action {
            AuthAction::Redirect { location, cookie_name, cookie_value } => location@
                == redirect_target_spec(config, tokens) && cookie_name@ == "osu_session"@
                && cookie_value == session_id,
            _ => false,
        },
        _ => false,
    }
}

fn pair(k: &str, v: &str) -> (r: (String, String))
    ensures
        r.0@ == k@,
        r.1@ == v@,
{
    (String::from_str(k), String::from_str(v))
}

/// The form that exchanges `code` for tokens.
pub fn token_form(config: &Config, code: &str) -> (r: Vec<(String, String)>)
    ensures
        pair_views(r@) == token_form_spec(*config, code@),
{
    let r = vec![
        pair("client_id", config.client_id.as_str()),
        pair("client_secret", config.client_secret.as_str()),
        pair("code", code),
        pair("grant_type", "authorization_code"),
        pair("redirect_uri", config.oauth_redirect_uri.as_str()),
    ];
    assert(pair_views(r@) =~= token_form_spec(*config, code@));
    r
}

/// The ids of `friends` other than `me_id`, in their order.
pub fn friend_ids(me_id: i32, friends: &Vec<UserProfile>) -> (r: Vec<i32>)
    ensures
        r@ == friend_ids_of(me_id, friends@),
{
    let mut out: Vec<i32> = Vec::new();
    let mut i: usize = 0;
    while i < friends.len()
        invariant
            i <= friends@.len(),
            out@ == friend_ids_of(me_id, friends@.subrange(0, i as int)),
        decreases friends@.len() - i,
    {
        let id = friends[i].id;
        if id != me_id {
            out.push(id);
        }
        proof {
            reveal(Seq::filter);
            let next = ids_of(friends@.subrange(0, i + 1));
            assert(next.drop_last() =~= ids_of(friends@.subrange(0, i as int)));
            assert(next.last() == id);
        }
        i = i + 1;
        assert(out@ =~= friend_ids_of(me_id, friends@.subrange(0, i as int)));
    }
    assert(friends@.subrange(0, i as int) =~= friends@);
    out
}

/// The rows to store for a login: each friend's, then `me`'s.
pub fn user_rows(me: &UserProfile, friends: &Vec<UserProfile>) -> (r: Vec<UserRow>)
    ensures
        r@ == rows_for(*me, friends@),
{
    let mut out: Vec<UserRow> = Vec::new();
    let mut i: usize = 0;
    while i < friends.len()
        invariant
            i <= friends@.len(),
            out@ =~= friends@.subrange(0, i as int).map_values(|p: UserProfile| row_of(p)),
        decreases friends@.len() - i,
    {
        out.push(user_row(&friends[i]));
        i = i + 1;
        assert(out@ =~= friends@.subrange(0, i as int).map_values(|p: UserProfile| row_of(p)));
    }
    assert(friends@.subrange(0, i as int) =~= friends@);
    out.push(user_row(me));
    assert(out@ =~= rows_for(*me, friends@));
    out
}

/// The post-login redirect, with both tokens as query parameters.
pub fn redirect_target(config: &Config, tokens: &TokenPair) -> (r: String)
    ensures
        r@ == redirect_target_spec(*config, *tokens),
{
    let mut s = config.post_login_redirect_uri.clone();
    s.append("?access_token=");
    s.append(tokens.access_token.as_str());
    s.append("&refresh_token=");
    s.append(tokens.refresh_token.as_str());
    s
}

/// Whether `event` is the one awaited in `state`.
pub fn is_awaited(state: &AuthState, event: &AuthEvent) -> (r: bool)
    ensures
        r == awaits(*state, *event),
{
    match (state, event) {
        (AuthState::Start, AuthEvent::Callback { .. }) => true,
        (AuthState::ExchangingCode, AuthEvent::TokensExchanged { .. }) => true,
        (AuthState::FetchingProfiles { .. }, AuthEvent::ProfilesFetched { .. }) => true,
        (AuthState::PersistingUsers { .. }, AuthEvent::UsersStored { .. }) => true,
        (AuthState::UsersPersisted { .. }, AuthEvent::SessionIdDrawn { .. }) => true,
        (AuthState::CreatingSession { .. }, AuthEvent::SessionStored { .. }) => true,
        _ => false,
    }
}

fn copy_tokens(t: &TokenPair) -> (r: TokenPair)
    ensures
        r == *t,
{
    TokenPair { access_token: t.access_token.clone(), refresh_token: t.refresh_token.clone() }
}

fn copy_ids(v: &Vec<i32>) -> (r: Vec<i32>)
    ensures
        r@ == v@,
{
    let mut out: Vec<i32> = Vec::new();
    let mut i: usize = 0;
    while i < v.len()
        invariant
            i <= v@.len(),
            out@ =~= v@.subrange(0, i as int),
        decreases v@.len() - i,
    {
        out.push(v[i]);
        i = i + 1;
        assert(out@ =~= v@.subrange(0, i as int));
    }
    assert(out@ =~= v@);
    out
}

fn fail(status: u16, body: &str) -> (r: AuthAction)
    ensures
        is_fail(r, status, body@),
{
    AuthAction::Fail { status, body: String::from_str(body) }
}

/// Decides the next state and the action to perform on `event`.
pub fn step(config: &Config, state: AuthState, event: AuthEvent) -> (r: (AuthState, AuthAction))
    requires
        awaits(state, event),
    ensures
        transition(*config, state, event, r.0, r.1),
{
    match state {
        AuthState::Start => match event {
            AuthEvent::Callback { code: None } => (AuthState::Failed, fail(400, "Code is required!")),
            AuthEvent::Callback { code: Some(c) } => (
                AuthState::ExchangingCode,
                AuthAction::ExchangeCode { form: token_form(config, c.as_str()) },
            ),
            // ruled out by `awaits`
            _ => (AuthState::Failed, AuthAction::DrawSessionId),
        },
        AuthState::ExchangingCode => match event {
            AuthEvent::TokensExchanged { result: Err(e) } => (
                AuthState::Failed,
                AuthAction::Fail { status: e.status, body: e.body },
            ),
            AuthEvent::TokensExchanged { result: Ok(t) } => {
                let kept = copy_tokens(&t);
                (AuthState::FetchingProfiles { tokens: kept }, AuthAction::FetchProfiles { tokens: t })
            },
            // ruled out by `awaits`
            _ => (AuthState::Failed, AuthAction::DrawSessionId),
        },
        AuthState::FetchingProfiles { tokens } => match event {
            AuthEvent::ProfilesFetched { result: Err(e) } => (
                AuthState::Failed,
                AuthAction::Fail { status: e.status, body: e.body },
            ),
            AuthEvent::ProfilesFetched { result: Ok(p) } => {
                let ids = friend_ids(p.me.id, &p.friends);
                let rows = user_rows(&p.me, &p.friends);
                (
                    AuthState::PersistingUsers { tokens, user_id: p.me.id, friend_ids: ids },
                    AuthAction::UpsertUsers { rows },
                )
            },
            // ruled out by `awaits`
            _ => (AuthState::Failed, AuthAction::DrawSessionId),
        },
        AuthState::PersistingUsers { tokens, user_id, friend_ids } => match event {
            AuthEvent::UsersStored { ok: false } => (AuthState::Failed, fail(500, "Can't add users!")),
            AuthEvent::UsersStored { ok: true } => (
                AuthState::UsersPersisted { tokens, user_id, friend_ids },
                AuthAction::DrawSessionId,
            ),
            // ruled out by `awaits`
            _ => (AuthState::Failed, AuthAction::DrawSessionId),
        },
        AuthState::UsersPersisted { tokens, user_id, friend_ids } => match event {
            AuthEvent::SessionIdDrawn { session_id } => {
                let action = AuthAction::CreateSession {
                    session_id: session_id.clone(),
                    user_id,
                    friend_ids: copy_ids(&friend_ids),
                    access_token: tokens.access_token.clone(),
                    refresh_token: tokens.refresh_token.clone(),
                };
                (AuthState::CreatingSession { tokens, session_id }, action)
            },
            // ruled out by `awaits`
            _ => (AuthState::Failed, AuthAction::DrawSessionId),
        },
        AuthState::CreatingSession { tokens, session_id } => match event {
            AuthEvent::SessionStored { result: Err(e) } => (
                AuthState::Failed,
                AuthAction::Fail { status: e.status, body: e.body },
            ),
            AuthEvent::SessionStored { result: Ok(_) } => {
                let location = redirect_target(config, &tokens);
                (
                    AuthState::Redirected,
                    AuthAction::Redirect {
                        location,
                        cookie_name: String::from_str("osu_session"),
                        cookie_value: session_id,
                    },
                )
            },
            // ruled out by `awaits`
            _ => (AuthState::Failed, AuthAction::DrawSessionId),
        },
        // ruled out by `awaits`
        _ => (AuthState::Failed, AuthAction::DrawSessionId),
    }
}

} // verus!
