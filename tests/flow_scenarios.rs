use osu_auth::flow::{
    friend_ids, is_awaited, redirect_target, step, token_form, user_rows, AuthAction, AuthEvent,
    AuthState, Profiles,
};
use osu_auth::model::{user_row, Config, TokenPair, UpstreamError, UserProfile, UserRow};

fn config() -> Config {
    Config {
        client_id: "15638".to_string(),
        client_secret: "s3cret".to_string(),
        oauth_redirect_uri: "https://app.example/callback".to_string(),
        post_login_redirect_uri: "https://app.example/home".to_string(),
    }
}

fn profile(id: i32, rank: Option<i32>) -> UserProfile {
    UserProfile {
        id,
        username: format!("user{}", id),
        country_code: "NL".to_string(),
        avatar_url: format!("https://a.example/{}", id),
        cover_url: format!("https://c.example/{}", id),
        global_rank: rank,
    }
}

fn tokens(access: &str, refresh: &str) -> TokenPair {
    TokenPair { access_token: access.to_string(), refresh_token: refresh.to_string() }
}

fn every_event() -> Vec<AuthEvent> {
    vec![
        AuthEvent::Callback { code: Some("c".to_string()) },
        AuthEvent::TokensExchanged { result: Ok(tokens("a", "r")) },
        AuthEvent::ProfilesFetched {
            result: Ok(Profiles { me: profile(1, None), friends: vec![] }),
        },
        AuthEvent::UsersStored { ok: true },
        AuthEvent::SessionIdDrawn { session_id: "s".to_string() },
        AuthEvent::SessionStored { result: Ok(()) },
    ]
}

fn awaits_nothing(state: &AuthState) -> bool {
    every_event().iter().all(|e| !is_awaited(state, e))
}

#[test]
fn successful_login_redirects_with_session_cookie() {
    let cfg = config();
    let (s, a) = step(&cfg, AuthState::Start, AuthEvent::Callback { code: Some("abc123".to_string()) });
    match a {
        AuthAction::ExchangeCode { form } => {
            assert_eq!(form[2], ("code".to_string(), "abc123".to_string()));
        }
        other => panic!("unexpected {:?}", other),
    }
    let (s, a) = step(&cfg, s, AuthEvent::TokensExchanged { result: Ok(tokens("T1", "R1")) });
    assert_eq!(a, AuthAction::FetchProfiles { tokens: tokens("T1", "R1") });
    let me = profile(1, Some(10));
    let friends = vec![profile(2, Some(20)), profile(3, None)];
    let (s, a) = step(
        &cfg,
        s,
        AuthEvent::ProfilesFetched { result: Ok(Profiles { me: me.clone(), friends: friends.clone() }) },
    );
    match a {
        AuthAction::UpsertUsers { rows } => {
            let ids: Vec<i32> = rows.iter().map(|r| r.id).collect();
            assert_eq!(ids, vec![2, 3, 1]);
        }
        other => panic!("unexpected {:?}", other),
    }
    let (s, a) = step(&cfg, s, AuthEvent::UsersStored { ok: true });
    assert_eq!(a, AuthAction::DrawSessionId);
    let (s, a) = step(&cfg, s, AuthEvent::SessionIdDrawn { session_id: "generated".to_string() });
    assert_eq!(
        a,
        AuthAction::CreateSession {
            session_id: "generated".to_string(),
            user_id: 1,
            friend_ids: vec![2, 3],
            access_token: "T1".to_string(),
            refresh_token: "R1".to_string(),
        }
    );
    let (s, a) = step(&cfg, s, AuthEvent::SessionStored { result: Ok(()) });
    assert_eq!(
        a,
        AuthAction::Redirect {
            location: "https://app.example/home?access_token=T1&refresh_token=R1".to_string(),
            cookie_name: "osu_session".to_string(),
            cookie_value: "generated".to_string(),
        }
    );
    assert_eq!(s, AuthState::Redirected);
    assert!(awaits_nothing(&s));
}

#[test]
fn missing_code_is_a_client_error() {
    let (s, a) = step(&config(), AuthState::Start, AuthEvent::Callback { code: None });
    assert_eq!(a, AuthAction::Fail { status: 400, body: "Code is required!".to_string() });
    assert_eq!(s, AuthState::Failed);
    assert!(awaits_nothing(&s));
}

#[test]
fn failed_exchange_passes_upstream_error_on() {
    let err = UpstreamError { status: 401, body: "invalid_grant".to_string() };
    let (s, a) = step(&config(), AuthState::ExchangingCode, AuthEvent::TokensExchanged { result: Err(err) });
    assert_eq!(a, AuthAction::Fail { status: 401, body: "invalid_grant".to_string() });
    assert!(awaits_nothing(&s));
}

#[test]
fn failed_profile_fetch_passes_upstream_error_on() {
    let err = UpstreamError { status: 502, body: "bad gateway".to_string() };
    let state = AuthState::FetchingProfiles { tokens: tokens("a", "r") };
    let (s, a) = step(&config(), state, AuthEvent::ProfilesFetched { result: Err(err) });
    assert_eq!(a, AuthAction::Fail { status: 502, body: "bad gateway".to_string() });
    assert!(awaits_nothing(&s));
}

#[test]
fn failed_upsert_creates_no_session() {
    let state = AuthState::PersistingUsers { tokens: tokens("a", "r"), user_id: 1, friend_ids: vec![2] };
    let (s, a) = step(&config(), state, AuthEvent::UsersStored { ok: false });
    assert_eq!(a, AuthAction::Fail { status: 500, body: "Can't add users!".to_string() });
    assert!(!is_awaited(&s, &AuthEvent::SessionIdDrawn { session_id: "x".to_string() }));
    assert!(awaits_nothing(&s));
}

#[test]
fn failed_session_store_sets_no_cookie() {
    let err = UpstreamError { status: 500, body: "session".to_string() };
    let state = AuthState::CreatingSession { tokens: tokens("a", "r"), session_id: "s".to_string() };
    let (s, a) = step(&config(), state, AuthEvent::SessionStored { result: Err(err) });
    assert_eq!(a, AuthAction::Fail { status: 500, body: "session".to_string() });
    assert_eq!(s, AuthState::Failed);
}

#[test]
fn events_out_of_turn_are_not_awaited() {
    assert!(is_awaited(&AuthState::Start, &AuthEvent::Callback { code: None }));
    assert!(!is_awaited(&AuthState::Start, &AuthEvent::UsersStored { ok: true }));
    assert!(!is_awaited(&AuthState::ExchangingCode, &AuthEvent::Callback { code: None }));
}

#[test]
fn token_form_lists_the_exchange_parameters() {
    let form = token_form(&config(), "abc123");
    let expected: Vec<(String, String)> = vec![
        ("client_id", "15638"),
        ("client_secret", "s3cret"),
        ("code", "abc123"),
        ("grant_type", "authorization_code"),
        ("redirect_uri", "https://app.example/callback"),
    ]
    .into_iter()
    .map(|(k, v)| (k.to_string(), v.to_string()))
    .collect();
    assert_eq!(form, expected);
}

#[test]
fn friend_ids_keep_provider_order_and_leave_out_self() {
    let friends = vec![profile(9, None), profile(4, None), profile(7, None)];
    assert_eq!(friend_ids(1, &friends), vec![9, 4, 7]);
    assert_eq!(friend_ids(1, &vec![]), Vec::<i32>::new());
    let with_self = vec![profile(9, None), profile(1, None), profile(7, None)];
    assert_eq!(friend_ids(1, &with_self), vec![9, 7]);
    assert_eq!(friend_ids(1, &vec![profile(1, None)]), Vec::<i32>::new());
}

#[test]
fn session_leaves_out_self_listed_as_friend() {
    let cfg = config();
    let state = AuthState::FetchingProfiles { tokens: tokens("T1", "R1") };
    let friends = vec![profile(2, None), profile(1, None), profile(3, None)];
    let (s, _) = step(
        &cfg,
        state,
        AuthEvent::ProfilesFetched { result: Ok(Profiles { me: profile(1, None), friends }) },
    );
    let (s, _) = step(&cfg, s, AuthEvent::UsersStored { ok: true });
    let (_, a) = step(&cfg, s, AuthEvent::SessionIdDrawn { session_id: "sid".to_string() });
    match a {
        AuthAction::CreateSession { user_id, friend_ids, .. } => {
            assert_eq!(user_id, 1);
            assert_eq!(friend_ids, vec![2, 3]);
        }
        other => panic!("unexpected {:?}", other),
    }
}

#[test]
fn user_rows_hold_friends_then_self_once() {
    let me = profile(1, Some(5));
    let friends = vec![profile(3, None), profile(2, Some(8))];
    let rows = user_rows(&me, &friends);
    assert_eq!(rows.len(), friends.len() + 1);
    assert_eq!(rows.iter().filter(|r| r.id == 1).count(), 1);
    assert_eq!(rows[2], user_row(&me));
    assert_eq!(rows[0].global_rank, 0);
    assert_eq!(rows[1].global_rank, 8);
}

#[test]
fn user_rows_of_a_friendless_user() {
    let rows = user_rows(&profile(42, None), &vec![]);
    assert_eq!(rows.len(), 1);
    assert_eq!(rows[0].id, 42);
}

#[test]
fn absent_rank_is_stored_as_zero() {
    let row = user_row(&profile(5, None));
    assert_eq!(
        row,
        UserRow {
            id: 5,
            username: "user5".to_string(),
            global_rank: 0,
            country_code: "NL".to_string(),
            avatar_url: "https://a.example/5".to_string(),
            cover_url: "https://c.example/5".to_string(),
        }
    );
    assert_eq!(user_row(&profile(5, Some(77))).global_rank, 77);
}

#[test]
fn redirect_target_carries_both_tokens() {
    assert_eq!(
        redirect_target(&config(), &tokens("T1", "R1")),
        "https://app.example/home?access_token=T1&refresh_token=R1"
    );
}
