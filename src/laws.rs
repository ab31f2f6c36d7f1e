//! Properties of the login flow and of the batched insert, proved from the
//! transition relation and the insert model.
use vstd::prelude::*;
use crate::flow::{awaits, friend_ids_of, is_fail, transition, AuthAction, AuthEvent, AuthState, Profiles};
use crate::batch::{
    after_insert, flat_values, groups_text, lemma_flat_values_len, statement_text, BatchInsert, has_id, lemma_after_insert, lemma_insert_of_stored_ids,
};
use crate::model::{row_of, UserProfile, Config, TokenPair, UpstreamError, UserRow};

verus! {

/// True when no friend in `p` carries the logged-in user's own id.
pub open spec fn friends_exclude_me(p: Profiles) -> bool {
    forall|i: int| 0 <= i < p.friends@.len() ==> #[trigger] p.friends@[i].id != p.me.id
}

/// A callback without a code is answered with 400 "Code is required!", and
/// the flow awaits nothing more: no provider request and no store write follow.
pub proof fn missing_code_ends_the_flow(config: Config, next: AuthState, action: AuthAction)
    requires
        transition(config, AuthState::Start, AuthEvent::Callback { code: None }, next, action),
    ensures
        is_fail(action, 400, "Code is required!"@),
        forall|e: AuthEvent| !awaits(next, e),
{
}

/// Once the profiles arrive, the batch to store holds one row per friend and
/// then the user's own row; when no friend shares the user's id, the user's
/// row is the only one with that id.
pub proof fn upsert_holds_friends_and_self(
    config: Config,
    tokens: TokenPair,
    p: Profiles,
    next: AuthState,
    action: AuthAction,
)
    requires
        transition(
            config,
            AuthState::FetchingProfiles { tokens },
            AuthEvent::ProfilesFetched { result: Ok(p) },
            next,
            action,
        ),
    ensures
        match action {
            AuthAction::UpsertUsers { rows } => {
                &&& rows@.len() == p.friends@.len() + 1
                &&& rows@.last() == row_of(p.me)
                &&& forall|i: int| 0 <= i < p.friends@.len() ==> #[trigger] rows@[i] == row_of(p.friends@[i])
                &&& friends_exclude_me(p) ==> forall|i: int|
                    0 <= i < rows@.len() && #[trigger] rows@[i].id == p.me.id ==> i == rows@.len() - 1
            },
            _ => false,
        },
{
    if let AuthAction::UpsertUsers { rows } = action {
        assert forall|i: int|
            0 <= i < rows@.len() && friends_exclude_me(p) && #[trigger] rows@[i].id == p.me.id implies i
            == rows@.len() - 1 by {
            if i < p.friends@.len() {
                assert(p.friends@[i].id != p.me.id);
            }
        }
    }
}

/// The insert built from a login's rows has one placeholder group per row,
/// the user's included, and six parameters per row.
pub proof fn login_batch_has_a_group_per_user(
    config: Config,
    tokens: TokenPair,
    p: Profiles,
    next: AuthState,
    action: AuthAction,
    batch: BatchInsert,
)
    requires
        transition(
            config,
            AuthState::FetchingProfiles { tokens },
            AuthEvent::ProfilesFetched { result: Ok(p) },
            next,
            action,
        ),
        match action {
            AuthAction::UpsertUsers { rows } => batch.statement@ == statement_text(rows@.len())
                && batch.params@ == flat_values(rows@),
            _ => false,
        },
    ensures
        batch.statement@ == statement_text(p.friends@.len() + 1),
        groups_text(p.friends@.len() + 1).len() == p.friends@.len() + 1,
        batch.params@.len() == 6 * (p.friends@.len() + 1),
{
    if let AuthAction::UpsertUsers { rows } = action {
        lemma_flat_values_len(rows@);
    }
}

/// The friend ids stored with the session are those the provider listed, in
/// its order, less the user's own id, which is never among them.
pub proof fn session_friends_are_friends(
    config: Config,
    tokens: TokenPair,
    p: Profiles,
    session_id: String,
    s1: AuthState,
    a1: AuthAction,
    s2: AuthState,
    a2: AuthAction,
    s3: AuthState,
    a3: AuthAction,
)
    requires
        transition(
            config,
            AuthState::FetchingProfiles { tokens },
            AuthEvent::ProfilesFetched { result: Ok(p) },
            s1,
            a1,
        ),
        transition(config, s1, AuthEvent::UsersStored { ok: true }, s2, a2),
        transition(config, s2, AuthEvent::SessionIdDrawn { session_id }, s3, a3),
    ensures
        match a3 {
            AuthAction::CreateSession { user_id, friend_ids, .. } => {
                &&& user_id == p.me.id
                &&& friend_ids@ == friend_ids_of(p.me.id, p.friends@)
                &&& !friend_ids@.contains(p.me.id)
            },
            _ => false,
        },
{
    if let AuthAction::CreateSession { friend_ids, .. } = a3 {
        if friend_ids@.contains(p.me.id) {
            let i = choose|i: int| 0 <= i < friend_ids@.len() && friend_ids@[i] == p.me.id;
            p.friends@.map_values(|f: UserProfile| f.id).lemma_filter_pred(|id: i32| id != p.me.id, i);
        }
    }
}

/// The cookie set on success holds exactly the session id the session was
/// stored under.
pub proof fn cookie_matches_stored_session(
    config: Config,
    tokens: TokenPair,
    user_id: i32,
    friend_ids: Vec<i32>,
    session_id: String,
    s1: AuthState,
    a1: AuthAction,
    s2: AuthState,
    a2: AuthAction,
)
    requires
        transition(
            config,
            AuthState::UsersPersisted { tokens, user_id, friend_ids },
            AuthEvent::SessionIdDrawn { session_id },
            s1,
            a1,
        ),
        transition(config, s1, AuthEvent::SessionStored { result: Ok(()) }, s2, a2),
    ensures
        match (a1, a2) {
            (
                AuthAction::CreateSession { session_id: stored, .. },
                AuthAction::Redirect { cookie_name, cookie_value, .. },
            ) => stored == session_id && cookie_value == stored && cookie_name@ == "osu_session"@,
            _ => false,
        },
{
}

/// A failed user insert is answered with 500 "Can't add users!", and the
/// flow awaits nothing more: no session is created.
pub proof fn failed_upsert_creates_no_session(
    config: Config,
    tokens: TokenPair,
    user_id: i32,
    friend_ids: Vec<i32>,
    next: AuthState,
    action: AuthAction,
)
    requires
        transition(
            config,
            AuthState::PersistingUsers { tokens, user_id, friend_ids },
            AuthEvent::UsersStored { ok: false },
            next,
            action,
        ),
    ensures
        is_fail(action, 500, "Can't add users!"@),
        forall|e: AuthEvent| !awaits(next, e),
{
}

/// A failed token exchange is answered with the provider's status and body,
/// and the flow awaits nothing more: nothing is stored.
pub proof fn failed_exchange_stores_nothing(
    config: Config,
    e: UpstreamError,
    next: AuthState,
    action: AuthAction,
)
    requires
        transition(
            config,
            AuthState::ExchangingCode,
            AuthEvent::TokensExchanged { result: Err(e) },
            next,
            action,
        ),
    ensures
        is_fail(action, e.status, e.body@),
        forall|ev: AuthEvent| !awaits(next, ev),
{
}

/// Inserting two batches in turn keeps one row per id: every row stored by
/// the first batch is left as it was by the second, the ids stored are those
/// that were there and those of either batch, and running the first batch
/// again has no effect.
pub proof fn repeated_insert_overwrites_nothing(
    table: Map<i32, UserRow>,
    first: Seq<UserRow>,
    second: Seq<UserRow>,
)
    ensures
        ({
            let t1 = after_insert(table, first);
            let t2 = after_insert(t1, second);
            &&& forall|k: i32| #[trigger] t1.contains_key(k) ==> t2.contains_key(k) && t2[k] == t1[k]
            &&& forall|k: i32| #[trigger] t2.contains_key(k) <==> table.contains_key(k) || has_id(first, k)
                || has_id(second, k)
            &&& after_insert(t1, first) == t1
        }),
{
    let t1 = after_insert(table, first);
    lemma_after_insert(table, first);
    lemma_after_insert(t1, second);
    assert forall|i: int| 0 <= i < first.len() implies t1.contains_key(#[trigger] first[i].id) by {
        assert(has_id(first, first[i].id));
    }
    lemma_insert_of_stored_ids(t1, first);
}

} // verus!
