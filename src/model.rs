//! The values that flow through one authorization.
use vstd::prelude::*;

verus! {

/// The credentials the identity provider hands out for an authorization code.
#[derive(Debug, Clone, PartialEq, Eq)]
pub struct TokenPair {
    pub access_token: String,
    pub refresh_token: String,
}

/// A user as the identity provider describes it; the user and their friends
/// share this shape.
#[derive(Debug, Clone, PartialEq, Eq)]
pub struct UserProfile {
    pub id: i32,
    pub username: String,
    pub country_code: String,
    pub avatar_url: String,
    pub cover_url: String,
    pub global_rank: Option<i32>,
}

/// One stored user row.
#[derive(Debug, Clone, PartialEq, Eq)]
pub struct UserRow {
    pub id: i32,
    pub username: String,
    pub global_rank: i32,
    pub country_code: String,
    pub avatar_url: String,
    pub cover_url: String,
}

/// Settings of the deployment.
#[derive(Debug, Clone, PartialEq, Eq)]
pub struct Config {
    pub client_id: String,
    pub client_secret: String,
    /// The redirect URI registered with the provider, sent with the exchange.
    pub oauth_redirect_uri: String,
    /// Where the browser goes once logged in.
    pub post_login_redirect_uri: String,
}

/// An error surfaced by a collaborator, passed on to the browser as it came.
#[derive(Debug, Clone, PartialEq, Eq)]
pub struct UpstreamError {
    pub status: u16,
    pub body: String,
}

/// A parameter of a SQL statement.
#[derive(Debug, Clone, PartialEq, Eq)]
pub enum SqlValue {
    Int(i32),
    Text(String),
}

/// The row stored for a profile: an absent rank is stored as zero.
pub open spec fn row_of(p: UserProfile) -> UserRow {
    UserRow {
        id: p.id,
        username: p.username,
        global_rank: match p.global_rank {
            Some(g) => g,
            None => 0,
        },
        country_code: p.country_code,
        avatar_url: p.avatar_url,
        cover_url: p.cover_url,
    }
}

/// The row stored for `p`.
pub fn user_row(p: &UserProfile) -> (r: UserRow)
    ensures
        r == row_of(*p),
{
    UserRow {
        id: p.id,
        username: p.username.clone(),
        global_rank: match p.global_rank {
            Some(g) => g,
            None => 0,
        },
        country_code: p.country_code.clone(),
        avatar_url: p.avatar_url.clone(),
        cover_url: p.cover_url.clone(),
    }
}

} // verus!
