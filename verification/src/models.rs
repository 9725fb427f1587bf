//! The records of the service, as the database holds them and the API shows
//! them.
//!
//! A record that occurs in contracts is generic in its text: `Scrobble` holds
//! strings, and its deep view, `Scrobble<Seq<char>>`, their characters.

use crate::ids::Uuid;
use crate::time::{CalendarDate, Timestamp};
use vstd::prelude::*;
use vstd::string::*;

verus! {

/// User
#[derive(Debug, Clone, PartialEq, Eq)]
pub struct User {
    pub id: i64,
    pub username: String,
    pub email: String,
    pub password_hash: String,
    pub display_name: Option<String>,
    pub bio: Option<String>,
    pub image_url: Option<String>,
    pub website_url: Option<String>,
    pub country: Option<String>,
    pub scrobble_count: i64,
    pub is_private: bool,
    pub is_verified: bool,
    pub last_seen_at: Option<Timestamp>,
    pub created_at: Timestamp,
    pub updated_at: Timestamp,
}

/// Public-facing profile (no sensitive fields)
#[derive(Debug, Clone, PartialEq, Eq)]
pub struct UserProfile {
    pub id: i64,
    pub username: String,
    pub display_name: Option<String>,
    pub bio: Option<String>,
    pub image_url: Option<String>,
    pub website_url: Option<String>,
    pub country: Option<String>,
    pub scrobble_count: i64,
    pub is_private: bool,
    pub is_verified: bool,
    pub last_seen_at: Option<Timestamp>,
    pub created_at: Timestamp,
}

/// The public part of a user.
pub open spec fn profile_of(u: User) -> UserProfile {
    UserProfile {
        id: u.id,
        username: u.username,
        display_name: u.display_name,
        bio: u.bio,
        image_url: u.image_url,
        website_url: u.website_url,
        country: u.country,
        scrobble_count: u.scrobble_count,
        is_private: u.is_private,
        is_verified: u.is_verified,
        last_seen_at: u.last_seen_at,
        created_at: u.created_at,
    }
}

impl vstd::std_specs::convert::FromSpecImpl<User> for UserProfile {
    open spec fn obeys_from_spec() -> bool {
        true
    }

    open spec fn from_spec(u: User) -> UserProfile {
        profile_of(u)
    }
}

impl From<User> for UserProfile {
    fn from(u: User) -> (res: UserProfile) {
        UserProfile {
            id: u.id,
            username: u.username,
            display_name: u.display_name,
            bio: u.bio,
            image_url: u.image_url,
            website_url: u.website_url,
            country: u.country,
            scrobble_count: u.scrobble_count,
            is_private: u.is_private,
            is_verified: u.is_verified,
            last_seen_at: u.last_seen_at,
            created_at: u.created_at,
        }
    }
}

/// What a profile shows does not depend on the email address or the password
/// hash of the user.
pub proof fn law_profile_hides_credentials(u: User, v: User)
    requires
        v == (User { email: v.email, password_hash: v.password_hash, ..u }),
    ensures
        profile_of(u) == profile_of(v),
{
}

/// A profile shows everything of a user but the email address, the password hash
/// and the time of the last change.
pub proof fn law_profile_shows_the_rest(u: User)
    ensures
        ({
            let shown = profile_of(u);
            &&& shown.id == u.id
            &&& shown.username == u.username
            &&& shown.display_name == u.display_name
            &&& shown.bio == u.bio
            &&& shown.image_url == u.image_url
            &&& shown.website_url == u.website_url
            &&& shown.country == u.country
            &&& shown.scrobble_count == u.scrobble_count
            &&& shown.is_private == u.is_private
            &&& shown.is_verified == u.is_verified
            &&& shown.last_seen_at == u.last_seen_at
            &&& shown.created_at == u.created_at
        }),
{
}

/// Artist
#[derive(Debug, Clone, PartialEq, Eq)]
pub struct Artist {
    pub id: i64,
    pub name: String,
    pub name_normalized: String,
    pub mbid: Option<Uuid>,
    pub image_url: Option<String>,
    pub bio: Option<String>,
    pub scrobble_count: i64,
    pub listener_count: i64,
    pub created_at: Timestamp,
}

/// Album
#[derive(Debug, Clone, PartialEq, Eq)]
pub struct Album {
    pub id: i64,
    pub artist_id: i64,
    pub title: String,
    pub title_normalized: String,
    pub mbid: Option<Uuid>,
    pub image_url: Option<String>,
    pub release_date: Option<CalendarDate>,
    pub scrobble_count: i64,
    pub created_at: Timestamp,
}

/// Track
#[derive(Debug, Clone, PartialEq, Eq)]
pub struct Track {
    pub id: i64,
    pub artist_id: i64,
    pub album_id: Option<i64>,
    pub title: String,
    pub title_normalized: String,
    pub mbid: Option<Uuid>,
    pub duration_ms: Option<i32>,
    pub scrobble_count: i64,
    pub created_at: Timestamp,
}

/// A recorded listen
#[derive(Debug, Clone, PartialEq, Eq)]
pub struct Scrobble<S = String> {
    pub id: i64,
    pub user_id: i64,
    pub track_id: i64,
    pub artist_id: i64,
    pub album_id: Option<i64>,
    pub played_at: Timestamp,
    pub source: S,
    pub duration_ms: Option<i32>,
}

impl DeepView for Scrobble {
    type V = Scrobble<Seq<char>>;

    open spec fn deep_view(&self) -> Scrobble<Seq<char>> {
        Scrobble {
            id: self.id,
            user_id: self.user_id,
            track_id: self.track_id,
            artist_id: self.artist_id,
            album_id: self.album_id,
            played_at: self.played_at,
            source: self.source.deep_view(),
            duration_ms: self.duration_ms,
        }
    }
}

/// Rich scrobble for API responses (joined data)
#[derive(Debug, Clone, PartialEq, Eq)]
pub struct ScrobbleRich {
    pub id: i64,
    pub played_at: Timestamp,
    pub source: String,
    pub track_id: i64,
    pub track_title: String,
    pub artist_id: i64,
    pub artist_name: String,
    pub album_id: Option<i64>,
    pub album_title: Option<String>,
    pub album_image: Option<String>,
    pub duration_ms: Option<i32>,
}

/// What a user is playing, until it expires
#[derive(Debug, Clone, PartialEq, Eq)]
pub struct NowPlaying {
    pub user_id: i64,
    pub track_id: i64,
    pub artist_id: i64,
    pub album_id: Option<i64>,
    pub started_at: Timestamp,
    pub expires_at: Timestamp,
    pub source: String,
}

/// A login session
#[derive(Debug, Clone, PartialEq, Eq)]
pub struct UserSession {
    pub id: Uuid,
    pub user_id: i64,
    pub ip_address: Option<String>,
    pub user_agent: Option<String>,
    pub created_at: Timestamp,
    pub expires_at: Timestamp,
    pub last_used_at: Timestamp,
}

/// A long-lived token for programmatic access; only its hash is kept
#[derive(Debug, Clone, PartialEq, Eq)]
pub struct ApiToken {
    pub id: Uuid,
    pub user_id: i64,
    pub name: String,
    pub token_hash: String,
    pub scopes: Vec<String>,
    pub last_used_at: Option<Timestamp>,
    pub created_at: Timestamp,
    pub expires_at: Option<Timestamp>,
}

/// An artist with a play count
#[derive(Debug, Clone, PartialEq, Eq)]
pub struct TopArtist {
    pub artist_id: i64,
    pub artist_name: String,
    pub image_url: Option<String>,
    pub play_count: i64,
}

/// A track with a play count
#[derive(Debug, Clone, PartialEq, Eq)]
pub struct TopTrack {
    pub track_id: i64,
    pub track_title: String,
    pub artist_id: i64,
    pub artist_name: String,
    pub album_image: Option<String>,
    pub play_count: i64,
}

/// A user who listens to a given artist or track, with their play count.
/// Only public profiles are ever returned.
#[derive(Debug, Clone, PartialEq, Eq)]
pub struct TopListener {
    pub user_id: i64,
    pub username: String,
    pub display_name: Option<String>,
    pub image_url: Option<String>,
    pub play_count: i64,
}

/// A day of listening
#[derive(Debug, Clone, PartialEq, Eq)]
pub struct ActivityDay {
    pub day: Timestamp,
    pub scrobble_count: i64,
}

/// What a user is playing, with names and artwork
#[derive(Debug, Clone, PartialEq, Eq)]
pub struct NowPlayingRich {
    pub track_title: String,
    pub artist_name: String,
    pub album_title: Option<String>,
    pub album_image: Option<String>,
    /// Fallback artwork for clients when the album has no cover (tracks have
    /// no artwork of their own; the album cover is the track's image).
    pub artist_image: Option<String>,
    pub started_at: Timestamp,
    pub expires_at: Timestamp,
    pub source: String,
}

/// A user comment on a catalog entity, joined with the commenter's identity.
#[derive(Debug, Clone, PartialEq, Eq)]
pub struct Comment {
    pub id: i64,
    pub user_id: i64,
    pub username: String,
    pub display_name: Option<String>,
    pub image_url: Option<String>,
    pub body: String,
    pub created_at: Timestamp,
}

} // verus!
