//! Spotify Web API: the OAuth Authorization Code flow (authorize URL, token
//! exchange, refresh), and the `recently-played` and `currently-playing`
//! endpoints. Each call is a request to be sent and a reading of the reply.

use crate::providers;
use crate::providers::{HttpGet, HttpGetView};
use crate::text;
use crate::time::Timestamp;
use vstd::prelude::*;
use vstd::string::*;

verus! {

pub const STATUS_NO_CONTENT: u16 = 204;

pub const STATUS_BAD_REQUEST: u16 = 400;

pub const STATUS_UNAUTHORIZED: u16 = 401;

#[derive(Debug, PartialEq, Eq)]
pub enum SpotifyError<S = String> {
    /// The request failed, or its answer could not be decoded.
    Http(S),
    Unauthorized,
    Api(S),
}

impl DeepView for SpotifyError {
    type V = SpotifyError<Seq<char>>;

    open spec fn deep_view(&self) -> SpotifyError<Seq<char>> {
        match *self {
            SpotifyError::Http(s) => SpotifyError::Http(s@),
            SpotifyError::Unauthorized => SpotifyError::Unauthorized,
            SpotifyError::Api(s) => SpotifyError::Api(s@),
        }
    }
}

/// What the error says of itself.
pub open spec fn spotify_message(e: SpotifyError<Seq<char>>) -> Seq<char> {
    match e {
        SpotifyError::Http(s) => "http error: "@ + s,
        SpotifyError::Unauthorized => "spotify access token is invalid or expired"@,
        SpotifyError::Api(s) => "spotify returned an error: "@ + s,
    }
}

impl SpotifyError {
    /// What the error says of itself.
    pub fn message(&self) -> (res: String)
        ensures
            res@ == spotify_message(self.deep_view()),
    {
        match self {
            SpotifyError::Http(s) => text::join2("http error: ", s.as_str()),
            SpotifyError::Unauthorized => "spotify access token is invalid or expired".to_owned(),
            SpotifyError::Api(s) => text::join2("spotify returned an error: ", s.as_str()),
        }
    }
}

// ---------------------------------------------------------------------------
// The authorize URL
// ---------------------------------------------------------------------------

/// An uppercase hexadecimal digit.
pub open spec fn upper_hex_digit(d: int) -> char {
    if d < 10 {
        (48 + d) as char
    } else {
        (55 + d) as char
    }
}

/// A byte that `application/x-www-form-urlencoded` leaves as it is.
pub open spec fn form_unreserved(b: u8) -> bool {
    ||| b == 0x2a
    ||| b == 0x2d
    ||| b == 0x2e
    ||| 0x30 <= b <= 0x39
    ||| 0x41 <= b <= 0x5a
    ||| b == 0x5f
    ||| 0x61 <= b <= 0x7a
}

/// A byte in `application/x-www-form-urlencoded`: a space is a plus, and what
/// is reserved is percent-encoded.
pub open spec fn form_byte(b: u8) -> Seq<char> {
    if form_unreserved(b) {
        seq![b as char]
    } else if b == 0x20 {
        seq!['+']
    } else {
        seq!['%', upper_hex_digit(b as int / 16), upper_hex_digit(b as int % 16)]
    }
}

/// Bytes in `application/x-www-form-urlencoded`.
pub open spec fn form_bytes(bytes: Seq<u8>) -> Seq<char>
    decreases bytes.len(),
{
    if bytes.len() == 0 {
        Seq::empty()
    } else {
        form_bytes(bytes.drop_last()) + form_byte(bytes.last())
    }
}

/// A text in `application/x-www-form-urlencoded`, by its UTF-8 bytes.
pub open spec fn form_text(s: Seq<char>) -> Seq<char> {
    form_bytes(vstd::utf8::encode_utf8(s))
}

/// Parameters in `application/x-www-form-urlencoded`.
pub open spec fn form_query(pairs: Seq<(Seq<char>, Seq<char>)>) -> Seq<char>
    decreases pairs.len(),
{
    if pairs.len() == 0 {
        Seq::empty()
    } else {
        let (name, value) = pairs.last();
        let pair = form_text(name) + "="@ + form_text(value);
        if pairs.len() == 1 {
            pair
        } else {
            form_query(pairs.drop_last()) + "&"@ + pair
        }
    }
}

/// `reqwest::Url::parse` of the authorize address, then `query_pairs_mut` with
/// the parameters, in order: the address, a question mark and the parameters
/// form-encoded. Stated of the one address that it is used with, which is its
/// own normal form.
#[verifier::external_body]
fn with_query(base: &str, pairs: &Vec<(String, String)>) -> (res: String)
    requires
        base@ == "https://accounts.spotify.com/authorize"@,
    ensures
        res@ == base@ + "?"@ + form_query(pairs.deep_view()),
{
    let mut url = reqwest::Url::parse(base).expect("the authorize address is a valid URL");
    url.query_pairs_mut().extend_pairs(pairs);
    url.to_string()
}

/// The parameters of the authorize URL. The scopes are read-only: listening
/// history (scrobbles) and live playback state (now playing).
pub open spec fn authorize_params(
    client_id: Seq<char>,
    redirect_uri: Seq<char>,
    csrf_state: Seq<char>,
) -> Seq<(Seq<char>, Seq<char>)> {
    seq![
        ("client_id"@, client_id),
        ("response_type"@, "code"@),
        ("redirect_uri"@, redirect_uri),
        ("scope"@, "user-read-recently-played user-read-currently-playing"@),
        ("state"@, csrf_state),
    ]
}

/// Builds the URL to redirect the user to so they can grant access.
/// `csrf_state` should be a random, single-use, short-lived value the caller
/// stores and verifies on callback.
pub fn build_authorize_url(client_id: &str, redirect_uri: &str, csrf_state: &str) -> (res: String)
    ensures
        res@ == "https://accounts.spotify.com/authorize"@ + "?"@ + form_query(
            authorize_params(client_id@, redirect_uri@, csrf_state@),
        ),
{
    let pairs: Vec<(String, String)> = vec![
        ("client_id".to_owned(), client_id.to_owned()),
        ("response_type".to_owned(), "code".to_owned()),
        ("redirect_uri".to_owned(), redirect_uri.to_owned()),
        (
            "scope".to_owned(),
            "user-read-recently-played user-read-currently-playing".to_owned(),
        ),
        ("state".to_owned(), csrf_state.to_owned()),
    ];
    proof {
        assert(pairs.deep_view() =~= authorize_params(client_id@, redirect_uri@, csrf_state@));
    }
    with_query("https://accounts.spotify.com/authorize", &pairs)
}

// ---------------------------------------------------------------------------
// Tokens
// ---------------------------------------------------------------------------

/// A POST of a form under basic authentication.
#[derive(Debug, PartialEq, Eq)]
pub struct FormPost<S = String, F = Vec<(String, String)>> {
    pub url: S,
    pub user: S,
    pub password: S,
    pub form: F,
}

pub type FormPostView = FormPost<Seq<char>, Seq<(Seq<char>, Seq<char>)>>;

impl DeepView for FormPost {
    type V = FormPost<Seq<char>, Seq<(Seq<char>, Seq<char>)>>;

    open spec fn deep_view(&self) -> FormPost<Seq<char>, Seq<(Seq<char>, Seq<char>)>> {
        FormPost {
            url: self.url@,
            user: self.user@,
            password: self.password@,
            form: self.form.deep_view(),
        }
    }
}

/// A request to the token endpoint, as the given client, with the parameters
/// `form`.
pub open spec fn token_post(
    client_id: Seq<char>,
    client_secret: Seq<char>,
    form: Seq<(Seq<char>, Seq<char>)>,
) -> FormPostView {
    FormPost {
        url: "https://accounts.spotify.com/api/token"@,
        user: client_id,
        password: client_secret,
        form,
    }
}

/// The exchange of an authorization code for tokens.
pub open spec fn code_exchange(
    client_id: Seq<char>,
    client_secret: Seq<char>,
    code: Seq<char>,
    redirect_uri: Seq<char>,
) -> FormPostView {
    token_post(
        client_id,
        client_secret,
        seq![
            ("grant_type"@, "authorization_code"@),
            ("code"@, code),
            ("redirect_uri"@, redirect_uri),
        ],
    )
}

/// The exchange of a refresh token for a fresh access token.
pub open spec fn token_refresh(
    client_id: Seq<char>,
    client_secret: Seq<char>,
    refresh_token: Seq<char>,
) -> FormPostView {
    token_post(
        client_id,
        client_secret,
        seq![("grant_type"@, "refresh_token"@), ("refresh_token"@, refresh_token)],
    )
}

/// What a procedure asks of Spotify.
#[derive(Debug, PartialEq, Eq)]
pub enum SpotifyRequest<P = FormPost, G = HttpGet, S = String> {
    /// Ask the token endpoint.
    Tokens { post: P },
    /// Ask the API under an access token.
    Api { get: G, access_token: S },
}

pub type SpotifyRequestView = SpotifyRequest<FormPostView, HttpGetView, Seq<char>>;

impl DeepView for SpotifyRequest {
    type V = SpotifyRequest<FormPostView, HttpGetView, Seq<char>>;

    open spec fn deep_view(&self) -> SpotifyRequest<FormPostView, HttpGetView, Seq<char>> {
        match *self {
            SpotifyRequest::Tokens { post } => SpotifyRequest::Tokens { post: post.deep_view() },
            SpotifyRequest::Api { get, access_token } => SpotifyRequest::Api {
                get: get.deep_view(),
                access_token: access_token@,
            },
        }
    }
}

#[derive(Debug, PartialEq, Eq)]
pub struct SpotifyTokens<S = String> {
    pub access_token: S,
    pub refresh_token: Option<S>,
    /// Seconds until `access_token` expires, per Spotify's response.
    pub expires_in: i64,
    pub scope: S,
    pub token_type: S,
}

impl DeepView for SpotifyTokens {
    type V = SpotifyTokens<Seq<char>>;

    open spec fn deep_view(&self) -> SpotifyTokens<Seq<char>> {
        SpotifyTokens {
            access_token: self.access_token@,
            refresh_token: self.refresh_token.deep_view(),
            expires_in: self.expires_in,
            scope: self.scope@,
            token_type: self.token_type@,
        }
    }
}

/// Exchanges an authorization `code` (from the OAuth callback) for an
/// access/refresh token pair.
pub fn exchange_code(client_id: &str, client_secret: &str, code: &str, redirect_uri: &str) -> (res:
    FormPost)
    ensures
        res.deep_view() == code_exchange(client_id@, client_secret@, code@, redirect_uri@),
{
    let form: Vec<(String, String)> = vec![
        ("grant_type".to_owned(), "authorization_code".to_owned()),
        ("code".to_owned(), code.to_owned()),
        ("redirect_uri".to_owned(), redirect_uri.to_owned()),
    ];
    proof {
        assert(form.deep_view() =~= seq![
            ("grant_type"@, "authorization_code"@),
            ("code"@, code@),
            ("redirect_uri"@, redirect_uri@),
        ]);
    }
    FormPost {
        url: "https://accounts.spotify.com/api/token".to_owned(),
        user: client_id.to_owned(),
        password: client_secret.to_owned(),
        form,
    }
}

/// Exchanges a stored `refresh_token` for a fresh access token. Spotify may or
/// may not include a new `refresh_token` in the response.
pub fn refresh_access_token(client_id: &str, client_secret: &str, refresh_token: &str) -> (res:
    FormPost)
    ensures
        res.deep_view() == token_refresh(client_id@, client_secret@, refresh_token@),
{
    let form: Vec<(String, String)> = vec![
        ("grant_type".to_owned(), "refresh_token".to_owned()),
        ("refresh_token".to_owned(), refresh_token.to_owned()),
    ];
    proof {
        assert(form.deep_view() =~= seq![
            ("grant_type"@, "refresh_token"@),
            ("refresh_token"@, refresh_token@),
        ]);
    }
    FormPost {
        url: "https://accounts.spotify.com/api/token".to_owned(),
        user: client_id.to_owned(),
        password: client_secret.to_owned(),
        form,
    }
}

/// What came back from the token endpoint.
#[derive(Debug, PartialEq, Eq)]
pub enum TokenReply<S = String> {
    /// The request failed before there was a response.
    Failed { message: S },
    /// A response without success: its status and its body as text.
    Refused { status: u16, body: S },
    /// A success: what its body decodes to.
    Granted { tokens: Result<SpotifyTokens<S>, S> },
}

impl DeepView for TokenReply {
    type V = TokenReply<Seq<char>>;

    open spec fn deep_view(&self) -> TokenReply<Seq<char>> {
        match *self {
            TokenReply::Failed { message } => TokenReply::Failed { message: message@ },
            TokenReply::Refused { status, body } => TokenReply::Refused { status, body: body@ },
            TokenReply::Granted { tokens } => TokenReply::Granted {
                tokens: text::result_view(tokens),
            },
        }
    }
}

/// What a reply of the token endpoint means. A 401, and a 400 whose body says
/// `invalid_grant`, mean that the user has to authorize again.
pub open spec fn token_outcome(reply: TokenReply<Seq<char>>) -> Result<
    SpotifyTokens<Seq<char>>,
    SpotifyError<Seq<char>>,
> {
    match reply {
        TokenReply::Failed { message } => Err(SpotifyError::Http(message)),
        TokenReply::Refused { status, body } => if status == STATUS_UNAUTHORIZED || (status
            == STATUS_BAD_REQUEST && text::occurs_in(body, "invalid_grant"@)) {
            Err(SpotifyError::Unauthorized)
        } else {
            Err(SpotifyError::Api(providers::status_text(status) + ": "@ + body))
        },
        TokenReply::Granted { tokens: Ok(tokens) } => Ok(tokens),
        TokenReply::Granted { tokens: Err(error) } => Err(SpotifyError::Http(error)),
    }
}

/// Reads a reply of the token endpoint.
pub fn parse_token_response(reply: TokenReply) -> (res: Result<SpotifyTokens, SpotifyError>)
    requires
        reply matches TokenReply::Refused { status, .. } ==> 100 <= status <= 999,
    ensures
        text::result_view(res) == token_outcome(reply.deep_view()),
{
    match reply {
        TokenReply::Failed { message } => Err(SpotifyError::Http(message)),
        TokenReply::Refused { status, body } => {
            if status == STATUS_UNAUTHORIZED || (status == STATUS_BAD_REQUEST && text::contains(
                body.as_str(),
                "invalid_grant",
            )) {
                return Err(SpotifyError::Unauthorized);
            }
            let message = text::join3(providers::status_line(status).as_str(), ": ", body.as_str());
            Err(SpotifyError::Api(message))
        },
        TokenReply::Granted { tokens: Ok(tokens) } => Ok(tokens),
        TokenReply::Granted { tokens: Err(error) } => Err(SpotifyError::Http(error)),
    }
}

/// Only a genuine revocation reads as one: no network failure, no server error
/// and no other refusal does.
pub proof fn law_only_revocations_are_unauthorized(reply: TokenReply<Seq<char>>)
    ensures
        token_outcome(reply) == Err::<SpotifyTokens<Seq<char>>, SpotifyError<Seq<char>>>(
            SpotifyError::Unauthorized,
        ) <==> (reply matches TokenReply::Refused { status, body } && (status
            == STATUS_UNAUTHORIZED || (status == STATUS_BAD_REQUEST && text::occurs_in(
            body,
            "invalid_grant"@,
        )))),
{
}

// ---------------------------------------------------------------------------
// The Web API
// ---------------------------------------------------------------------------

/// What came back from the Web API.
#[derive(Debug, PartialEq, Eq)]
pub enum ApiReply<T, S = String> {
    /// The request failed before there was a response.
    Failed { message: S },
    /// A response: its status, and for a success what its body decodes to.
    Response { status: u16, body: Result<T, S> },
}

/// The status is that of a success; a 401 means that the token is no good.
pub open spec fn status_check(status: u16) -> Result<(), SpotifyError<Seq<char>>> {
    if status == STATUS_UNAUTHORIZED {
        Err(SpotifyError::Unauthorized)
    } else if !providers::is_success(status) {
        Err(SpotifyError::Api("unexpected status "@ + providers::status_text(status)))
    } else {
        Ok(())
    }
}

pub fn check_status(status: u16) -> (res: Result<(), SpotifyError>)
    requires
        100 <= status <= 999,
    ensures
        text::result_view(res) == status_check(status),
{
    if status == STATUS_UNAUTHORIZED {
        return Err(SpotifyError::Unauthorized);
    }
    if !(200 <= status && status < 300) {
        let line = providers::status_line(status);
        return Err(SpotifyError::Api(text::join2("unexpected status ", line.as_str())));
    }
    Ok(())
}

/// What a reply of the Web API brings, or why it brings nothing.
pub open spec fn api_outcome<T>(reply: ApiReply<T>) -> Result<T, SpotifyError<Seq<char>>> {
    match reply {
        ApiReply::Failed { message } => Err(SpotifyError::Http(message@)),
        ApiReply::Response { status, body } => match (status_check(status), body) {
            (Err(e), _) => Err(e),
            (Ok(()), Ok(value)) => Ok(value),
            (Ok(()), Err(error)) => Err(SpotifyError::Http(error@)),
        },
    }
}

fn read_reply<T>(reply: ApiReply<T>) -> (res: Result<T, SpotifyError>)
    requires
        reply matches ApiReply::Response { status, .. } ==> 100 <= status <= 999,
    ensures
        match res {
            Ok(value) => api_outcome(reply) == Ok::<T, SpotifyError<Seq<char>>>(value),
            Err(e) => api_outcome(reply) == Err::<T, SpotifyError<Seq<char>>>(e.deep_view()),
        },
{
    match reply {
        ApiReply::Failed { message } => Err(SpotifyError::Http(message)),
        ApiReply::Response { status, body } => match check_status(status) {
            Err(e) => Err(e),
            Ok(()) => match body {
                Ok(value) => Ok(value),
                Err(error) => Err(SpotifyError::Http(error)),
            },
        },
    }
}

/// The request for the account behind an access token.
pub open spec fn current_user_get() -> HttpGetView {
    crate::providers::get_request("https://api.spotify.com/v1/me"@, Seq::empty())
}

/// Where the account behind an access token is asked for.
pub fn current_user_request() -> (res: HttpGet)
    ensures
        res.deep_view() == current_user_get(),
{
    let query: Vec<(String, String)> = Vec::new();
    proof {
        assert(query.deep_view() =~= Seq::<(Seq<char>, Seq<char>)>::empty());
    }
    HttpGet { url: "https://api.spotify.com/v1/me".to_owned(), query }
}

/// Reads the Spotify user id of the account behind an access token, so that
/// the same external account can't be linked to two different users.
pub fn get_current_user_id(reply: ApiReply<String>) -> (res: Result<String, SpotifyError>)
    requires
        reply matches ApiReply::Response { status, .. } ==> 100 <= status <= 999,
    ensures
        match res {
            Ok(id) => api_outcome(reply) == Ok::<String, SpotifyError<Seq<char>>>(id),
            Err(e) => api_outcome(reply) == Err::<String, SpotifyError<Seq<char>>>(e.deep_view()),
        },
{
    read_reply(reply)
}

/// A track as Spotify describes it: its artists are a real list.
#[derive(Debug, PartialEq, Eq)]
pub struct SpotifyTrack<S = String, L = Vec<String>> {
    pub name: S,
    pub artists: L,
    pub album: S,
    pub duration_ms: i32,
}

impl DeepView for SpotifyTrack {
    type V = SpotifyTrack<Seq<char>, Seq<Seq<char>>>;

    open spec fn deep_view(&self) -> SpotifyTrack<Seq<char>, Seq<Seq<char>>> {
        SpotifyTrack {
            name: self.name@,
            artists: self.artists.deep_view(),
            album: self.album@,
            duration_ms: self.duration_ms,
        }
    }
}

/// The artist that a track counts under: the first of the list.
pub open spec fn main_artist(artists: Seq<Seq<char>>) -> Seq<char> {
    if artists.len() > 0 {
        artists[0]
    } else {
        Seq::empty()
    }
}

fn first_artist(artists: &Vec<String>) -> (res: String)
    ensures
        res@ == main_artist(artists.deep_view()),
{
    if artists.len() > 0 {
        proof {
            assert(artists.deep_view()[0] == artists@[0]@);
        }
        artists[0].clone()
    } else {
        String::new()
    }
}

/// A track that was played, and when.
#[derive(Debug, PartialEq, Eq)]
pub struct PlayedTrack {
    pub track: SpotifyTrack,
    pub played_at: Timestamp,
}

/// A single already-completed play, ready to become a scrobble. Spotify only
/// reports plays it already considers significant, so every item is ingested
/// as it is.
#[derive(Debug, PartialEq, Eq)]
pub struct RecentlyPlayedItem<S = String> {
    pub track_title: S,
    pub artist_name: S,
    pub album_title: Option<S>,
    pub duration_ms: i32,
    pub played_at: Timestamp,
}

impl DeepView for RecentlyPlayedItem {
    type V = RecentlyPlayedItem<Seq<char>>;

    open spec fn deep_view(&self) -> RecentlyPlayedItem<Seq<char>> {
        RecentlyPlayedItem {
            track_title: self.track_title@,
            artist_name: self.artist_name@,
            album_title: self.album_title.deep_view(),
            duration_ms: self.duration_ms,
            played_at: self.played_at,
        }
    }
}

/// The play that a played track stands for.
pub open spec fn play_of(
    track: SpotifyTrack<Seq<char>, Seq<Seq<char>>>,
    played_at: Timestamp,
) -> RecentlyPlayedItem<Seq<char>> {
    RecentlyPlayedItem {
        track_title: track.name,
        artist_name: main_artist(track.artists),
        album_title: Some(track.album),
        duration_ms: track.duration_ms,
        played_at,
    }
}

/// The parameters of a request for recent plays: up to Spotify's maximum of 50,
/// after a given unix time in milliseconds.
pub open spec fn recently_played_params(after_ms: Option<i64>) -> Seq<(Seq<char>, Seq<char>)> {
    match after_ms {
        Some(after) => seq![("limit"@, "50"@), ("after"@, text::decimal(after as int))],
        None => seq![("limit"@, "50"@)],
    }
}

/// The request for the tracks played after `after_ms`.
pub open spec fn recently_played_get(after_ms: Option<i64>) -> HttpGetView {
    crate::providers::get_request(
        "https://api.spotify.com/v1/me/player/recently-played"@,
        recently_played_params(after_ms),
    )
}

/// Asks for tracks played after `after_ms` (unix milliseconds), up to Spotify's
/// maximum of 50 per call. Pass `None` on an account's first poll.
pub fn recently_played_request(after_ms: Option<i64>) -> (res: HttpGet)
    ensures
        res.deep_view() == recently_played_get(after_ms),
{
    let mut query: Vec<(String, String)> = Vec::new();
    query.push(("limit".to_owned(), "50".to_owned()));
    if let Some(after) = after_ms {
        query.push(("after".to_owned(), text::i64_to_text(after)));
    }
    proof {
        assert(query.deep_view() =~= recently_played_params(after_ms));
    }
    HttpGet { url: "https://api.spotify.com/v1/me/player/recently-played".to_owned(), query }
}

/// The plays that a list of played tracks stands for, in order.
fn plays(items: Vec<PlayedTrack>) -> (res: Vec<RecentlyPlayedItem>)
    ensures
        res@.len() == items@.len(),
        forall|i: int|
            0 <= i < items@.len() ==> (#[trigger] res@[i]).deep_view() == play_of(
                items@[i].track.deep_view(),
                items@[i].played_at,
            ),
{
    let mut out: Vec<RecentlyPlayedItem> = Vec::new();
    for item in it: items
        invariant
            it.seq() == items@,
            out@.len() == it.index(),
            forall|i: int|
                0 <= i < it.index() ==> (#[trigger] out@[i]).deep_view() == play_of(
                    items@[i].track.deep_view(),
                    items@[i].played_at,
                ),
    {
        let artist_name = first_artist(&item.track.artists);
        out.push(
            RecentlyPlayedItem {
                track_title: item.track.name,
                artist_name,
                album_title: Some(item.track.album),
                duration_ms: item.track.duration_ms,
                played_at: item.played_at,
            },
        );
    }
    out
}

/// Reads the recent plays out of the reply.
pub fn get_recently_played(reply: ApiReply<Vec<PlayedTrack>>) -> (res: Result<
    Vec<RecentlyPlayedItem>,
    SpotifyError,
>)
    requires
        reply matches ApiReply::Response { status, .. } ==> 100 <= status <= 999,
    ensures
        match api_outcome(reply) {
            Ok(items) => res matches Ok(found) && found@.len() == items@.len() && forall|i: int|
                0 <= i < items@.len() ==> (#[trigger] found@[i]).deep_view() == play_of(
                    items@[i].track.deep_view(),
                    items@[i].played_at,
                ),
            Err(e) => res matches Err(failure) && failure.deep_view() == e,
        },
{
    match read_reply(reply) {
        Ok(items) => Ok(plays(items)),
        Err(e) => Err(e),
    }
}

/// What the user is playing right now, for the live now-playing widget.
#[derive(Debug, PartialEq, Eq)]
pub struct CurrentlyPlaying<S = String> {
    pub track_title: S,
    pub artist_name: S,
    pub album_title: Option<S>,
    pub duration_ms: i32,
    pub progress_ms: i32,
}

impl DeepView for CurrentlyPlaying {
    type V = CurrentlyPlaying<Seq<char>>;

    open spec fn deep_view(&self) -> CurrentlyPlaying<Seq<char>> {
        CurrentlyPlaying {
            track_title: self.track_title@,
            artist_name: self.artist_name@,
            album_title: self.album_title.deep_view(),
            duration_ms: self.duration_ms,
            progress_ms: self.progress_ms,
        }
    }
}

/// The playback state that Spotify reports.
#[derive(Debug, PartialEq, Eq)]
pub struct PlaybackState {
    pub is_playing: bool,
    pub progress_ms: Option<i32>,
    pub item: Option<SpotifyTrack>,
    pub currently_playing_type: String,
}

/// What is playing, given the playback state: nothing while it is paused or
/// when it is no track (such as a podcast episode).
pub open spec fn playing_of(state: PlaybackState) -> Option<CurrentlyPlaying<Seq<char>>> {
    match state.item {
        Some(item) => if state.is_playing && state.currently_playing_type@ == "track"@ {
            Some(
                CurrentlyPlaying {
                    track_title: item.name@,
                    artist_name: main_artist(item.artists.deep_view()),
                    album_title: Some(item.album@),
                    duration_ms: item.duration_ms,
                    progress_ms: match state.progress_ms {
                        Some(ms) => ms,
                        None => 0,
                    },
                },
            )
        } else {
            None
        },
        None => None,
    }
}

/// The request for the playback state.
pub open spec fn currently_playing_get() -> HttpGetView {
    crate::providers::get_request(
        "https://api.spotify.com/v1/me/player/currently-playing"@,
        Seq::empty(),
    )
}

/// Where the playback state is asked for.
pub fn currently_playing_request() -> (res: HttpGet)
    ensures
        res.deep_view() == currently_playing_get(),
{
    let query: Vec<(String, String)> = Vec::new();
    proof {
        assert(query.deep_view() =~= Seq::<(Seq<char>, Seq<char>)>::empty());
    }
    HttpGet { url: "https://api.spotify.com/v1/me/player/currently-playing".to_owned(), query }
}

/// Reads what the user is playing right now. `None` when nothing is playing
/// (Spotify's 204), playback is paused, or the current item isn't a track.
pub fn get_currently_playing(reply: ApiReply<PlaybackState>) -> (res: Result<
    Option<CurrentlyPlaying>,
    SpotifyError,
>)
    requires
        reply matches ApiReply::Response { status, .. } ==> 100 <= status <= 999,
    ensures
        text::result_view(res) == (match reply {
            ApiReply::Response { status, .. } if status == STATUS_NO_CONTENT => Ok(None),
            _ => match api_outcome(reply) {
                Ok(state) => Ok(playing_of(state)),
                Err(e) => Err(e),
            },
        }),
{
    if let ApiReply::Response { status, .. } = &reply {
        if *status == STATUS_NO_CONTENT {
            return Ok(None);
        }
    }
    let state = match read_reply(reply) {
        Ok(state) => state,
        Err(e) => return Err(e),
    };
    if !state.is_playing || !state.currently_playing_type.as_str().eq("track") {
        return Ok(None);
    }
    match state.item {
        Some(item) => {
            let artist_name = first_artist(&item.artists);
            Ok(
                Some(
                    CurrentlyPlaying {
                        track_title: item.name,
                        artist_name,
                        album_title: Some(item.album),
                        duration_ms: item.duration_ms,
                        progress_ms: match state.progress_ms {
                            Some(ms) => ms,
                            None => 0,
                        },
                    },
                ),
            )
        },
        None => Ok(None),
    }
}

// ---------------------------------------------------------------------------
// Laws
// ---------------------------------------------------------------------------

/// What a failure to talk to Spotify says.
pub proof fn law_spotify_messages(s: Seq<char>)
    ensures
        spotify_message(SpotifyError::Http(s)) == "http error: "@ + s,
        spotify_message(SpotifyError::Unauthorized)
            == "spotify access token is invalid or expired"@,
        spotify_message(SpotifyError::Api(s)) == "spotify returned an error: "@ + s,
{
}

/// The user is asked to grant the reading of recent and current plays, and nothing
/// else, to our client; the answer comes back to our address with our state.
pub proof fn law_what_the_user_is_asked_to_grant(
    client_id: Seq<char>,
    redirect_uri: Seq<char>,
    csrf_state: Seq<char>,
)
    ensures
        ({
            let params = authorize_params(client_id, redirect_uri, csrf_state);
            &&& params.len() == 5
            &&& params[0] == ("client_id"@, client_id)
            &&& params[1] == ("response_type"@, "code"@)
            &&& params[2] == ("redirect_uri"@, redirect_uri)
            &&& params[3] == ("scope"@, "user-read-recently-played user-read-currently-playing"@)
            &&& params[4] == ("state"@, csrf_state)
        }),
{
}

/// Tokens are asked for at the token endpoint, as our client, with the code and
/// the address it came back to, or with the refresh token.
pub proof fn law_token_requests(
    client_id: Seq<char>,
    client_secret: Seq<char>,
    code: Seq<char>,
    redirect_uri: Seq<char>,
    refresh_token: Seq<char>,
)
    ensures
        ({
            let exchange = code_exchange(client_id, client_secret, code, redirect_uri);
            let refresh = token_refresh(client_id, client_secret, refresh_token);
            &&& exchange.url == "https://accounts.spotify.com/api/token"@
            &&& exchange.user == client_id
            &&& exchange.password == client_secret
            &&& exchange.form == seq![
                ("grant_type"@, "authorization_code"@),
                ("code"@, code),
                ("redirect_uri"@, redirect_uri),
            ]
            &&& refresh.url == exchange.url
            &&& refresh.user == client_id
            &&& refresh.password == client_secret
            &&& refresh.form == seq![
                ("grant_type"@, "refresh_token"@),
                ("refresh_token"@, refresh_token),
            ]
        }),
{
}

/// What is asked of the Web API: whose account it is, what was played since a given
/// instant, 50 plays at most, and what is playing now.
pub proof fn law_api_requests(after_ms: i64)
    ensures
        current_user_get().url == "https://api.spotify.com/v1/me"@,
        current_user_get().query == Seq::<(Seq<char>, Seq<char>)>::empty(),
        recently_played_get(Some(after_ms)).url
            == "https://api.spotify.com/v1/me/player/recently-played"@,
        recently_played_get(Some(after_ms)).query == seq![
            ("limit"@, "50"@),
            ("after"@, text::decimal(after_ms as int)),
        ],
        recently_played_get(None).url == "https://api.spotify.com/v1/me/player/recently-played"@,
        recently_played_get(None).query == seq![("limit"@, "50"@)],
        currently_playing_get().url == "https://api.spotify.com/v1/me/player/currently-playing"@,
        currently_playing_get().query == Seq::<(Seq<char>, Seq<char>)>::empty(),
{
}

/// What the token endpoint grants is taken as it is; what fails on the way, or
/// cannot be read, is a failure of the connection; and a refusal that is no
/// revocation is told with its status and its body.
pub proof fn law_token_replies(
    tokens: SpotifyTokens<Seq<char>>,
    message: Seq<char>,
    status: u16,
    body: Seq<char>,
)
    ensures
        token_outcome(TokenReply::Granted { tokens: Ok(tokens) }) == Ok::<
            SpotifyTokens<Seq<char>>,
            SpotifyError<Seq<char>>,
        >(tokens),
        token_outcome(TokenReply::Granted { tokens: Err(message) }) == Err::<
            SpotifyTokens<Seq<char>>,
            SpotifyError<Seq<char>>,
        >(SpotifyError::Http(message)),
        token_outcome(TokenReply::Failed { message }) == Err::<
            SpotifyTokens<Seq<char>>,
            SpotifyError<Seq<char>>,
        >(SpotifyError::Http(message)),
        status == 401 || (status == 400 && text::occurs_in(body, "invalid_grant"@)) ==>
            token_outcome(TokenReply::Refused { status, body }) == Err::<
            SpotifyTokens<Seq<char>>,
            SpotifyError<Seq<char>>,
        >(SpotifyError::Unauthorized),
        status != 401 && !(status == 400 && text::occurs_in(body, "invalid_grant"@)) ==>
            token_outcome(TokenReply::Refused { status, body }) == Err::<
            SpotifyTokens<Seq<char>>,
            SpotifyError<Seq<char>>,
        >(SpotifyError::Api(providers::status_text(status) + ": "@ + body)),
{
}

/// A reply of the Web API brings something exactly when its status is one of
/// success and its body can be read; a 401 means that the token is no good.
pub proof fn law_api_replies<T>(status: u16, value: T, error: String)
    ensures
        200 <= status < 300 ==> api_outcome(ApiReply::Response { status, body: Ok(value) }) == Ok::<
            T,
            SpotifyError<Seq<char>>,
        >(value),
        200 <= status < 300 ==> api_outcome(
            ApiReply::<T>::Response { status, body: Err(error) },
        ) == Err::<T, SpotifyError<Seq<char>>>(SpotifyError::Http(error@)),
        api_outcome(ApiReply::<T>::Failed { message: error }) == Err::<T, SpotifyError<Seq<char>>>(
            SpotifyError::Http(error@),
        ),
        forall|body: Result<T, String>|
            status == 401 ==> #[trigger] api_outcome(ApiReply::Response { status, body }) == Err::<
                T,
                SpotifyError<Seq<char>>,
            >(SpotifyError::Unauthorized),
        forall|body: Result<T, String>|
            status != 401 && !(200 <= status < 300) ==> #[trigger] api_outcome(
                ApiReply::Response { status, body },
            ) == Err::<T, SpotifyError<Seq<char>>>(
                SpotifyError::Api("unexpected status "@ + providers::status_text(status)),
            ),
        STATUS_NO_CONTENT == 204,
{
}

/// A play is read off the track that was played: its title, the first of its
/// artists, its album, its length and when it was played.
pub proof fn law_plays_are_read_off_the_track(
    track: SpotifyTrack<Seq<char>, Seq<Seq<char>>>,
    played_at: Timestamp,
)
    ensures
        ({
            let play = play_of(track, played_at);
            &&& play.track_title == track.name
            &&& track.artists.len() > 0 ==> play.artist_name == track.artists[0]
            &&& track.artists.len() == 0 ==> play.artist_name == Seq::<char>::empty()
            &&& play.album_title == Some(track.album)
            &&& play.duration_ms == track.duration_ms
            &&& play.played_at == played_at
        }),
{
}

/// Something is playing exactly when it is a track and it is not paused; it is read
/// off that track, with how far it has come, or none of it where that is not said.
pub proof fn law_what_is_playing(state: PlaybackState)
    ensures
        playing_of(state) is Some <==> state.is_playing && state.currently_playing_type@
            == "track"@ && state.item is Some,
        playing_of(state) matches Some(playing) ==> {
            let track = state.item->0;
            &&& playing.track_title == track.name@
            &&& track.artists@.len() > 0 ==> playing.artist_name == track.artists@[0]@
            &&& track.artists@.len() == 0 ==> playing.artist_name == Seq::<char>::empty()
            &&& playing.album_title == Some(track.album@)
            &&& playing.duration_ms == track.duration_ms
            &&& state.progress_ms matches Some(ms) ==> playing.progress_ms == ms
            &&& state.progress_ms is None ==> playing.progress_ms == 0
        },
{
    if let Some(track) = state.item {
        if track.artists@.len() > 0 {
            assert(track.artists.deep_view()[0] == track.artists@[0]@);
        }
        assert(track.artists.deep_view().len() == track.artists@.len());
    }
}

/// The account behind a token is the one that the reply names, and the plays are
/// those that it lists, one by one and in order.
pub proof fn law_replies_are_read(
    id: String,
    whose: Result<String, SpotifyError>,
    items: Vec<PlayedTrack>,
    found: Result<Vec<RecentlyPlayedItem>, SpotifyError>,
)
    requires
        call_ensures(
            get_current_user_id,
            (ApiReply::Response { status: 200, body: Ok::<String, String>(id) },),
            whose,
        ),
        call_ensures(
            get_recently_played,
            (ApiReply::Response { status: 200, body: Ok::<Vec<PlayedTrack>, String>(items) },),
            found,
        ),
    ensures
        whose == Ok::<String, SpotifyError>(id),
        found matches Ok(plays) && plays@.len() == items@.len() && forall|i: int|
            0 <= i < items@.len() ==> {
                let play = #[trigger] plays@[i];
                &&& play.track_title@ == items@[i].track.name@
                &&& play.duration_ms == items@[i].track.duration_ms
                &&& play.played_at == items@[i].played_at
            },
{
    let plays = found->Ok_0;
    assert forall|i: int| 0 <= i < items@.len() implies {
        let play = #[trigger] plays@[i];
        &&& play.track_title@ == items@[i].track.name@
        &&& play.duration_ms == items@[i].track.duration_ms
        &&& play.played_at == items@[i].played_at
    } by {
        assert(plays@[i].deep_view() == play_of(
            items@[i].track.deep_view(),
            items@[i].played_at,
        ));
    }
}

/// Nothing is playing when Spotify has no content to give; else what its reply says
/// is, unless the reply is a failure.
pub proof fn law_current_playback(
    body: Result<PlaybackState, String>,
    quiet: Result<Option<CurrentlyPlaying>, SpotifyError>,
    state: PlaybackState,
    heard: Result<Option<CurrentlyPlaying>, SpotifyError>,
    refused: Result<Option<CurrentlyPlaying>, SpotifyError>,
)
    requires
        call_ensures(
            get_currently_playing,
            (ApiReply::Response { status: 204, body },),
            quiet,
        ),
        call_ensures(
            get_currently_playing,
            (ApiReply::Response { status: 200, body: Ok::<PlaybackState, String>(state) },),
            heard,
        ),
        call_ensures(
            get_currently_playing,
            (ApiReply::Response { status: 401, body },),
            refused,
        ),
    ensures
        quiet matches Ok(None),
        heard matches Ok(playing) && playing.deep_view() == playing_of(state),
        refused matches Err(e) && e is Unauthorized,
{
    assert(text::result_view(heard) == Ok::<
        Option<CurrentlyPlaying<Seq<char>>>,
        SpotifyError<Seq<char>>,
    >(playing_of(state)));
    assert(text::result_view(refused) == Err::<
        Option<CurrentlyPlaying<Seq<char>>>,
        SpotifyError<Seq<char>>,
    >(SpotifyError::Unauthorized));
    assert(text::result_view(quiet) == Ok::<
        Option<CurrentlyPlaying<Seq<char>>>,
        SpotifyError<Seq<char>>,
    >(None));
}

} // verus!
