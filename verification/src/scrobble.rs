//! The rules by which a listen counts as a scrobble.

use crate::models::Scrobble;
use crate::text;
use crate::time;
use crate::time::Timestamp;
use vstd::prelude::*;
use vstd::string::*;

verus! {

/// Minimum listened duration to count as a valid scrobble (ms).
pub const MIN_LISTEN_MS: i32 = 30_000;

/// Two plays of one track closer than this are one listen (s).
pub const DUPLICATE_WINDOW_SECS: i64 = 30;

#[derive(Debug, Clone, Copy, PartialEq, Eq, Structural)]
pub enum ScrobbleValidationError {
    MissingTitle,
    MissingArtist,
    FutureTimestamp,
    TooShort,
}

impl DeepView for ScrobbleValidationError {
    type V = ScrobbleValidationError;

    open spec fn deep_view(&self) -> ScrobbleValidationError {
        *self
    }
}

/// The message that goes with a validation error.
pub open spec fn validation_message(e: ScrobbleValidationError) -> Seq<char> {
    match e {
        ScrobbleValidationError::MissingTitle => "track title is required"@,
        ScrobbleValidationError::MissingArtist => "artist name is required"@,
        ScrobbleValidationError::FutureTimestamp => "played_at timestamp is in the future"@,
        ScrobbleValidationError::TooShort => "listen duration too short to scrobble"@,
    }
}

impl ScrobbleValidationError {
    /// The message that goes with the error.
    pub fn message(&self) -> (res: String)
        ensures
            res@ == validation_message(*self),
    {
        match self {
            ScrobbleValidationError::MissingTitle => "track title is required".to_owned(),
            ScrobbleValidationError::MissingArtist => "artist name is required".to_owned(),
            ScrobbleValidationError::FutureTimestamp => {
                "played_at timestamp is in the future".to_owned()
            },
            ScrobbleValidationError::TooShort => "listen duration too short to scrobble".to_owned(),
        }
    }
}

/// Input coming from the client before any look-ups.
#[derive(Debug, Clone, PartialEq, Eq)]
pub struct ScrobbleInput<S = String> {
    pub track_title: S,
    pub artist_name: S,
    pub album_title: Option<S>,
    pub played_at: Timestamp,
    pub duration_ms: Option<i32>,
    /// How long the user actually listened (may be less than full track).
    pub listened_ms: Option<i32>,
    pub source: S,
}

impl DeepView for ScrobbleInput {
    type V = ScrobbleInput<Seq<char>>;

    open spec fn deep_view(&self) -> ScrobbleInput<Seq<char>> {
        ScrobbleInput {
            track_title: self.track_title@,
            artist_name: self.artist_name@,
            album_title: self.album_title.deep_view(),
            played_at: self.played_at,
            duration_ms: self.duration_ms,
            listened_ms: self.listened_ms,
            source: self.source@,
        }
    }
}

/// The user listened long enough: at least 30 seconds, or at least half of a
/// track whose duration is known. A listen of unknown length is taken as long
/// enough.
pub open spec fn listened_enough(listened_ms: Option<i32>, duration_ms: Option<i32>) -> bool {
    match listened_ms {
        Some(listened) => {
            ||| listened >= MIN_LISTEN_MS
            ||| duration_ms matches Some(duration) && duration > 0 && 2 * listened >= duration
        },
        None => true,
    }
}

/// What the scrobble rules say of `input` when the clock shows `now`. The
/// first rule that is broken names the error.
pub open spec fn validation(input: ScrobbleInput<Seq<char>>, now: Timestamp) -> Result<
    (),
    ScrobbleValidationError,
> {
    if text::is_blank(input.track_title) {
        Err(ScrobbleValidationError::MissingTitle)
    } else if text::is_blank(input.artist_name) {
        Err(ScrobbleValidationError::MissingArtist)
    } else if input.played_at.later_than(now) {
        Err(ScrobbleValidationError::FutureTimestamp)
    } else if !listened_enough(input.listened_ms, input.duration_ms) {
        Err(ScrobbleValidationError::TooShort)
    } else {
        Ok(())
    }
}

/// The scrobble rules at a given time.
pub fn validate_at(input: &ScrobbleInput, now: &Timestamp) -> (res: Result<
    (),
    ScrobbleValidationError,
>)
    ensures
        res == validation(input.deep_view(), *now),
{
    proof {
        text::law_trimmed_empty_iff_blank(input.track_title@);
        text::law_trimmed_empty_iff_blank(input.artist_name@);
    }
    if input.track_title.as_str().trim().is_empty() {
        return Err(ScrobbleValidationError::MissingTitle);
    }
    if input.artist_name.as_str().trim().is_empty() {
        return Err(ScrobbleValidationError::MissingArtist);
    }
    if input.played_at.is_later_than(now) {
        return Err(ScrobbleValidationError::FutureTimestamp);
    }
    // Duration check only when we know how long they listened.
    if let Some(listened_ms) = input.listened_ms {
        let passes_absolute: bool = listened_ms >= MIN_LISTEN_MS;
        let passes_relative: bool = match input.duration_ms {
            Some(d) => d > 0 && listened_ms as i64 * 2 >= d as i64,
            None => false,
        };
        if !passes_absolute && !passes_relative {
            return Err(ScrobbleValidationError::TooShort);
        }
    }
    Ok(())
}

/// Validates raw scrobble input from the client against the clock.
/// Returns `Ok(())` when the scrobble meets last.fm-style rules:
///   - Track and artist must be non-empty
///   - `played_at` must not be in the future
///   - Listened at least 30 s or at least half of the track duration
pub fn validate(input: &ScrobbleInput) -> (res: Result<(), ScrobbleValidationError>)
    ensures
        exists|now: Timestamp|
            now.wf() && now.plain() && now.secs >= 0 && res == #[trigger] validation(
                input.deep_view(),
                now,
            ),
{
    let now = time::now();
    validate_at(input, &now)
}

/// The second play comes less than 30 seconds before or after the first.
pub open spec fn within_duplicate_window(played_at: Timestamp, previous: Timestamp) -> bool {
    -DUPLICATE_WINDOW_SECS < time::seconds_between(played_at, previous) < DUPLICATE_WINDOW_SECS
}

/// Whether the second play comes less than 30 seconds before or after the
/// first.
pub fn plays_within_window(played_at: &Timestamp, previous: &Timestamp) -> (res: bool)
    requires
        played_at.wf(),
        previous.wf(),
    ensures
        res == within_duplicate_window(*played_at, *previous),
{
    let delta: i64 = time::num_seconds_between(*played_at, *previous);
    -DUPLICATE_WINDOW_SECS < delta && delta < DUPLICATE_WINDOW_SECS
}

/// The new play repeats `previous`: same track within 30 seconds of the
/// previous one.
pub open spec fn repeats(
    previous: Scrobble<Seq<char>>,
    new_track_id: i64,
    new_played_at: Timestamp,
) -> bool {
    previous.track_id == new_track_id && within_duplicate_window(new_played_at, previous.played_at)
}

/// Returns `true` if the new scrobble is a duplicate of `previous`.
/// Duplicate = same track within 30 seconds of the previous one.
pub fn is_duplicate(previous: &Scrobble, new_track_id: i64, new_played_at: Timestamp) -> (res: bool)
    requires
        previous.played_at.wf(),
        new_played_at.wf(),
    ensures
        res == repeats(previous.deep_view(), new_track_id, new_played_at),
{
    if previous.track_id != new_track_id {
        return false;
    }
    plays_within_window(&new_played_at, &previous.played_at)
}

/// A name reduced to what tells two catalog entries apart.
pub open spec fn normalized(name: Seq<char>) -> Seq<char> {
    text::lowercase(text::trimmed(name))
}

/// Normalize a name for deduplication: trimmed and in lowercase.
/// Real unaccent happens in Postgres; this mirrors the logic for in-process
/// checks.
pub fn normalize_name(name: &str) -> (res: String)
    ensures
        res@ == normalized(name@),
{
    name.trim().to_lowercase()
}

/// Whether two names are the same once normalized.
pub fn same_name(a: &str, b: &str) -> (res: bool)
    ensures
        res == (normalized(a@) == normalized(b@)),
{
    let a = normalize_name(a);
    let b = normalize_name(b);
    a == b
}

/// White space around a name does not tell entries apart.
pub proof fn law_normalized_ignores_padding(name: Seq<char>)
    ensures
        normalized(text::trimmed(name)) == normalized(name),
{
    text::law_trimmed_idempotent(name);
}

/// Two ASCII texts are the same but for the case of their letters.
pub open spec fn same_but_for_case(a: Seq<char>, b: Seq<char>) -> bool {
    &&& a.len() == b.len()
    &&& forall|i: int|
        0 <= i < a.len() ==> text::ascii_lower_char(#[trigger] a[i]) == text::ascii_lower_char(b[i])
}

proof fn lemma_trimmed_ascii(name: Seq<char>)
    requires
        text::ascii_only(name),
    ensures
        text::ascii_only(text::trimmed(name)),
{
    text::law_trimmed_is_a_part(name);
    assert forall|i: int| 0 <= i < text::trimmed(name).len() implies #[trigger] text::trimmed(
        name,
    )[i] <= '\u{7f}' by {
        let k = choose|k: int| 0 <= k < name.len() && name[k] == text::trimmed(name)[i];
        assert(name[k] <= '\u{7f}');
    }
}

/// ASCII names tell entries apart by their letters alone: not by the case of
/// them, nor by white space around them.
pub proof fn law_ascii_names_ignore_case(a: Seq<char>, b: Seq<char>)
    requires
        text::ascii_only(a),
        text::ascii_only(b),
    ensures
        normalized(a) == normalized(b) <==> same_but_for_case(text::trimmed(a), text::trimmed(b)),
{
    lemma_trimmed_ascii(a);
    lemma_trimmed_ascii(b);
    let x = text::trimmed(a);
    let y = text::trimmed(b);
    if normalized(a) == normalized(b) {
        assert(text::ascii_lower(x).len() == text::ascii_lower(y).len());
        assert forall|i: int| 0 <= i < x.len() implies text::ascii_lower_char(#[trigger] x[i])
            == text::ascii_lower_char(y[i]) by {
            assert(text::ascii_lower(x)[i] == text::ascii_lower(y)[i]);
        }
    }
    if same_but_for_case(x, y) {
        assert(text::ascii_lower(x) =~= text::ascii_lower(y));
    }
}

/// Normalizing an ASCII name twice is normalizing it once.
pub proof fn law_normalizing_an_ascii_name_twice(name: Seq<char>)
    requires
        text::ascii_only(name),
    ensures
        normalized(normalized(name)) == normalized(name),
{
    lemma_trimmed_ascii(name);
    text::law_trimmed_ends(name);
    let short = text::trimmed(name);
    let once = normalized(name);
    assert(once == text::ascii_lower(short));
    assert forall|i: int| 0 <= i < once.len() implies #[trigger] once[i] <= '\u{7f}' && (
    text::is_white_space(once[i]) ==> text::is_white_space(short[i])) by {
        assert(short[i] <= '\u{7f}');
    }
    assert(text::trimmed(once) == once);
    assert(text::ascii_only(once));
    assert(text::ascii_lower(once) =~= once) by {
        assert forall|i: int| 0 <= i < once.len() implies text::ascii_lower_char(
            #[trigger] once[i],
        ) == once[i] by {
            assert(once[i] == text::ascii_lower_char(short[i]));
        }
    }
}

/// Listening longer never turns a valid scrobble into an invalid one.
pub proof fn law_listening_longer_stays_valid(
    input: ScrobbleInput<Seq<char>>,
    longer_ms: i32,
    now: Timestamp,
)
    requires
        validation(input, now) is Ok,
        input.listened_ms matches Some(listened) && listened <= longer_ms,
    ensures
        validation(
            (ScrobbleInput { listened_ms: Some(longer_ms), ..input }),
            now,
        ) is Ok,
{
}

/// A scrobble that is valid stays valid as time passes.
pub proof fn law_validity_outlasts_the_clock(
    input: ScrobbleInput<Seq<char>>,
    earlier: Timestamp,
    later: Timestamp,
)
    requires
        validation(input, earlier) is Ok,
        !earlier.later_than(later),
    ensures
        validation(input, later) is Ok,
{
}

/// A track of known positive duration that was played to its end always
/// clears the listening threshold.
pub proof fn law_full_play_is_long_enough(duration_ms: i32)
    requires
        duration_ms > 0,
    ensures
        listened_enough(Some(duration_ms), Some(duration_ms)),
{
}

/// Which of two plays came first does not matter to the duplicate window.
pub proof fn law_duplicate_window_symmetric(a: Timestamp, b: Timestamp)
    ensures
        within_duplicate_window(a, b) == within_duplicate_window(b, a),
{
    time::law_seconds_between_antisymmetric(a, b);
}

/// A scrobble counts exactly when its title and its artist hold more than white
/// space, it was not played after now, and the listen was of unknown length, 30
/// seconds long or half of a track whose length is known.
pub proof fn law_scrobble_rules(input: ScrobbleInput<Seq<char>>, now: Timestamp)
    ensures
        validation(input, now) is Ok <==> {
            &&& exists|i: int|
                0 <= i < input.track_title.len() && !text::is_white_space(
                    #[trigger] input.track_title[i],
                )
            &&& exists|i: int|
                0 <= i < input.artist_name.len() && !text::is_white_space(
                    #[trigger] input.artist_name[i],
                )
            &&& input.played_at.secs < now.secs || (input.played_at.secs == now.secs
                && input.played_at.nanos <= now.nanos)
            &&& input.listened_ms matches Some(listened) ==> listened >= 30_000 || (
            input.duration_ms matches Some(duration) && 0 < duration <= 2 * listened)
        },
{
}

/// Which error a scrobble is refused with: the first that applies of a missing
/// title, a missing artist, a play in the future and a listen that is too short.
pub proof fn law_first_broken_rule_is_named(input: ScrobbleInput<Seq<char>>, now: Timestamp)
    ensures
        ({
            let no_title = forall|i: int|
                0 <= i < input.track_title.len() ==> text::is_white_space(
                    #[trigger] input.track_title[i],
                );
            let no_artist = forall|i: int|
                0 <= i < input.artist_name.len() ==> text::is_white_space(
                    #[trigger] input.artist_name[i],
                );
            let refused = |e: ScrobbleValidationError|
                validation(input, now) == Err::<(), ScrobbleValidationError>(e);
            let future = input.played_at.later_than(now);
            &&& refused(ScrobbleValidationError::MissingTitle) <==> no_title
            &&& refused(ScrobbleValidationError::MissingArtist) <==> !no_title && no_artist
            &&& refused(ScrobbleValidationError::FutureTimestamp) <==> !no_title && !no_artist
                && future
            &&& refused(ScrobbleValidationError::TooShort) <==> !no_title && !no_artist && !future
                && validation(input, now) is Err
        }),
{
}

/// What a refused scrobble is told.
pub proof fn law_validation_messages()
    ensures
        validation_message(ScrobbleValidationError::MissingTitle) == "track title is required"@,
        validation_message(ScrobbleValidationError::MissingArtist) == "artist name is required"@,
        validation_message(ScrobbleValidationError::FutureTimestamp)
            == "played_at timestamp is in the future"@,
        validation_message(ScrobbleValidationError::TooShort)
            == "listen duration too short to scrobble"@,
{
}

/// Outside leap seconds, a play repeats another exactly when it is of the same
/// track and less than 30 seconds away, before or after.
pub proof fn law_repeats_are_close_plays_of_one_track(
    previous: Scrobble<Seq<char>>,
    track_id: i64,
    played_at: Timestamp,
)
    requires
        previous.played_at.plain(),
        played_at.plain(),
    ensures
        repeats(previous, track_id, played_at) <==> {
            &&& previous.track_id == track_id
            &&& -30_000_000_000 < played_at.total_nanos() - previous.played_at.total_nanos()
                < 30_000_000_000
        },
{
    let apart = time::nanos_between(played_at, previous.played_at);
    assert(apart == played_at.total_nanos() - previous.played_at.total_nanos());
}

/// A normalized name is the trimmed name in lowercase: of an ASCII name, the same
/// characters with each capital letter replaced by its small one.
pub proof fn law_normalized_ascii_characters(name: Seq<char>)
    requires
        text::ascii_only(name),
    ensures
        normalized(name).len() == text::trimmed(name).len(),
        forall|i: int|
            0 <= i < normalized(name).len() ==> {
                let c = text::trimmed(name)[i];
                #[trigger] normalized(name)[i] == if 'A' <= c <= 'Z' {
                    (c as u32 + 32) as char
                } else {
                    c
                }
            },
{
    lemma_trimmed_ascii(name);
}

/// What is found wrong with a listen, by its own fields: see [`validate_at`].
pub proof fn law_validated_listens(
    input: &ScrobbleInput,
    now: &Timestamp,
    res: Result<(), ScrobbleValidationError>,
)
    requires
        call_ensures(validate_at, (input, now), res),
    ensures
        res is Ok <==> {
            &&& text::trimmed(input.track_title@).len() > 0
            &&& text::trimmed(input.artist_name@).len() > 0
            &&& !input.played_at.later_than(*now)
            &&& input.listened_ms matches Some(listened) ==> listened >= 30_000 || (
            input.duration_ms matches Some(duration) && 0 < duration <= 2 * listened)
        },
        text::trimmed(input.track_title@).len() == 0 ==> res == Err::<
            (),
            ScrobbleValidationError,
        >(ScrobbleValidationError::MissingTitle),
        text::trimmed(input.track_title@).len() > 0 && text::trimmed(input.artist_name@).len() == 0
            ==> res == Err::<(), ScrobbleValidationError>(ScrobbleValidationError::MissingArtist),
{
    text::law_trimmed_empty_iff_blank(input.track_title@);
    text::law_trimmed_empty_iff_blank(input.artist_name@);
}

/// A play is a duplicate exactly when it repeats the track of the previous one
/// within 30 seconds; names are the same exactly when they are once normalized.
pub proof fn law_duplicates_and_names(
    previous: &Scrobble,
    track_id: i64,
    played_at: Timestamp,
    duplicate: bool,
    a: &str,
    b: &str,
    same: bool,
)
    requires
        call_ensures(is_duplicate, (previous, track_id, played_at), duplicate),
        call_ensures(same_name, (a, b), same),
        previous.played_at.plain(),
        played_at.plain(),
    ensures
        duplicate <==> previous.track_id == track_id && -30_000_000_000 < played_at.total_nanos()
            - previous.played_at.total_nanos() < 30_000_000_000,
        same <==> normalized(a@) == normalized(b@),
{
    law_repeats_are_close_plays_of_one_track(previous.deep_view(), track_id, played_at);
}

} // verus!
