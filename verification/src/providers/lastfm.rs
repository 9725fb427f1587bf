//! Last.fm: artist biographies. Optional: enabled only when an API key is
//! configured; without it the bio field simply stays empty.

use super::{HttpGet, ProviderError, ProviderResult};
use crate::ids;
use crate::ids::Uuid;
use crate::text;
use vstd::prelude::*;
use vstd::string::*;

verus! {

/// Last.fm error code for rate limiting.
pub const RATE_LIMITED: i32 = 29;

/// Last.fm error code for "artist not found".
pub const NOT_FOUND: i32 = 6;

/// Cooldown after Last.fm reports rate limiting (s).
pub const COOLDOWN_SECS: u64 = 60;

#[derive(Debug, PartialEq, Eq)]
pub struct ArtistInfoResponse<S = String> {
    pub artist: Option<ArtistInfo<S>>,
    pub error: Option<i32>,
    pub message: Option<S>,
}

#[derive(Debug, PartialEq, Eq)]
pub struct ArtistInfo<S = String> {
    pub bio: Option<Bio<S>>,
}

#[derive(Debug, PartialEq, Eq)]
pub struct Bio<S = String> {
    pub summary: Option<S>,
}

impl DeepView for Bio {
    type V = Bio<Seq<char>>;

    open spec fn deep_view(&self) -> Bio<Seq<char>> {
        Bio { summary: self.summary.deep_view() }
    }
}

impl DeepView for ArtistInfo {
    type V = ArtistInfo<Seq<char>>;

    open spec fn deep_view(&self) -> ArtistInfo<Seq<char>> {
        ArtistInfo { bio: self.bio.deep_view() }
    }
}

impl DeepView for ArtistInfoResponse {
    type V = ArtistInfoResponse<Seq<char>>;

    open spec fn deep_view(&self) -> ArtistInfoResponse<Seq<char>> {
        ArtistInfoResponse {
            artist: self.artist.deep_view(),
            error: self.error,
            message: self.message.deep_view(),
        }
    }
}

/// The parameters of a request for an artist's biography: by MBID where there
/// is one (exact), else by name.
pub open spec fn bio_params(api_key: Seq<char>, name: Seq<char>, mbid: Option<Uuid>) -> Seq<
    (Seq<char>, Seq<char>),
> {
    seq![
        ("method"@, "artist.getinfo"@),
        ("api_key"@, api_key),
        ("format"@, "json"@),
        ("autocorrect"@, "1"@),
        match mbid {
            Some(m) => ("mbid"@, ids::hyphenated(m)),
            None => ("artist"@, name),
        },
    ]
}

/// A request for an artist's biography.
pub open spec fn bio_request(
    api_key: Seq<char>,
    name: Seq<char>,
    mbid: Option<Uuid>,
) -> super::HttpGetView {
    super::get_request("https://ws.audioscrobbler.com/2.0/"@, bio_params(api_key, name, mbid))
}

/// Asks for an artist bio summary. Prefers MBID lookup when available (exact),
/// falling back to name matching on Last.fm's side.
pub fn artist_bio(api_key: &str, name: &str, mbid: Option<Uuid>) -> (res: HttpGet)
    ensures
        res.deep_view() == bio_request(api_key@, name@, mbid),
{
    let who: (String, String) = match mbid {
        Some(m) => ("mbid".to_owned(), ids::uuid_text(m)),
        None => ("artist".to_owned(), name.to_owned()),
    };
    let query: Vec<(String, String)> = vec![
        ("method".to_owned(), "artist.getinfo".to_owned()),
        ("api_key".to_owned(), api_key.to_owned()),
        ("format".to_owned(), "json".to_owned()),
        ("autocorrect".to_owned(), "1".to_owned()),
        who,
    ];
    proof {
        assert(query.deep_view() =~= bio_params(api_key@, name@, mbid));
    }
    HttpGet { url: "https://ws.audioscrobbler.com/2.0/".to_owned(), query }
}

/// A summary as plain text: up to the first link, trimmed; `None` if nothing
/// is left.
pub open spec fn cleaned(summary: Seq<char>) -> Option<Seq<char>> {
    let text = text::trimmed(text::before(summary, "<a href="@));
    if text.len() == 0 {
        None
    } else {
        Some(text)
    }
}

/// Last.fm summaries end with an HTML "Read more" link (and the licensing
/// blurb rides along after it). Cut at the first anchor and keep plain text.
pub fn clean_bio(summary: String) -> (res: Option<String>)
    ensures
        res.deep_view() == cleaned(summary@),
{
    let cut = text::text_before(summary.as_str(), "<a href=");
    let cleaned = cut.as_str().trim();
    if cleaned.is_empty() {
        None
    } else {
        Some(cleaned.to_owned())
    }
}

/// What a response means.
pub open spec fn bio_outcome(response: ArtistInfoResponse<Seq<char>>) -> Result<
    Option<Seq<char>>,
    ProviderError<Seq<char>>,
> {
    let message = match response.message {
        Some(message) => message,
        None => Seq::empty(),
    };
    match response.error {
        Some(code) => if code == NOT_FOUND {
            Ok(None)
        } else if code == RATE_LIMITED {
            Err(ProviderError::Transient("lastfm: rate limited: "@ + message))
        } else {
            Err(
                ProviderError::Fatal(
                    "lastfm: error "@ + text::decimal(code as int) + ": "@ + message,
                ),
            )
        },
        None => match response.artist {
            Some(ArtistInfo { bio: Some(Bio { summary: Some(summary) }) }) => Ok(cleaned(summary)),
            _ => Ok(None),
        },
    }
}

/// The cooldown that a response puts Last.fm under.
pub open spec fn bio_cooldown(response: ArtistInfoResponse<Seq<char>>) -> Option<u64> {
    if response.error == Some(RATE_LIMITED) {
        Some(COOLDOWN_SECS)
    } else {
        None
    }
}

/// Reads an artist bio summary out of the answer, and the cooldown in seconds
/// that Last.fm is to be put under, if any.
pub fn found_bio(result: ProviderResult<ArtistInfoResponse>) -> (res: (
    ProviderResult<String>,
    Option<u64>,
))
    ensures
        match result {
            Ok(Some(response)) => {
                &&& text::result_view(res.0) == bio_outcome(response.deep_view())
                &&& res.1 == bio_cooldown(response.deep_view())
            },
            Ok(None) => res == (Ok::<Option<String>, ProviderError>(None), None::<u64>),
            Err(e) => res == (Err::<Option<String>, ProviderError>(e), None::<u64>),
        },
{
    let response = match result {
        Ok(Some(response)) => response,
        Ok(None) => return (Ok(None), None),
        Err(e) => return (Err(e), None),
    };
    if let Some(code) = response.error {
        let message = match response.message {
            Some(message) => message,
            None => String::new(),
        };
        if code == NOT_FOUND {
            return (Ok(None), None);
        }
        if code == RATE_LIMITED {
            let text = text::join2("lastfm: rate limited: ", message.as_str());
            return (Err(ProviderError::Transient(text)), Some(COOLDOWN_SECS));
        }
        let text = text::join4(
            "lastfm: error ",
            text::i64_to_text(code as i64).as_str(),
            ": ",
            message.as_str(),
        );
        return (Err(ProviderError::Fatal(text)), None);
    }
    match response.artist {
        Some(ArtistInfo { bio: Some(Bio { summary: Some(summary) }) }) => {
            (Ok(clean_bio(summary)), None)
        },
        _ => (Ok(None), None),
    }
}

/// Nothing that lies within some text occurs where that text has none of it.
proof fn lemma_trimmed_within(s: Seq<char>, pattern: Seq<char>)
    requires
        !text::occurs_in(s, pattern),
    ensures
        !text::occurs_in(text::trimmed(s), pattern),
    decreases s.len(),
{
    if s.len() > 0 && text::is_white_space(s.first()) {
        let t = s.drop_first();
        assert forall|i: int| !text::occurs_at(t, pattern, i) by {
            if text::occurs_at(t, pattern, i) {
                assert(t.subrange(i, i + pattern.len()) =~= s.subrange(
                    i + 1,
                    i + 1 + pattern.len(),
                ));
                assert(text::occurs_at(s, pattern, i + 1));
            }
        }
        lemma_trimmed_within(t, pattern);
    } else if s.len() > 0 && text::is_white_space(s.last()) {
        let t = s.drop_last();
        assert forall|i: int| !text::occurs_at(t, pattern, i) by {
            if text::occurs_at(t, pattern, i) {
                assert(t.subrange(i, i + pattern.len()) =~= s.subrange(i, i + pattern.len()));
                assert(text::occurs_at(s, pattern, i));
            }
        }
        lemma_trimmed_within(t, pattern);
    }
}

/// A biography that is kept has text in it and no link.
pub proof fn law_bio_has_no_link(summary: Seq<char>)
    ensures
        cleaned(summary) matches Some(bio) ==> bio.len() > 0 && !text::occurs_in(
            bio,
            "<a href="@,
        ),
{
    reveal_strlit("<a href=");
    text::law_before_has_no_pattern(summary, "<a href="@);
    lemma_trimmed_within(text::before(summary, "<a href="@), "<a href="@);
}

/// A biography is what stands before the first link of its summary, without the
/// white space around it, and none where nothing is left.
pub proof fn law_bio_is_what_precedes_the_link(summary: Seq<char>, at: int)
    ensures
        text::first_occurs_at(summary, "<a href="@, at) ==> {
            let kept = text::trimmed(summary.take(at));
            cleaned(summary) == if kept.len() == 0 {
                None
            } else {
                Some(kept)
            }
        },
        !text::occurs_in(summary, "<a href="@) ==> {
            let kept = text::trimmed(summary);
            cleaned(summary) == if kept.len() == 0 {
                None
            } else {
                Some(kept)
            }
        },
{
    let link = "<a href="@;
    if text::first_occurs_at(summary, link, at) {
        let chosen = choose|k: int| text::first_occurs_at(summary, link, k);
        text::lemma_first_occurrence_unique(summary, link, at, chosen);
    }
    if !text::occurs_in(summary, link) {
        assert forall|k: int| !text::first_occurs_at(summary, link, k) by {
            assert(!text::occurs_at(summary, link, k));
        }
    }
}

/// A biography is asked for by the artist's MBID where there is one, and by the
/// artist's name where there is none.
pub proof fn law_bio_requests(api_key: Seq<char>, name: Seq<char>, mbid: Uuid)
    ensures
        bio_request(api_key, name, Some(mbid)).url == "https://ws.audioscrobbler.com/2.0/"@,
        bio_request(api_key, name, Some(mbid)).query == seq![
            ("method"@, "artist.getinfo"@),
            ("api_key"@, api_key),
            ("format"@, "json"@),
            ("autocorrect"@, "1"@),
            ("mbid"@, ids::hyphenated(mbid)),
        ],
        bio_request(api_key, name, None).url == "https://ws.audioscrobbler.com/2.0/"@,
        bio_request(api_key, name, None).query == seq![
            ("method"@, "artist.getinfo"@),
            ("api_key"@, api_key),
            ("format"@, "json"@),
            ("autocorrect"@, "1"@),
            ("artist"@, name),
        ],
{
}

/// What Last.fm's answers mean: an unknown artist has no biography; rate limiting
/// is worth another attempt, a minute later; any other error is fatal; and where
/// there is no error, the summary counts, if there is one.
pub proof fn law_bio_answers(response: ArtistInfoResponse<Seq<char>>, summary: Seq<char>)
    ensures
        ({
            let said = match response.message {
                Some(message) => message,
                None => Seq::empty(),
            };
            let outcome = bio_outcome(response);
            &&& response.error == Some(6i32) ==> outcome == Ok::<
                Option<Seq<char>>,
                ProviderError<Seq<char>>,
            >(None)
            &&& response.error == Some(29i32) ==> outcome == Err::<
                Option<Seq<char>>,
                ProviderError<Seq<char>>,
            >(ProviderError::Transient("lastfm: rate limited: "@ + said))
            &&& response.error matches Some(code) ==> (code != 6 && code != 29 ==> outcome == Err::<
                Option<Seq<char>>,
                ProviderError<Seq<char>>,
            >(
                ProviderError::Fatal(
                    "lastfm: error "@ + text::decimal(code as int) + ": "@ + said,
                ),
            ))
            &&& response.error is None && response.artist == Some(
                ArtistInfo { bio: Some(Bio { summary: Some(summary) }) },
            ) ==> outcome == Ok::<Option<Seq<char>>, ProviderError<Seq<char>>>(cleaned(summary))
            &&& response.error is None && !(response.artist matches Some(info) && info.bio matches Some(
                bio,
            ) && bio.summary is Some) ==> outcome == Ok::<
                Option<Seq<char>>,
                ProviderError<Seq<char>>,
            >(None)
            &&& response.error == Some(29i32) ==> bio_cooldown(response) == Some(60u64)
            &&& response.error != Some(29i32) ==> bio_cooldown(response) is None
        }),
{
}

/// A request for a biography that was not answered brings none, or the failure that
/// it was.
pub proof fn law_unanswered_bio_requests(
    e: ProviderError,
    failed: (ProviderResult<String>, Option<u64>),
    nothing: (ProviderResult<String>, Option<u64>),
)
    requires
        call_ensures(found_bio, (Err::<Option<ArtistInfoResponse>, ProviderError>(e),), failed),
        call_ensures(found_bio, (Ok::<Option<ArtistInfoResponse>, ProviderError>(None),), nothing),
    ensures
        failed == (Err::<Option<String>, ProviderError>(e), None::<u64>),
        nothing == (Ok::<Option<String>, ProviderError>(None), None::<u64>),
{
}

} // verus!
