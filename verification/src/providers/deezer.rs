//! Deezer, the image fallback. No API key required (about 50 requests / 5 s
//! per IP).
//!
//! Covers the two gaps the MBID-based chain leaves: artist images (which
//! MusicBrainz doesn't host at all) and album covers the Cover Art Archive
//! doesn't have. Matches are accepted only on a normalized name equality: a
//! wrong image is worse than no image.

use super::{HttpGet, ProviderError, ProviderResult};
use crate::scrobble;
use crate::text;
use vstd::prelude::*;
use vstd::string::*;

verus! {

/// Deezer signals quota exhaustion with an error object in a 200 body.
pub const QUOTA_EXCEEDED: i32 = 4;

/// Cooldown after quota exhaustion (s).
pub const QUOTA_COOLDOWN_SECS: u64 = 5;

#[derive(Debug, PartialEq, Eq)]
pub struct SearchResponse {
    pub data: Vec<Hit>,
    pub error: Option<DeezerError>,
}

#[derive(Debug, PartialEq, Eq)]
pub struct DeezerError<S = String> {
    pub code: i32,
    pub message: Option<S>,
}

/// An artist or album that the search turned up.
#[derive(Debug, PartialEq, Eq)]
pub struct Hit<S = String> {
    /// The name of the artist or the title of the album.
    pub name: S,
    /// The address of its largest picture.
    pub image: Option<S>,
}

impl DeepView for DeezerError {
    type V = DeezerError<Seq<char>>;

    open spec fn deep_view(&self) -> DeezerError<Seq<char>> {
        DeezerError { code: self.code, message: self.message.deep_view() }
    }
}

impl DeepView for Hit {
    type V = Hit<Seq<char>>;

    open spec fn deep_view(&self) -> Hit<Seq<char>> {
        Hit { name: self.name@, image: self.image.deep_view() }
    }
}

/// The failure that an error object in the body stands for. Only an exhausted
/// quota is worth a retry.
pub open spec fn body_error(e: DeezerError<Seq<char>>) -> ProviderError<Seq<char>> {
    let message = match e.message {
        Some(message) => message,
        None => Seq::empty(),
    };
    if e.code == QUOTA_EXCEEDED {
        ProviderError::Transient("deezer: quota: "@ + message)
    } else {
        ProviderError::Fatal(
            "deezer: error "@ + text::decimal(e.code as int) + ": "@ + message,
        )
    }
}

/// The cooldown that an error object in the body puts Deezer under.
pub open spec fn body_cooldown(e: Option<DeezerError<Seq<char>>>) -> Option<u64> {
    match e {
        Some(e) if e.code == QUOTA_EXCEEDED => Some(QUOTA_COOLDOWN_SECS),
        _ => None,
    }
}

/// The hits of a response, unless its body reports an error; and the cooldown
/// in seconds that Deezer is to be put under, if any.
pub fn check_error(response: SearchResponse) -> (res: (
    Result<Vec<Hit>, ProviderError>,
    Option<u64>,
))
    ensures
        match response.error {
            Some(e) => res.0 matches Err(failure) && failure.deep_view() == body_error(
                e.deep_view(),
            ),
            None => res.0 == Ok::<Vec<Hit>, ProviderError>(response.data),
        },
        res.1 == body_cooldown(response.error.deep_view()),
{
    match response.error {
        Some(e) => {
            let message = match e.message {
                Some(message) => message,
                None => String::new(),
            };
            if e.code == QUOTA_EXCEEDED {
                let text = text::join2("deezer: quota: ", message.as_str());
                (Err(ProviderError::Transient(text)), Some(QUOTA_COOLDOWN_SECS))
            } else {
                let text = text::join4(
                    "deezer: error ",
                    text::i64_to_text(e.code as i64).as_str(),
                    ": ",
                    message.as_str(),
                );
                (Err(ProviderError::Fatal(text)), None)
            }
        },
        None => (Ok(response.data), None),
    }
}

/// An address that is not blank.
pub open spec fn usable(url: Option<Seq<char>>) -> Option<Seq<char>> {
    match url {
        Some(u) if !text::is_blank(u) => Some(u),
        _ => None,
    }
}

pub fn non_empty(url: Option<String>) -> (res: Option<String>)
    ensures
        res.deep_view() == usable(url.deep_view()),
{
    match url {
        Some(u) => {
            proof {
                text::law_trimmed_empty_iff_blank(u@);
            }
            if u.as_str().trim().is_empty() {
                None
            } else {
                Some(u)
            }
        },
        None => None,
    }
}

/// The image of the first hit that carries the wanted name, if it offers one.
pub open spec fn matched_image(
    hits: Seq<Hit<Seq<char>>>,
    wanted: Seq<char>,
) -> Option<Seq<char>>
    decreases hits.len(),
{
    if hits.len() == 0 {
        None
    } else if scrobble::normalized(hits[0].name) == scrobble::normalized(wanted) {
        usable(hits[0].image)
    } else {
        matched_image(hits.drop_first(), wanted)
    }
}

/// What a search for an image of `wanted` comes to.
pub open spec fn image_outcome(
    hits: Seq<Hit<Seq<char>>>,
    error: Option<DeezerError<Seq<char>>>,
    wanted: Seq<char>,
) -> Result<Option<Seq<char>>, ProviderError<Seq<char>>> {
    match error {
        Some(e) => Err(body_error(e)),
        None => Ok(matched_image(hits, wanted)),
    }
}

/// The parameters of a search.
pub open spec fn search_params(q: Seq<char>) -> Seq<(Seq<char>, Seq<char>)> {
    seq![("q"@, q), ("limit"@, "5"@)]
}

fn search_request(url: &str, q: String) -> (res: HttpGet)
    ensures
        res.deep_view() == super::get_request(url@, search_params(q@)),
{
    let query: Vec<(String, String)> = vec![
        ("q".to_owned(), q),
        ("limit".to_owned(), "5".to_owned()),
    ];
    proof {
        assert(query.deep_view() =~= search_params(query@[0].1@));
    }
    HttpGet { url: url.to_owned(), query }
}

/// A search for an artist by name.
pub open spec fn artist_search(name: Seq<char>) -> super::HttpGetView {
    super::get_request("https://api.deezer.com/search/artist"@, search_params(name))
}

/// A search for an album by artist and title.
pub open spec fn album_search(artist: Seq<char>, title: Seq<char>) -> super::HttpGetView {
    super::get_request(
        "https://api.deezer.com/search/album"@,
        search_params("artist:\""@ + artist + "\" album:\""@ + title + "\""@),
    )
}

/// Searches for an artist by name.
pub fn artist_image(name: &str) -> (res: HttpGet)
    ensures
        res.deep_view() == artist_search(name@),
{
    search_request("https://api.deezer.com/search/artist", name.to_owned())
}

/// Searches for an album by artist and title.
pub fn album_cover(artist: &str, title: &str) -> (res: HttpGet)
    ensures
        res.deep_view() == album_search(artist@, title@),
{
    let q = text::join4("artist:\"", artist, "\" album:\"", title).concat("\"");
    search_request("https://api.deezer.com/search/album", q)
}

/// The image of the first hit that carries the wanted name, if it offers one.
fn first_image(wanted: &str, hits: Vec<Hit>) -> (res: Option<String>)
    ensures
        res.deep_view() == matched_image(hits.deep_view(), wanted@),
{
    let mut rest = hits;
    let mut i: usize = 0;
    proof {
        assert(hits.deep_view().skip(0) =~= hits.deep_view());
    }
    while i < rest.len()
        invariant
            rest == hits,
            i <= rest@.len(),
            matched_image(hits.deep_view(), wanted@) == matched_image(
                hits.deep_view().skip(i as int),
                wanted@,
            ),
        decreases rest@.len() - i,
    {
        proof {
            let all = hits.deep_view();
            assert(all.skip(i as int)[0] == hits@[i as int].deep_view());
            assert(all.skip(i as int).drop_first() =~= all.skip(i as int + 1));
        }
        if scrobble::same_name(rest[i].name.as_str(), wanted) {
            let hit = rest.remove(i);
            return non_empty(hit.image);
        }
        i = i + 1;
    }
    None
}

/// Finds the image of an artist or album by exact (normalized) name match, and
/// the cooldown in seconds that Deezer is to be put under, if any.
pub fn found_image(wanted: &str, result: ProviderResult<SearchResponse>) -> (res: (
    ProviderResult<String>,
    Option<u64>,
))
    ensures
        match result {
            Ok(Some(response)) => {
                &&& text::result_view(res.0) == image_outcome(
                    response.data.deep_view(),
                    response.error.deep_view(),
                    wanted@,
                )
                &&& res.1 == body_cooldown(response.error.deep_view())
            },
            Ok(None) => res == (Ok::<Option<String>, ProviderError>(None), None::<u64>),
            Err(e) => res == (Err::<Option<String>, ProviderError>(e), None::<u64>),
        },
{
    let response = match result {
        Ok(Some(response)) => response,
        Ok(None) => return (Ok(None), None),
        Err(e) => return (Err(e), None),
    };
    let (checked, cooldown) = check_error(response);
    match checked {
        Ok(hits) => (Ok(first_image(wanted, hits)), cooldown),
        Err(e) => (Err(e), cooldown),
    }
}

/// An image is only ever taken from a hit that carries the wanted name, and it
/// is not blank.
pub proof fn law_no_image_of_another_name(
    hits: Seq<Hit<Seq<char>>>,
    wanted: Seq<char>,
)
    ensures
        matched_image(hits, wanted) matches Some(image) ==> {
            &&& !text::is_blank(image)
            &&& exists|i: int|
                0 <= i < hits.len() && (#[trigger] hits[i]).image == Some(image)
                    && scrobble::normalized(hits[i].name) == scrobble::normalized(wanted)
        },
    decreases hits.len(),
{
    if hits.len() > 0 && scrobble::normalized(hits[0].name) != scrobble::normalized(wanted) {
        let rest = hits.drop_first();
        law_no_image_of_another_name(rest, wanted);
        if matched_image(rest, wanted) is Some {
            let image = matched_image(rest, wanted).unwrap();
            let i = choose|i: int|
                0 <= i < rest.len() && (#[trigger] rest[i]).image == Some(image)
                    && scrobble::normalized(rest[i].name) == scrobble::normalized(wanted);
            assert(hits[i + 1] == rest[i]);
        }
    }
}

/// The image of a search is that of the first hit whose name is the wanted one,
/// once normalized: a later one does not stand in for it, not even where it has no
/// image. Where no hit has the name, there is none.
pub proof fn law_first_namesake_counts(hits: Seq<Hit<Seq<char>>>, wanted: Seq<char>, k: int)
    requires
        0 <= k <= hits.len(),
        forall|i: int|
            0 <= i < k ==> scrobble::normalized(#[trigger] hits[i].name) != scrobble::normalized(
                wanted,
            ),
    ensures
        k == hits.len() ==> matched_image(hits, wanted) is None,
        k < hits.len() && scrobble::normalized(hits[k].name) == scrobble::normalized(wanted) ==> {
            &&& hits[k].image matches Some(url) ==> (text::trimmed(url).len() > 0 ==>
                matched_image(hits, wanted) == Some(url))
            &&& hits[k].image matches Some(url) ==> (text::trimmed(url).len() == 0 ==>
                matched_image(hits, wanted) is None)
            &&& hits[k].image is None ==> matched_image(hits, wanted) is None
        },
    decreases hits.len(),
{
    if k > 0 {
        let rest = hits.drop_first();
        assert forall|i: int| 0 <= i < k - 1 implies scrobble::normalized(
            #[trigger] rest[i].name,
        ) != scrobble::normalized(wanted) by {
            assert(rest[i] == hits[i + 1]);
        }
        law_first_namesake_counts(rest, wanted, k - 1);
        if k < hits.len() {
            assert(rest[k - 1] == hits[k]);
        }
        assert(scrobble::normalized(hits[0].name) != scrobble::normalized(wanted));
    } else if hits.len() > 0 {
        if let Some(url) = hits[0].image {
            text::law_trimmed_empty_iff_blank(url);
        }
    }
}

/// An error in the body fails the search, whatever hits came with it. An exhausted
/// quota is worth another attempt, five seconds later; nothing else is.
pub proof fn law_body_errors(
    hits: Seq<Hit<Seq<char>>>,
    e: DeezerError<Seq<char>>,
    wanted: Seq<char>,
)
    ensures
        ({
            let said = match e.message {
                Some(message) => message,
                None => Seq::empty(),
            };
            &&& e.code == 4 ==> image_outcome(hits, Some(e), wanted) == Err::<
                Option<Seq<char>>,
                ProviderError<Seq<char>>,
            >(ProviderError::Transient("deezer: quota: "@ + said)) && body_cooldown(Some(e))
                == Some(5u64)
            &&& e.code != 4 ==> image_outcome(hits, Some(e), wanted) == Err::<
                Option<Seq<char>>,
                ProviderError<Seq<char>>,
            >(
                ProviderError::Fatal(
                    "deezer: error "@ + text::decimal(e.code as int) + ": "@ + said,
                ),
            ) && body_cooldown(Some(e)) is None
        }),
        image_outcome(hits, None, wanted) == Ok::<Option<Seq<char>>, ProviderError<Seq<char>>>(
            matched_image(hits, wanted),
        ),
        body_cooldown(None) is None,
{
}

/// An artist is searched by name and an album by artist and title, five hits at
/// most.
pub proof fn law_deezer_searches(name: Seq<char>, artist: Seq<char>, title: Seq<char>)
    ensures
        artist_search(name).url == "https://api.deezer.com/search/artist"@,
        artist_search(name).query == seq![("q"@, name), ("limit"@, "5"@)],
        album_search(artist, title).url == "https://api.deezer.com/search/album"@,
        album_search(artist, title).query == seq![
            ("q"@, "artist:\""@ + artist + "\" album:\""@ + title + "\""@),
            ("limit"@, "5"@),
        ],
{
}

/// A search that found nothing, or failed, brings no image and calls for no
/// cooldown of its own.
pub proof fn law_searches_without_hits(
    wanted: &str,
    e: ProviderError,
    failed: (ProviderResult<String>, Option<u64>),
    nothing: (ProviderResult<String>, Option<u64>),
)
    requires
        call_ensures(
            found_image,
            (wanted, Err::<Option<SearchResponse>, ProviderError>(e)),
            failed,
        ),
        call_ensures(
            found_image,
            (wanted, Ok::<Option<SearchResponse>, ProviderError>(None)),
            nothing,
        ),
    ensures
        failed == (Err::<Option<String>, ProviderError>(e), None::<u64>),
        nothing == (Ok::<Option<String>, ProviderError>(None), None::<u64>),
{
}

} // verus!
