//! MusicBrainz, the canonical metadata source.
//!
//! Provides MBIDs (the identity anchor the schema is built around), recording
//! durations and release dates. No API key, but a strict 1 request/second
//! limit and a mandatory identifying User-Agent.

use super::{HttpGet, ProviderResult};
use crate::ids;
use crate::ids::Uuid;
use crate::scrobble;
use crate::text;
use crate::time;
use crate::time::CalendarDate;
use vstd::prelude::*;
use vstd::string::*;

verus! {

/// Minimum search score (0-100) to accept a match. Two-field queries
/// (title and artist) are reliable at 90; artist-only searches are noisier, so
/// they require 95.
pub const MIN_SCORE: i32 = 90;

pub const MIN_SCORE_ARTIST: i32 = 95;

/// A recording: its credits and its releases are lists, in contracts
/// sequences.
#[derive(Debug, PartialEq, Eq)]
pub struct Recording<C = Vec<ArtistCredit>, R = Vec<Release>> {
    pub id: Uuid,
    pub score: Option<i32>,
    /// Duration in milliseconds.
    pub length: Option<i64>,
    pub artist_credit: C,
    pub releases: R,
}

#[derive(Debug, Clone, Copy, PartialEq, Eq, Structural)]
pub struct ArtistCredit {
    pub artist: CreditedArtist,
}

#[derive(Debug, Clone, Copy, PartialEq, Eq, Structural)]
pub struct CreditedArtist {
    pub id: Uuid,
}

#[derive(Debug, PartialEq, Eq)]
pub struct Release<S = String> {
    pub id: Uuid,
    pub score: Option<i32>,
    pub title: S,
    /// "YYYY", "YYYY-MM" or "YYYY-MM-DD".
    pub date: Option<S>,
    pub status: Option<S>,
    pub release_group: Option<ReleaseGroup>,
}

#[derive(Debug, Clone, Copy, PartialEq, Eq, Structural)]
pub struct ReleaseGroup {
    pub id: Uuid,
}

#[derive(Debug, Clone, Copy, PartialEq, Eq, Structural)]
pub struct ArtistMatch {
    pub id: Uuid,
    pub score: Option<i32>,
}

impl DeepView for ArtistCredit {
    type V = ArtistCredit;

    open spec fn deep_view(&self) -> ArtistCredit {
        *self
    }
}

impl DeepView for ArtistMatch {
    type V = ArtistMatch;

    open spec fn deep_view(&self) -> ArtistMatch {
        *self
    }
}

impl DeepView for Release {
    type V = Release<Seq<char>>;

    open spec fn deep_view(&self) -> Release<Seq<char>> {
        Release {
            id: self.id,
            score: self.score,
            title: self.title@,
            date: self.date.deep_view(),
            status: self.status.deep_view(),
            release_group: self.release_group,
        }
    }
}

impl DeepView for Recording {
    type V = Recording<Seq<ArtistCredit>, Seq<Release<Seq<char>>>>;

    open spec fn deep_view(&self) -> Recording<Seq<ArtistCredit>, Seq<Release<Seq<char>>>> {
        Recording {
            id: self.id,
            score: self.score,
            length: self.length,
            artist_credit: self.artist_credit.deep_view(),
            releases: self.releases.deep_view(),
        }
    }
}

// ---------------------------------------------------------------------------
// Queries
// ---------------------------------------------------------------------------

/// A value escaped for use inside a quoted Lucene phrase: backslashes and
/// quotes get a backslash before them.
pub open spec fn lucene_quoted(s: Seq<char>) -> Seq<char>
    decreases s.len(),
{
    if s.len() == 0 {
        Seq::empty()
    } else {
        let rest = lucene_quoted(s.drop_last());
        if s.last() == '\\' || s.last() == '"' {
            rest.push('\\').push(s.last())
        } else {
            rest.push(s.last())
        }
    }
}

/// What a quoted Lucene phrase stands for: a backslash makes the next
/// character literal, and an open quote cannot stand inside.
pub open spec fn lucene_unquoted(s: Seq<char>) -> Option<Seq<char>>
    decreases s.len(),
{
    if s.len() == 0 {
        Some(Seq::empty())
    } else if s[0] == '\\' {
        if s.len() == 1 {
            None
        } else {
            match lucene_unquoted(s.subrange(2, s.len() as int)) {
                Some(rest) => Some(seq![s[1]] + rest),
                None => None,
            }
        }
    } else if s[0] == '"' {
        None
    } else {
        match lucene_unquoted(s.subrange(1, s.len() as int)) {
            Some(rest) => Some(seq![s[0]] + rest),
            None => None,
        }
    }
}

/// Escapes a value for use inside a quoted Lucene phrase.
pub fn lucene_quote(s: &str) -> (res: String)
    ensures
        res@ == lucene_quoted(s@),
{
    let mut out = String::new();
    for c in it: s.chars()
        invariant
            it.seq() == s@,
            out@ == lucene_quoted(s@.take(it.index() as int)),
    {
        proof {
            let longer = s@.take(it.index() as int + 1);
            assert(longer.drop_last() =~= s@.take(it.index() as int));
            assert(longer.last() == c);
        }
        if c == '\\' || c == '"' {
            out.push('\\');
        }
        out.push(c);
    }
    proof {
        assert(s@.take(s@.len() as int) =~= s@);
    }
    out
}

/// Escaping character by character from the front gives the same text.
proof fn lemma_lucene_quoted_front(s: Seq<char>)
    requires
        s.len() > 0,
    ensures
        lucene_quoted(s) == (if s[0] == '\\' || s[0] == '"' {
            seq!['\\', s[0]]
        } else {
            seq![s[0]]
        }) + lucene_quoted(s.drop_first()),
    decreases s.len(),
{
    let head = if s[0] == '\\' || s[0] == '"' {
        seq!['\\', s[0]]
    } else {
        seq![s[0]]
    };
    if s.len() == 1 {
        assert(s.drop_last() =~= Seq::<char>::empty());
        assert(s.drop_first() =~= Seq::<char>::empty());
        assert(lucene_quoted(s) =~= head + lucene_quoted(s.drop_first()));
    } else {
        lemma_lucene_quoted_front(s.drop_last());
        assert(s.drop_last().drop_first() =~= s.drop_first().drop_last());
        assert(s.drop_first().last() == s.last());
        assert(lucene_quoted(s) =~= head + lucene_quoted(s.drop_first()));
    }
}

/// An escaped value stays inside its quotes and stands for the value that was
/// escaped.
pub proof fn law_quoting_is_undone_by_reading(s: Seq<char>)
    ensures
        lucene_unquoted(lucene_quoted(s)) == Some(s),
    decreases s.len(),
{
    if s.len() > 0 {
        lemma_lucene_quoted_front(s);
        law_quoting_is_undone_by_reading(s.drop_first());
        let q = lucene_quoted(s);
        let rest = lucene_quoted(s.drop_first());
        if s[0] == '\\' || s[0] == '"' {
            assert(q.subrange(2, q.len() as int) =~= rest);
        } else {
            assert(q.subrange(1, q.len() as int) =~= rest);
        }
        assert(seq![s[0]] + s.drop_first() =~= s);
    }
}

/// A search by two quoted fields.
pub open spec fn two_field_query(field: Seq<char>, title: Seq<char>, artist: Seq<char>) -> Seq<
    char,
> {
    field + ":\""@ + lucene_quoted(title) + "\" AND artist:\""@ + lucene_quoted(artist) + "\""@
}

/// The parameters of a search.
pub open spec fn search_params(query: Seq<char>) -> Seq<(Seq<char>, Seq<char>)> {
    seq![("query"@, query), ("fmt"@, "json"@), ("limit"@, "5"@)]
}

fn quoted_pair(field: &str, title: &str, artist: &str) -> (res: String)
    ensures
        res@ == two_field_query(field@, title@, artist@),
{
    field.to_owned().concat(":\"").concat(lucene_quote(title).as_str()).concat(
        "\" AND artist:\"",
    ).concat(lucene_quote(artist).as_str()).concat("\"")
}

fn search_request(url: &str, query: String) -> (res: HttpGet)
    ensures
        res.deep_view() == super::get_request(url@, search_params(query@)),
{
    let query: Vec<(String, String)> = vec![
        ("query".to_owned(), query),
        ("fmt".to_owned(), "json".to_owned()),
        ("limit".to_owned(), "5".to_owned()),
    ];
    proof {
        assert(query.deep_view() =~= search_params(query@[0].1@));
    }
    HttpGet { url: url.to_owned(), query }
}

/// A search for a recording by title and artist name.
pub open spec fn recording_search(title: Seq<char>, artist: Seq<char>) -> super::HttpGetView {
    super::get_request(
        "https://musicbrainz.org/ws/2/recording"@,
        search_params(two_field_query("recording"@, title, artist)),
    )
}

/// A lookup of a recording by its MBID.
pub open spec fn recording_lookup(mbid: Uuid) -> super::HttpGetView {
    super::get_request(
        "https://musicbrainz.org/ws/2/recording/"@ + ids::hyphenated(mbid),
        seq![("fmt"@, "json"@), ("inc"@, "artist-credits releases release-groups"@)],
    )
}

/// A search for an artist by name.
pub open spec fn artist_search(name: Seq<char>) -> super::HttpGetView {
    super::get_request(
        "https://musicbrainz.org/ws/2/artist"@,
        search_params("artist:\""@ + lucene_quoted(name) + "\""@),
    )
}

/// A search for a release by title and artist name.
pub open spec fn release_search(title: Seq<char>, artist: Seq<char>) -> super::HttpGetView {
    super::get_request(
        "https://musicbrainz.org/ws/2/release"@,
        search_params(two_field_query("release"@, title, artist)),
    )
}

/// A lookup of a release, for its group, by its MBID.
pub open spec fn release_lookup(release_mbid: Uuid) -> super::HttpGetView {
    super::get_request(
        "https://musicbrainz.org/ws/2/release/"@ + ids::hyphenated(release_mbid),
        seq![("fmt"@, "json"@), ("inc"@, "release-groups"@)],
    )
}

/// Searches for a recording by title and artist name.
pub fn search_recording(title: &str, artist: &str) -> (res: HttpGet)
    ensures
        res.deep_view() == recording_search(title@, artist@),
{
    search_request(
        "https://musicbrainz.org/ws/2/recording",
        quoted_pair("recording", title, artist),
    )
}

/// Direct lookup of a recording we already have an MBID for, used to fill
/// missing duration and releases without a search.
pub fn lookup_recording(mbid: Uuid) -> (res: HttpGet)
    ensures
        res.deep_view() == recording_lookup(mbid),
{
    let url = text::join2(
        "https://musicbrainz.org/ws/2/recording/",
        ids::uuid_text(mbid).as_str(),
    );
    let query: Vec<(String, String)> = vec![
        ("fmt".to_owned(), "json".to_owned()),
        ("inc".to_owned(), "artist-credits releases release-groups".to_owned()),
    ];
    proof {
        assert(query.deep_view() =~= seq![
            ("fmt"@, "json"@),
            ("inc"@, "artist-credits releases release-groups"@),
        ]);
    }
    HttpGet { url, query }
}

/// Searches for an artist by name.
pub fn search_artist(name: &str) -> (res: HttpGet)
    ensures
        res.deep_view() == artist_search(name@),
{
    search_request(
        "https://musicbrainz.org/ws/2/artist",
        text::join3("artist:\"", lucene_quote(name).as_str(), "\""),
    )
}

/// Searches for a release by title and artist name.
pub fn search_release(title: &str, artist: &str) -> (res: HttpGet)
    ensures
        res.deep_view() == release_search(title@, artist@),
{
    search_request("https://musicbrainz.org/ws/2/release", quoted_pair("release", title, artist))
}

/// Fetches the release group of a release, needed for the Cover Art Archive
/// release-group fallback when no search carried it.
pub fn lookup_release_group(release_mbid: Uuid) -> (res: HttpGet)
    ensures
        res.deep_view() == release_lookup(release_mbid),
{
    let url = text::join2(
        "https://musicbrainz.org/ws/2/release/",
        ids::uuid_text(release_mbid).as_str(),
    );
    let query: Vec<(String, String)> = vec![
        ("fmt".to_owned(), "json".to_owned()),
        ("inc".to_owned(), "release-groups".to_owned()),
    ];
    proof {
        assert(query.deep_view() =~= seq![("fmt"@, "json"@), ("inc"@, "release-groups"@)]);
    }
    HttpGet { url, query }
}

// ---------------------------------------------------------------------------
// Matches
// ---------------------------------------------------------------------------

/// A match scored high enough; one without a score never is.
pub open spec fn scored(score: Option<i32>, min: i32) -> bool {
    score matches Some(s) && s >= min
}

pub fn score_ok(score: Option<i32>, min: i32) -> (res: bool)
    ensures
        res == scored(score, min),
{
    match score {
        Some(s) => s >= min,
        None => false,
    }
}

/// The first artist that scores high enough.
pub open spec fn is_best_artist(hits: Seq<ArtistMatch>, best: Option<ArtistMatch>) -> bool {
    match best {
        Some(hit) => exists|i: int|
            {
                &&& 0 <= i < hits.len()
                &&& #[trigger] hits[i] == hit
                &&& scored(hit.score, MIN_SCORE_ARTIST)
                &&& forall|j: int| 0 <= j < i ==> !scored(#[trigger] hits[j].score, MIN_SCORE_ARTIST)
            },
        None => forall|j: int|
            0 <= j < hits.len() ==> !scored(#[trigger] hits[j].score, MIN_SCORE_ARTIST),
    }
}

/// The first artist of a search that scores high enough. Higher bar than the
/// two-field searches: single-term artist queries are the easiest to mismatch.
pub fn best_artist(hits: &Vec<ArtistMatch>) -> (res: Option<ArtistMatch>)
    ensures
        is_best_artist(hits@, res),
{
    let mut i: usize = 0;
    while i < hits.len()
        invariant
            i <= hits@.len(),
            forall|j: int| 0 <= j < i ==> !scored(#[trigger] hits@[j].score, MIN_SCORE_ARTIST),
        decreases hits@.len() - i,
    {
        if score_ok(hits[i].score, MIN_SCORE_ARTIST) {
            return Some(hits[i]);
        }
        i = i + 1;
    }
    None
}

/// The first recording that scores high enough.
pub open spec fn is_best_recording(
    hits: Seq<Recording<Seq<ArtistCredit>, Seq<Release<Seq<char>>>>>,
    best: Option<Recording<Seq<ArtistCredit>, Seq<Release<Seq<char>>>>>,
) -> bool {
    match best {
        Some(hit) => exists|i: int|
            {
                &&& 0 <= i < hits.len()
                &&& #[trigger] hits[i] == hit
                &&& scored(hit.score, MIN_SCORE)
                &&& forall|j: int| 0 <= j < i ==> !scored(#[trigger] hits[j].score, MIN_SCORE)
            },
        None => forall|j: int| 0 <= j < hits.len() ==> !scored(#[trigger] hits[j].score, MIN_SCORE),
    }
}

/// The first recording of a search that scores high enough, with its artist
/// credits and releases.
pub fn best_recording(hits: Vec<Recording>) -> (res: Option<Recording>)
    ensures
        is_best_recording(hits.deep_view(), res.deep_view()),
{
    let mut rest = hits;
    let mut i: usize = 0;
    while i < rest.len()
        invariant
            rest == hits,
            i <= rest@.len(),
            forall|j: int|
                0 <= j < i ==> !scored(#[trigger] hits.deep_view()[j].score, MIN_SCORE),
        decreases rest@.len() - i,
    {
        proof {
            assert(hits.deep_view()[i as int] == hits@[i as int].deep_view());
        }
        if score_ok(rest[i].score, MIN_SCORE) {
            let hit = rest.remove(i);
            proof {
                assert(hits.deep_view()[i as int] == hit.deep_view());
            }
            return Some(hit);
        }
        i = i + 1;
    }
    None
}

/// The release is an official one.
pub open spec fn is_official(status: Option<Seq<char>>) -> bool {
    status == Some("Official"@)
}

/// How much a release is preferred: official ones first, then those with a
/// date, since those carry the metadata we actually want and their cover art
/// is the most likely to exist.
pub open spec fn release_rank(r: Release<Seq<char>>) -> int {
    (if is_official(r.status) {
        2int
    } else {
        0
    }) + (if r.date is Some {
        1int
    } else {
        0
    })
}

/// Which releases come into question.
#[derive(Debug, PartialEq, Eq)]
pub enum ReleaseFilter<S = String> {
    /// Those that score high enough.
    Scored,
    /// Those whose title is this one, once normalized.
    Titled(S),
}

impl DeepView for ReleaseFilter {
    type V = ReleaseFilter<Seq<char>>;

    open spec fn deep_view(&self) -> ReleaseFilter<Seq<char>> {
        match *self {
            ReleaseFilter::Scored => ReleaseFilter::Scored,
            ReleaseFilter::Titled(title) => ReleaseFilter::Titled(title@),
        }
    }
}

/// The release comes into question.
pub open spec fn admits(filter: ReleaseFilter<Seq<char>>, r: Release<Seq<char>>) -> bool {
    match filter {
        ReleaseFilter::Scored => scored(r.score, MIN_SCORE),
        ReleaseFilter::Titled(title) => scrobble::normalized(r.title) == scrobble::normalized(
            title,
        ),
    }
}

/// The most preferred of the releases that come into question; of equally
/// preferred ones, the first.
pub open spec fn preferred(
    hits: Seq<Release<Seq<char>>>,
    filter: ReleaseFilter<Seq<char>>,
) -> Option<Release<Seq<char>>>
    decreases hits.len(),
{
    if hits.len() == 0 {
        None
    } else {
        let best = preferred(hits.drop_last(), filter);
        let last = hits.last();
        match best {
            Some(b) if !admits(filter, last) || release_rank(last) <= release_rank(b) => best,
            None if !admits(filter, last) => None,
            _ => Some(last),
        }
    }
}

/// The preferred release comes into question, no release that does is
/// preferred to it, and none before it is its equal. There is one whenever any
/// release comes into question.
pub proof fn law_preferred_release(
    hits: Seq<Release<Seq<char>>>,
    filter: ReleaseFilter<Seq<char>>,
)
    ensures
        match preferred(hits, filter) {
            Some(best) => exists|i: int|
                {
                    &&& 0 <= i < hits.len()
                    &&& #[trigger] hits[i] == best
                    &&& admits(filter, best)
                    &&& forall|j: int|
                        0 <= j < hits.len() && admits(filter, #[trigger] hits[j])
                            ==> release_rank(hits[j]) <= release_rank(best)
                    &&& forall|j: int|
                        0 <= j < i && admits(filter, #[trigger] hits[j]) ==> release_rank(hits[j])
                            < release_rank(best)
                },
            None => forall|j: int| 0 <= j < hits.len() ==> !admits(filter, #[trigger] hits[j]),
        },
    decreases hits.len(),
{
    if hits.len() > 0 {
        let init = hits.drop_last();
        law_preferred_release(init, filter);
        let last = (hits.len() - 1) as int;
        assert(forall|j: int| 0 <= j < last ==> #[trigger] hits[j] == init[j]);
        match preferred(init, filter) {
            Some(b) => {
                let k = choose|i: int|
                    {
                        &&& 0 <= i < init.len()
                        &&& #[trigger] init[i] == b
                        &&& admits(filter, b)
                        &&& forall|j: int|
                            0 <= j < init.len() && admits(filter, #[trigger] init[j])
                                ==> release_rank(init[j]) <= release_rank(b)
                        &&& forall|j: int|
                            0 <= j < i && admits(filter, #[trigger] init[j]) ==> release_rank(
                                init[j],
                            ) < release_rank(b)
                    };
                if preferred(hits, filter) == Some(b) {
                    assert(hits[k] == b);
                } else {
                    assert(hits[last] == hits.last());
                }
            },
            None => {
                if preferred(hits, filter) is Some {
                    assert(hits[last] == hits.last());
                }
            },
        }
    }
}

/// How much a release is preferred, from 0 to 3.
fn rank_of(r: &Release) -> (res: u8)
    ensures
        res as int == release_rank(r.deep_view()),
{
    let official: bool = match &r.status {
        Some(status) => status.as_str().eq("Official"),
        None => false,
    };
    let mut rank: u8 = 0;
    if official {
        rank = rank + 2;
    }
    if r.date.is_some() {
        rank = rank + 1;
    }
    rank
}

fn is_admitted(filter: &ReleaseFilter, r: &Release) -> (res: bool)
    ensures
        res == admits(filter.deep_view(), r.deep_view()),
{
    match filter {
        ReleaseFilter::Scored => score_ok(r.score, MIN_SCORE),
        ReleaseFilter::Titled(title) => scrobble::same_name(r.title.as_str(), title.as_str()),
    }
}

/// Where the preferred release stands.
pub fn preferred_index(hits: &Vec<Release>, filter: &ReleaseFilter) -> (res: Option<usize>)
    ensures
        match res {
            Some(i) => i < hits@.len() && preferred(hits.deep_view(), filter.deep_view()) == Some(
                hits.deep_view()[i as int],
            ),
            None => preferred(hits.deep_view(), filter.deep_view()) is None,
        },
{
    let ghost all = hits.deep_view();
    let mut best: Option<usize> = None;
    let mut i: usize = 0;
    while i < hits.len()
        invariant
            i <= hits@.len(),
            all == hits.deep_view(),
            match best {
                Some(b) => b < i && preferred(all.take(i as int), filter.deep_view()) == Some(
                    all[b as int],
                ),
                None => preferred(all.take(i as int), filter.deep_view()) is None,
            },
        decreases hits@.len() - i,
    {
        proof {
            assert(all.take(i as int + 1).drop_last() =~= all.take(i as int));
            assert(all.take(i as int + 1).last() == hits@[i as int].deep_view());
        }
        if is_admitted(filter, &hits[i]) {
            let better: bool = match best {
                Some(b) => rank_of(&hits[i]) > rank_of(&hits[b]),
                None => true,
            };
            if better {
                best = Some(i);
            }
        }
        i = i + 1;
    }
    proof {
        assert(all.take(i as int) =~= all);
    }
    best
}

/// The most preferred release of a search among those that score high enough.
pub fn best_release(hits: Vec<Release>) -> (res: Option<Release>)
    ensures
        res.deep_view() == preferred(hits.deep_view(), ReleaseFilter::Scored),
{
    let mut rest = hits;
    match preferred_index(&rest, &ReleaseFilter::Scored) {
        Some(i) => {
            let hit = rest.remove(i);
            proof {
                assert(hits.deep_view()[i as int] == hit.deep_view());
            }
            Some(hit)
        },
        None => None,
    }
}

/// What a search comes to: the best of its hits, if the provider answered.
pub fn found_artist(result: ProviderResult<Vec<ArtistMatch>>) -> (res: ProviderResult<ArtistMatch>)
    ensures
        match result {
            Ok(Some(hits)) => res matches Ok(best) && is_best_artist(hits@, best),
            Ok(None) => res == Ok::<Option<ArtistMatch>, super::ProviderError>(None),
            Err(e) => res == Err::<Option<ArtistMatch>, super::ProviderError>(e),
        },
{
    match result {
        Ok(Some(hits)) => Ok(best_artist(&hits)),
        Ok(None) => Ok(None),
        Err(e) => Err(e),
    }
}

/// What a search comes to: the best of its hits, if the provider answered.
pub fn found_recording(result: ProviderResult<Vec<Recording>>) -> (res: ProviderResult<Recording>)
    ensures
        match result {
            Ok(Some(hits)) => res matches Ok(best) && is_best_recording(
                hits.deep_view(),
                best.deep_view(),
            ),
            Ok(None) => res == Ok::<Option<Recording>, super::ProviderError>(None),
            Err(e) => res == Err::<Option<Recording>, super::ProviderError>(e),
        },
{
    match result {
        Ok(Some(hits)) => Ok(best_recording(hits)),
        Ok(None) => Ok(None),
        Err(e) => Err(e),
    }
}

/// What a search comes to: the best of its hits, if the provider answered.
pub fn found_release(result: ProviderResult<Vec<Release>>) -> (res: ProviderResult<Release>)
    ensures
        match result {
            Ok(Some(hits)) => res matches Ok(best) && best.deep_view() == preferred(
                hits.deep_view(),
                ReleaseFilter::Scored,
            ),
            Ok(None) => res == Ok::<Option<Release>, super::ProviderError>(None),
            Err(e) => res == Err::<Option<Release>, super::ProviderError>(e),
        },
{
    match result {
        Ok(Some(hits)) => Ok(best_release(hits)),
        Ok(None) => Ok(None),
        Err(e) => Err(e),
    }
}

/// What the lookup of a release comes to: its group, if it has one.
pub fn found_release_group(result: ProviderResult<Option<ReleaseGroup>>) -> (res: ProviderResult<
    Uuid,
>)
    ensures
        res == (match result {
            Ok(Some(Some(group))) => Ok::<Option<Uuid>, super::ProviderError>(Some(group.id)),
            Ok(_) => Ok(None),
            Err(e) => Err(e),
        }),
{
    match result {
        Ok(Some(Some(group))) => Ok(Some(group.id)),
        Ok(_) => Ok(None),
        Err(e) => Err(e),
    }
}

// ---------------------------------------------------------------------------
// Dates
// ---------------------------------------------------------------------------

/// The date that a text in MusicBrainz's flexible format denotes: as it
/// stands, else with a first day, else with a first month and day.
pub open spec fn mb_date(date: Seq<char>) -> Option<CalendarDate> {
    let parsed = match time::ymd_date(date) {
        Some(d) => Some(d),
        None => match time::ymd_date(date + "-01"@) {
            Some(d) => Some(d),
            None => time::ymd_date(date + "-01-01"@),
        },
    };
    match parsed {
        Some((year, month, day)) => Some(CalendarDate { year, month, day }),
        None => None,
    }
}

/// The date that the parts of a well-shaped text denote, missing parts being
/// the first; `None` where the calendar has no such day.
pub open spec fn shaped_date(date: Seq<char>, parts: int) -> Option<CalendarDate> {
    let year = text::number_value(date.subrange(0, 4)) as int;
    let month = if parts >= 2 {
        text::number_value(date.subrange(5, 7)) as int
    } else {
        1
    };
    let day = if parts >= 3 {
        text::number_value(date.subrange(8, 10)) as int
    } else {
        1
    };
    if time::is_calendar_day(year, month, day) {
        Some(CalendarDate { year: year as i32, month: month as u32, day: day as u32 })
    } else {
        None
    }
}

/// A text of up to four digits denotes a number below ten thousand, and one of
/// two digits a number below one hundred.
proof fn lemma_number_bound(s: Seq<char>)
    requires
        text::is_number(s),
        s.len() <= 4,
    ensures
        s.len() == 2 ==> text::number_value(s) < 100,
        text::number_value(s) < 10_000,
{
    reveal_with_fuel(text::number_value, 5);
}

/// The text that stands for a missing part denotes the first.
proof fn lemma_first_part()
    ensures
        text::number_value(seq!['0', '1']) == 1,
{
    reveal_with_fuel(text::number_value, 3);
    assert(seq!['0', '1'].drop_last() =~= seq!['0']);
    assert(seq!['0'].drop_last() =~= Seq::<char>::empty());
}

/// Parses MusicBrainz's flexible date format ("2004", "2004-05",
/// "2004-05-12") into a date, defaulting missing parts to the first.
pub fn parse_mb_date(date: &str) -> (res: Option<CalendarDate>)
    ensures
        res == mb_date(date@),
        time::is_date_shape(date@, 1) ==> res == shaped_date(date@, 1),
        time::is_date_shape(date@, 2) ==> res == shaped_date(date@, 2),
        time::is_date_shape(date@, 3) ==> res == shaped_date(date@, 3),
{
    proof {
        reveal_strlit("-01");
        reveal_strlit("-01-01");
        lemma_first_part();
        let month = date@ + "-01"@;
        let year = date@ + "-01-01"@;
        if time::is_date_shape(date@, 3) {
            lemma_number_bound(date@.subrange(0, 4));
            lemma_number_bound(date@.subrange(5, 7));
            lemma_number_bound(date@.subrange(8, 10));
            assert(month.subrange(0, 10) =~= date@);
            assert(year.subrange(0, 10) =~= date@);
        }
        if time::is_date_shape(date@, 2) {
            lemma_number_bound(date@.subrange(0, 4));
            lemma_number_bound(date@.subrange(5, 7));
            assert(month.subrange(0, 4) =~= date@.subrange(0, 4));
            assert(month.subrange(5, 7) =~= date@.subrange(5, 7));
            assert(month.subrange(8, 10) =~= seq!['0', '1']);
            assert(time::is_date_shape(month, 3));
            assert(year.subrange(0, 10) =~= month);
        }
        if time::is_date_shape(date@, 1) {
            lemma_number_bound(date@.subrange(0, 4));
            assert(date@.subrange(0, 4) =~= date@);
            assert(month.subrange(0, 4) =~= date@);
            assert(month.subrange(5, 7) =~= seq!['0', '1']);
            assert(time::is_date_shape(month, 2));
            assert(year.subrange(0, 4) =~= date@);
            assert(year.subrange(5, 7) =~= seq!['0', '1']);
            assert(year.subrange(8, 10) =~= seq!['0', '1']);
            assert(time::is_date_shape(year, 3));
        }
    }
    match time::parse_ymd(date) {
        Some(parsed) => Some(parsed),
        None => match time::parse_ymd(text::join2(date, "-01").as_str()) {
            Some(parsed) => Some(parsed),
            None => time::parse_ymd(text::join2(date, "-01-01").as_str()),
        },
    }
}

// ---------------------------------------------------------------------------
// Laws
// ---------------------------------------------------------------------------

/// What MusicBrainz is asked: five hits at most by quoted title and artist, or by
/// quoted name; or one entity by its MBID, with what is wanted of it.
pub proof fn law_musicbrainz_requests(title: Seq<char>, artist: Seq<char>, mbid: Uuid)
    ensures
        recording_search(title, artist).url == "https://musicbrainz.org/ws/2/recording"@,
        recording_search(title, artist).query == seq![
            (
                "query"@,
                "recording"@ + ":\""@ + lucene_quoted(title) + "\" AND artist:\""@ + lucene_quoted(
                    artist,
                ) + "\""@,
            ),
            ("fmt"@, "json"@),
            ("limit"@, "5"@),
        ],
        release_search(title, artist).url == "https://musicbrainz.org/ws/2/release"@,
        release_search(title, artist).query == seq![
            (
                "query"@,
                "release"@ + ":\""@ + lucene_quoted(title) + "\" AND artist:\""@ + lucene_quoted(
                    artist,
                ) + "\""@,
            ),
            ("fmt"@, "json"@),
            ("limit"@, "5"@),
        ],
        artist_search(artist).url == "https://musicbrainz.org/ws/2/artist"@,
        artist_search(artist).query == seq![
            ("query"@, "artist:\""@ + lucene_quoted(artist) + "\""@),
            ("fmt"@, "json"@),
            ("limit"@, "5"@),
        ],
        recording_lookup(mbid).url == "https://musicbrainz.org/ws/2/recording/"@ + ids::hyphenated(
            mbid,
        ),
        recording_lookup(mbid).query == seq![
            ("fmt"@, "json"@),
            ("inc"@, "artist-credits releases release-groups"@),
        ],
        release_lookup(mbid).url == "https://musicbrainz.org/ws/2/release/"@ + ids::hyphenated(
            mbid,
        ),
        release_lookup(mbid).query == seq![("fmt"@, "json"@), ("inc"@, "release-groups"@)],
{
}

/// Quoting leaves every character as it is but for a backslash before each quote
/// and each backslash.
pub proof fn law_quoting_escapes_quotes(s: Seq<char>, c: char)
    ensures
        lucene_quoted(Seq::empty()) == Seq::<char>::empty(),
        c == '"' || c == '\\' ==> lucene_quoted(s.push(c)) == lucene_quoted(s).push('\\').push(c),
        c != '"' && c != '\\' ==> lucene_quoted(s.push(c)) == lucene_quoted(s).push(c),
{
    assert(s.push(c).drop_last() =~= s);
}

/// An artist counts as found from a score of 95 on, and of several the first does;
/// one without a score never does.
pub proof fn law_best_artists(hits: Seq<ArtistMatch>, best: Option<ArtistMatch>, k: int)
    requires
        is_best_artist(hits, best),
        0 <= k <= hits.len(),
        forall|i: int|
            0 <= i < k ==> !((#[trigger] hits[i]).score matches Some(score) && score >= 95),
    ensures
        k == hits.len() ==> best is None,
        k < hits.len() && (hits[k].score matches Some(score) && score >= 95) ==> best == Some(
            hits[k],
        ),
{
    assert forall|i: int| 0 <= i < k implies !scored(#[trigger] hits[i].score, 95) by {
        assert(!(hits[i].score matches Some(score) && score >= 95));
    }
    if k < hits.len() && (hits[k].score matches Some(score) && score >= 95) {
        assert(scored(hits[k].score, 95));
    }
}

/// A recording counts as found from a score of 90 on, and of several the first
/// does; one without a score never does.
pub proof fn law_best_recordings(
    hits: Seq<Recording<Seq<ArtistCredit>, Seq<Release<Seq<char>>>>>,
    best: Option<Recording<Seq<ArtistCredit>, Seq<Release<Seq<char>>>>>,
    k: int,
)
    requires
        is_best_recording(hits, best),
        0 <= k <= hits.len(),
        forall|i: int|
            0 <= i < k ==> !((#[trigger] hits[i]).score matches Some(score) && score >= 90),
    ensures
        k == hits.len() ==> best is None,
        k < hits.len() && (hits[k].score matches Some(score) && score >= 90) ==> best == Some(
            hits[k],
        ),
{
    assert forall|i: int| 0 <= i < k implies !scored(#[trigger] hits[i].score, 90) by {
        assert(!(hits[i].score matches Some(score) && score >= 90));
    }
    if k < hits.len() && (hits[k].score matches Some(score) && score >= 90) {
        assert(scored(hits[k].score, 90));
    }
}

/// An official release is preferred to one that is not, whatever else is known of
/// them; of two that are alike in that, one with a date to one without.
pub proof fn law_release_preferences(a: Release<Seq<char>>, b: Release<Seq<char>>)
    ensures
        a.status == Some("Official"@) && b.status != Some("Official"@) ==> release_rank(a)
            > release_rank(b),
        (a.status == Some("Official"@) <==> b.status == Some("Official"@)) ==> {
            &&& a.date is Some && b.date is None ==> release_rank(a) > release_rank(b)
            &&& (a.date is Some <==> b.date is Some) ==> release_rank(a) == release_rank(b)
        },
{
}

/// A release of a search comes into question from a score of 90 on; one of a known
/// title, when its title is the same once normalized.
pub proof fn law_releases_in_question(r: Release<Seq<char>>, title: Seq<char>)
    ensures
        admits(ReleaseFilter::Scored, r) <==> (r.score matches Some(score) && score >= 90),
        admits(ReleaseFilter::Titled(title), r) <==> scrobble::normalized(r.title)
            == scrobble::normalized(title),
{
}

/// A date is read as it stands; where that is none, as the first day of a month;
/// and where that is none either, as the first day of a year.
pub proof fn law_dates_are_completed(date: Seq<char>, full: (i32, u32, u32))
    ensures
        ({
            let read = CalendarDate { year: full.0, month: full.1, day: full.2 };
            let whole = time::ymd_date(date);
            let month = time::ymd_date(date + "-01"@);
            let year = time::ymd_date(date + "-01-01"@);
            &&& whole == Some(full) ==> mb_date(date) == Some(read)
            &&& whole is None && month == Some(full) ==> mb_date(date) == Some(read)
            &&& whole is None && month is None && year == Some(full) ==> mb_date(date) == Some(read)
            &&& whole is None && month is None && year is None ==> mb_date(date) is None
        }),
{
}

/// Where a date gives no day it is the first of its month, and where it gives no
/// month the first of January; a day that the calendar does not have is no date.
pub proof fn law_missing_parts_are_the_first(date: Seq<char>, parts: int)
    requires
        time::is_date_shape(date, parts),
    ensures
        ({
            let year = text::number_value(date.subrange(0, 4)) as int;
            let month = text::number_value(date.subrange(5, 7)) as int;
            let day = text::number_value(date.subrange(8, 10)) as int;
            &&& parts == 1 ==> shaped_date(date, parts) == Some(
                CalendarDate { year: year as i32, month: 1, day: 1 },
            )
            &&& parts == 2 && 1 <= month <= 12 ==> shaped_date(date, parts) == Some(
                CalendarDate { year: year as i32, month: month as u32, day: 1 },
            )
            &&& parts == 3 && 1 <= month <= 12 && 1 <= day <= 28 ==> shaped_date(date, parts)
                == Some(CalendarDate { year: year as i32, month: month as u32, day: day as u32 })
            &&& parts >= 2 && !(1 <= month <= 12) ==> shaped_date(date, parts) is None
            &&& parts == 3 && !(1 <= day <= 31) ==> shaped_date(date, parts) is None
        }),
{
}

/// What a search that was not answered, or not in time, comes to: no match, or the
/// failure that it was.
pub proof fn law_searches_without_hits(
    e: super::ProviderError,
    artist: ProviderResult<ArtistMatch>,
    no_artist: ProviderResult<ArtistMatch>,
    recording: ProviderResult<Recording>,
    no_recording: ProviderResult<Recording>,
    release: ProviderResult<Release>,
    no_release: ProviderResult<Release>,
)
    requires
        call_ensures(found_artist, (Err::<Option<Vec<ArtistMatch>>, super::ProviderError>(e),), artist),
        call_ensures(found_artist, (Ok::<Option<Vec<ArtistMatch>>, super::ProviderError>(None),), no_artist),
        call_ensures(
            found_recording,
            (Err::<Option<Vec<Recording>>, super::ProviderError>(e),),
            recording,
        ),
        call_ensures(
            found_recording,
            (Ok::<Option<Vec<Recording>>, super::ProviderError>(None),),
            no_recording,
        ),
        call_ensures(
            found_release,
            (Err::<Option<Vec<Release>>, super::ProviderError>(e),),
            release,
        ),
        call_ensures(
            found_release,
            (Ok::<Option<Vec<Release>>, super::ProviderError>(None),),
            no_release,
        ),
    ensures
        artist == Err::<Option<ArtistMatch>, super::ProviderError>(e),
        no_artist == Ok::<Option<ArtistMatch>, super::ProviderError>(None),
        recording == Err::<Option<Recording>, super::ProviderError>(e),
        no_recording == Ok::<Option<Recording>, super::ProviderError>(None),
        release == Err::<Option<Release>, super::ProviderError>(e),
        no_release == Ok::<Option<Release>, super::ProviderError>(None),
{
}

/// The release that is taken of a search is the one that is preferred among those
/// that score 90 or more; there is one whenever any does.
pub proof fn law_found_releases(hits: Vec<Release>, res: ProviderResult<Release>)
    requires
        call_ensures(
            found_release,
            (Ok::<Option<Vec<Release>>, super::ProviderError>(Some(hits)),),
            res,
        ),
    ensures
        res matches Ok(best) && (best is Some <==> exists|i: int|
            0 <= i < hits@.len() && ((#[trigger] hits@[i]).score matches Some(score) && score
                >= 90)),
        res matches Ok(Some(best)) ==> (best.score matches Some(score) && score >= 90),
{
    let all = hits.deep_view();
    law_preferred_release(all, ReleaseFilter::Scored);
    assert(all.len() == hits@.len());
    assert forall|i: int| 0 <= i < hits@.len() implies #[trigger] all[i].score == hits@[i].score by {
        assert(all[i] == hits@[i].deep_view());
    }
    let best = res->Ok_0;
    assert(best.deep_view() == preferred(all, ReleaseFilter::Scored));
    if exists|i: int|
        0 <= i < hits@.len() && ((#[trigger] hits@[i]).score matches Some(score) && score >= 90) {
        let i = choose|i: int|
            0 <= i < hits@.len() && ((#[trigger] hits@[i]).score matches Some(score) && score
                >= 90);
        assert(all[i].score == hits@[i].score);
        assert(admits(ReleaseFilter::Scored, all[i]));
        assert(preferred(all, ReleaseFilter::Scored) is Some);
    }
    if let Some(release) = best {
        let k = choose|k: int|
            0 <= k < all.len() && #[trigger] all[k] == release.deep_view() && admits(
                ReleaseFilter::Scored,
                all[k],
            );
        assert(all[k].score == hits@[k].score);
        assert(release.deep_view().score == release.score);
    }
}

/// The group of a release is the one that its lookup names.
pub proof fn law_found_groups(
    group: ReleaseGroup,
    e: super::ProviderError,
    named: ProviderResult<Uuid>,
    unnamed: ProviderResult<Uuid>,
    unknown: ProviderResult<Uuid>,
    failed: ProviderResult<Uuid>,
)
    requires
        call_ensures(
            found_release_group,
            (Ok::<Option<Option<ReleaseGroup>>, super::ProviderError>(Some(Some(group))),),
            named,
        ),
        call_ensures(
            found_release_group,
            (Ok::<Option<Option<ReleaseGroup>>, super::ProviderError>(Some(None)),),
            unnamed,
        ),
        call_ensures(
            found_release_group,
            (Ok::<Option<Option<ReleaseGroup>>, super::ProviderError>(None),),
            unknown,
        ),
        call_ensures(
            found_release_group,
            (Err::<Option<Option<ReleaseGroup>>, super::ProviderError>(e),),
            failed,
        ),
    ensures
        named == Ok::<Option<Uuid>, super::ProviderError>(Some(group.id)),
        unnamed == Ok::<Option<Uuid>, super::ProviderError>(None),
        unknown == Ok::<Option<Uuid>, super::ProviderError>(None),
        failed == Err::<Option<Uuid>, super::ProviderError>(e),
{
}

} // verus!
