//! How provider metadata is merged into the catalog.
//!
//! Merge policy: `mbid` is an identity anchor, filled only where it is missing
//! and never overwritten, even on forced refresh. Provider-owned fields
//! (images, bio) are filled where missing normally and overwritten on a forced
//! refresh, except an image that the community chose. Names and titles are
//! never touched.
//!
//! `mbid` columns are unique: two catalog rows can resolve to the same
//! MusicBrainz entity. On conflict the update is retried without the MBID
//! rather than failing the whole job.

use crate::ids::Uuid;
use crate::text;
use crate::time::CalendarDate;
use vstd::prelude::*;
use vstd::string::*;

verus! {

#[derive(Debug, PartialEq, Eq)]
pub struct ArtistMetadata<S = String> {
    pub mbid: Option<Uuid>,
    pub image_url: Option<S>,
    pub bio: Option<S>,
}

#[derive(Debug, PartialEq, Eq)]
pub struct AlbumMetadata<S = String> {
    pub mbid: Option<Uuid>,
    pub image_url: Option<S>,
    pub release_date: Option<CalendarDate>,
}

#[derive(Debug, Clone, Copy, PartialEq, Eq, Structural)]
pub struct TrackMetadata {
    pub mbid: Option<Uuid>,
    pub duration_ms: Option<i32>,
}

impl DeepView for ArtistMetadata {
    type V = ArtistMetadata<Seq<char>>;

    open spec fn deep_view(&self) -> ArtistMetadata<Seq<char>> {
        ArtistMetadata {
            mbid: self.mbid,
            image_url: self.image_url.deep_view(),
            bio: self.bio.deep_view(),
        }
    }
}

impl DeepView for AlbumMetadata {
    type V = AlbumMetadata<Seq<char>>;

    open spec fn deep_view(&self) -> AlbumMetadata<Seq<char>> {
        AlbumMetadata {
            mbid: self.mbid,
            image_url: self.image_url.deep_view(),
            release_date: self.release_date,
        }
    }
}

/// Metadata that says nothing.
pub open spec fn no_artist_metadata() -> ArtistMetadata<Seq<char>> {
    ArtistMetadata { mbid: None, image_url: None, bio: None }
}

/// Metadata that says nothing.
pub open spec fn no_album_metadata() -> AlbumMetadata<Seq<char>> {
    AlbumMetadata { mbid: None, image_url: None, release_date: None }
}

impl Default for ArtistMetadata {
    fn default() -> (res: ArtistMetadata)
        ensures
            res.deep_view() == no_artist_metadata(),
    {
        ArtistMetadata { mbid: None, image_url: None, bio: None }
    }
}

impl Default for AlbumMetadata {
    fn default() -> (res: AlbumMetadata)
        ensures
            res.deep_view() == no_album_metadata(),
    {
        AlbumMetadata { mbid: None, image_url: None, release_date: None }
    }
}

/// The enriched columns of an artist.
#[derive(Debug, PartialEq, Eq)]
pub struct ArtistColumns<S = String> {
    pub mbid: Option<Uuid>,
    pub image_url: Option<S>,
    /// The community chose the image.
    pub image_locked: bool,
    pub bio: Option<S>,
}

/// The enriched columns of an album.
#[derive(Debug, PartialEq, Eq)]
pub struct AlbumColumns<S = String> {
    pub mbid: Option<Uuid>,
    pub image_url: Option<S>,
    /// The community chose the image.
    pub image_locked: bool,
    pub release_date: Option<CalendarDate>,
}

/// The enriched columns of a track.
#[derive(Debug, Clone, Copy, PartialEq, Eq, Structural)]
pub struct TrackColumns {
    pub mbid: Option<Uuid>,
    pub duration_ms: Option<i32>,
}

impl DeepView for ArtistColumns {
    type V = ArtistColumns<Seq<char>>;

    open spec fn deep_view(&self) -> ArtistColumns<Seq<char>> {
        ArtistColumns {
            mbid: self.mbid,
            image_url: self.image_url.deep_view(),
            image_locked: self.image_locked,
            bio: self.bio.deep_view(),
        }
    }
}

impl DeepView for AlbumColumns {
    type V = AlbumColumns<Seq<char>>;

    open spec fn deep_view(&self) -> AlbumColumns<Seq<char>> {
        AlbumColumns {
            mbid: self.mbid,
            image_url: self.image_url.deep_view(),
            image_locked: self.image_locked,
            release_date: self.release_date,
        }
    }
}

/// The first of two values that is there.
pub open spec fn first_of<T>(a: Option<T>, b: Option<T>) -> Option<T> {
    match a {
        Some(_) => a,
        None => b,
    }
}

/// The image after a merge: a locked one stays; a forced refresh prefers the
/// new one; else the new one only fills a gap.
pub open spec fn merged_image<T>(
    current: Option<T>,
    locked: bool,
    new: Option<T>,
    force: bool,
) -> Option<T> {
    if locked {
        current
    } else if force {
        first_of(new, current)
    } else {
        first_of(current, new)
    }
}

/// The columns of an artist after `meta` was merged into them.
pub open spec fn merged_artist(
    row: ArtistColumns<Seq<char>>,
    meta: ArtistMetadata<Seq<char>>,
    force: bool,
) -> ArtistColumns<Seq<char>> {
    ArtistColumns {
        mbid: first_of(row.mbid, meta.mbid),
        image_url: merged_image(row.image_url, row.image_locked, meta.image_url, force),
        image_locked: row.image_locked,
        bio: if force {
            first_of(meta.bio, row.bio)
        } else {
            first_of(row.bio, meta.bio)
        },
    }
}

/// The columns of an album after `meta` was merged into them.
pub open spec fn merged_album(
    row: AlbumColumns<Seq<char>>,
    meta: AlbumMetadata<Seq<char>>,
    force: bool,
) -> AlbumColumns<Seq<char>> {
    AlbumColumns {
        mbid: first_of(row.mbid, meta.mbid),
        image_url: merged_image(row.image_url, row.image_locked, meta.image_url, force),
        image_locked: row.image_locked,
        release_date: first_of(row.release_date, meta.release_date),
    }
}

/// The columns of a track after `meta` was merged into them.
pub open spec fn merged_track(row: TrackColumns, meta: TrackMetadata) -> TrackColumns {
    TrackColumns {
        mbid: first_of(row.mbid, meta.mbid),
        duration_ms: first_of(row.duration_ms, meta.duration_ms),
    }
}

fn first_present<T>(a: Option<T>, b: Option<T>) -> (res: Option<T>)
    ensures
        res == first_of(a, b),
{
    match a {
        Some(value) => Some(value),
        None => b,
    }
}

fn merge_image(
    current: Option<String>,
    locked: bool,
    new: Option<String>,
    force: bool,
) -> (res: Option<String>)
    ensures
        res.deep_view() == merged_image(current.deep_view(), locked, new.deep_view(), force),
{
    if locked {
        current
    } else if force {
        first_present(new, current)
    } else {
        first_present(current, new)
    }
}

/// Merges metadata into an artist.
pub fn apply_artist_metadata(row: ArtistColumns, meta: ArtistMetadata, force: bool) -> (res:
    ArtistColumns)
    ensures
        res.deep_view() == merged_artist(row.deep_view(), meta.deep_view(), force),
{
    let bio = if force {
        first_present(meta.bio, row.bio)
    } else {
        first_present(row.bio, meta.bio)
    };
    ArtistColumns {
        mbid: first_present(row.mbid, meta.mbid),
        image_url: merge_image(row.image_url, row.image_locked, meta.image_url, force),
        image_locked: row.image_locked,
        bio,
    }
}

/// Merges metadata into an album.
pub fn apply_album_metadata(row: AlbumColumns, meta: AlbumMetadata, force: bool) -> (res:
    AlbumColumns)
    ensures
        res.deep_view() == merged_album(row.deep_view(), meta.deep_view(), force),
{
    AlbumColumns {
        mbid: first_present(row.mbid, meta.mbid),
        image_url: merge_image(row.image_url, row.image_locked, meta.image_url, force),
        image_locked: row.image_locked,
        release_date: first_present(row.release_date, meta.release_date),
    }
}

/// Merges metadata into a track.
pub fn apply_track_metadata(row: TrackColumns, meta: TrackMetadata) -> (res: TrackColumns)
    ensures
        res == merged_track(row, meta),
{
    TrackColumns {
        mbid: first_present(row.mbid, meta.mbid),
        duration_ms: first_present(row.duration_ms, meta.duration_ms),
    }
}

/// An MBID that is known never changes, whatever is merged.
pub proof fn law_mbid_is_never_overwritten(
    artist: ArtistColumns<Seq<char>>,
    artist_meta: ArtistMetadata<Seq<char>>,
    album: AlbumColumns<Seq<char>>,
    album_meta: AlbumMetadata<Seq<char>>,
    track: TrackColumns,
    track_meta: TrackMetadata,
    force: bool,
)
    ensures
        artist.mbid is Some ==> merged_artist(artist, artist_meta, force).mbid == artist.mbid,
        album.mbid is Some ==> merged_album(album, album_meta, force).mbid == album.mbid,
        track.mbid is Some ==> merged_track(track, track_meta).mbid == track.mbid,
{
}

/// An image that the community chose survives every merge, and stays protected.
pub proof fn law_locked_image_survives(
    artist: ArtistColumns<Seq<char>>,
    artist_meta: ArtistMetadata<Seq<char>>,
    album: AlbumColumns<Seq<char>>,
    album_meta: AlbumMetadata<Seq<char>>,
    force: bool,
)
    ensures
        artist.image_locked ==> {
            let after = merged_artist(artist, artist_meta, force);
            after.image_url == artist.image_url && after.image_locked
        },
        album.image_locked ==> {
            let after = merged_album(album, album_meta, force);
            after.image_url == album.image_url && after.image_locked
        },
{
}

/// Without a forced refresh, nothing that is there is overwritten.
pub proof fn law_unforced_merge_only_fills(
    artist: ArtistColumns<Seq<char>>,
    artist_meta: ArtistMetadata<Seq<char>>,
    album: AlbumColumns<Seq<char>>,
    album_meta: AlbumMetadata<Seq<char>>,
)
    ensures
        ({
            let after = merged_artist(artist, artist_meta, false);
            &&& artist.image_url is Some ==> after.image_url == artist.image_url
            &&& artist.bio is Some ==> after.bio == artist.bio
        }),
        ({
            let after = merged_album(album, album_meta, false);
            &&& album.image_url is Some ==> after.image_url == album.image_url
        }),
{
}

/// A forced refresh overwrites images and the bio and nothing else that is
/// there: release dates and durations only ever fill gaps.
pub proof fn law_only_images_and_bio_are_overwritten(
    album: AlbumColumns<Seq<char>>,
    album_meta: AlbumMetadata<Seq<char>>,
    track: TrackColumns,
    track_meta: TrackMetadata,
    force: bool,
)
    ensures
        album.release_date is Some ==> merged_album(album, album_meta, force).release_date
            == album.release_date,
        track.duration_ms is Some ==> merged_track(track, track_meta).duration_ms
            == track.duration_ms,
{
}

/// A merge never empties a column.
pub proof fn law_merge_never_erases(
    artist: ArtistColumns<Seq<char>>,
    artist_meta: ArtistMetadata<Seq<char>>,
    album: AlbumColumns<Seq<char>>,
    album_meta: AlbumMetadata<Seq<char>>,
    force: bool,
)
    ensures
        ({
            let after = merged_artist(artist, artist_meta, force);
            &&& artist.image_url is Some ==> after.image_url is Some
            &&& artist.bio is Some ==> after.bio is Some
        }),
        album.image_url is Some ==> merged_album(album, album_meta, force).image_url is Some,
{
}

/// Merging the same metadata again changes nothing.
pub proof fn law_merge_is_idempotent(
    artist: ArtistColumns<Seq<char>>,
    artist_meta: ArtistMetadata<Seq<char>>,
    album: AlbumColumns<Seq<char>>,
    album_meta: AlbumMetadata<Seq<char>>,
    track: TrackColumns,
    track_meta: TrackMetadata,
    force: bool,
)
    ensures
        ({
            let after = merged_artist(artist, artist_meta, force);
            merged_artist(after, artist_meta, force) == after
        }),
        ({
            let after = merged_album(album, album_meta, force);
            merged_album(after, album_meta, force) == after
        }),
        ({
            let after = merged_track(track, track_meta);
            merged_track(after, track_meta) == after
        }),
{
}

/// A merge fills every gap that the metadata can fill, forced or not: a column
/// that is empty gets what the metadata has for it. The one exception is the
/// image that the community chose, empty or not.
pub proof fn law_merge_fills_every_gap(
    artist: ArtistColumns<Seq<char>>,
    artist_meta: ArtistMetadata<Seq<char>>,
    album: AlbumColumns<Seq<char>>,
    album_meta: AlbumMetadata<Seq<char>>,
    track: TrackColumns,
    track_meta: TrackMetadata,
    force: bool,
)
    ensures
        ({
            let after = merged_artist(artist, artist_meta, force);
            &&& artist.mbid is None ==> after.mbid == artist_meta.mbid
            &&& artist.image_url is None && !artist.image_locked ==> after.image_url
                == artist_meta.image_url
            &&& artist.bio is None ==> after.bio == artist_meta.bio
        }),
        ({
            let after = merged_album(album, album_meta, force);
            &&& album.mbid is None ==> after.mbid == album_meta.mbid
            &&& album.image_url is None && !album.image_locked ==> after.image_url
                == album_meta.image_url
            &&& album.release_date is None ==> after.release_date == album_meta.release_date
        }),
        ({
            let after = merged_track(track, track_meta);
            &&& track.mbid is None ==> after.mbid == track_meta.mbid
            &&& track.duration_ms is None ==> after.duration_ms == track_meta.duration_ms
        }),
{
}

/// A forced refresh takes the new image, unless the community chose the old
/// one, and the new bio.
pub proof fn law_forced_merge_takes_what_is_new(
    artist: ArtistColumns<Seq<char>>,
    artist_meta: ArtistMetadata<Seq<char>>,
    album: AlbumColumns<Seq<char>>,
    album_meta: AlbumMetadata<Seq<char>>,
)
    ensures
        ({
            let after = merged_artist(artist, artist_meta, true);
            &&& artist_meta.image_url is Some && !artist.image_locked ==> after.image_url
                == artist_meta.image_url
            &&& artist_meta.bio is Some ==> after.bio == artist_meta.bio
        }),
        album_meta.image_url is Some && !album.image_locked ==> merged_album(
            album,
            album_meta,
            true,
        ).image_url == album_meta.image_url,
{
}

/// Where the metadata has nothing to say of a column, the column stays as it
/// is; and no merge ever locks or unlocks an image.
pub proof fn law_merge_leaves_the_rest_alone(
    artist: ArtistColumns<Seq<char>>,
    artist_meta: ArtistMetadata<Seq<char>>,
    album: AlbumColumns<Seq<char>>,
    album_meta: AlbumMetadata<Seq<char>>,
    track: TrackColumns,
    track_meta: TrackMetadata,
    force: bool,
)
    ensures
        ({
            let after = merged_artist(artist, artist_meta, force);
            &&& artist_meta.mbid is None ==> after.mbid == artist.mbid
            &&& artist_meta.image_url is None ==> after.image_url == artist.image_url
            &&& artist_meta.bio is None ==> after.bio == artist.bio
            &&& after.image_locked == artist.image_locked
        }),
        ({
            let after = merged_album(album, album_meta, force);
            &&& album_meta.mbid is None ==> after.mbid == album.mbid
            &&& album_meta.image_url is None ==> after.image_url == album.image_url
            &&& album_meta.release_date is None ==> after.release_date == album.release_date
            &&& after.image_locked == album.image_locked
        }),
        ({
            let after = merged_track(track, track_meta);
            &&& track_meta.mbid is None ==> after.mbid == track.mbid
            &&& track_meta.duration_ms is None ==> after.duration_ms == track.duration_ms
        }),
{
}

/// The text in a column, or in the metadata for it.
pub open spec fn shown(text: Option<String>) -> Option<Seq<char>> {
    match text {
        Some(text) => Some(text@),
        None => None,
    }
}

/// What a merge leaves in the columns of an artist: an MBID that was known, else
/// the new one; a locked image as it was; any other image and the bio as they were
/// where they were there and nothing is forced, or where there is nothing new; and
/// the new ones everywhere else.
pub proof fn law_merged_artists(
    row: ArtistColumns,
    meta: ArtistMetadata,
    force: bool,
    res: ArtistColumns,
)
    requires
        call_ensures(apply_artist_metadata, (row, meta, force), res),
    ensures
        res.mbid == if row.mbid is Some {
            row.mbid
        } else {
            meta.mbid
        },
        res.image_locked == row.image_locked,
        shown(res.image_url) == if row.image_locked || meta.image_url is None || (!force
            && row.image_url is Some) {
            shown(row.image_url)
        } else {
            shown(meta.image_url)
        },
        shown(res.bio) == if meta.bio is None || (!force && row.bio is Some) {
            shown(row.bio)
        } else {
            shown(meta.bio)
        },
{
    assert(shown(res.image_url) == res.deep_view().image_url);
    assert(shown(res.bio) == res.deep_view().bio);
    assert(shown(row.image_url) == row.deep_view().image_url);
    assert(shown(row.bio) == row.deep_view().bio);
    assert(shown(meta.image_url) == meta.deep_view().image_url);
    assert(shown(meta.bio) == meta.deep_view().bio);
}

/// What a merge leaves in the columns of an album: the MBID, the date and the image
/// by the rules for artists, where a date is never overwritten.
pub proof fn law_merged_albums(
    row: AlbumColumns,
    meta: AlbumMetadata,
    force: bool,
    res: AlbumColumns,
)
    requires
        call_ensures(apply_album_metadata, (row, meta, force), res),
    ensures
        res.mbid == if row.mbid is Some {
            row.mbid
        } else {
            meta.mbid
        },
        res.image_locked == row.image_locked,
        shown(res.image_url) == if row.image_locked || meta.image_url is None || (!force
            && row.image_url is Some) {
            shown(row.image_url)
        } else {
            shown(meta.image_url)
        },
        res.release_date == if row.release_date is Some {
            row.release_date
        } else {
            meta.release_date
        },
{
    assert(shown(res.image_url) == res.deep_view().image_url);
    assert(shown(row.image_url) == row.deep_view().image_url);
    assert(shown(meta.image_url) == meta.deep_view().image_url);
}

/// What a merge leaves in the columns of a track: what was there, and what is new
/// where nothing was.
pub proof fn law_merged_tracks(row: TrackColumns, meta: TrackMetadata, res: TrackColumns)
    requires
        call_ensures(apply_track_metadata, (row, meta), res),
    ensures
        row.mbid is Some ==> res.mbid == row.mbid,
        row.mbid is None ==> res.mbid == meta.mbid,
        row.duration_ms is Some ==> res.duration_ms == row.duration_ms,
        row.duration_ms is None ==> res.duration_ms == meta.duration_ms,
{
}

// ---------------------------------------------------------------------------
// Writing to the catalog
// ---------------------------------------------------------------------------

/// Metadata on its way into the catalog.
#[derive(Debug, PartialEq, Eq)]
pub enum CatalogWrite<S = String> {
    Artist { artist_id: i64, artist: ArtistMetadata<S>, overwrite: bool },
    Album { album_id: i64, album: AlbumMetadata<S>, overwrite: bool },
    Track { track_id: i64, track: TrackMetadata },
}

impl DeepView for CatalogWrite {
    type V = CatalogWrite<Seq<char>>;

    open spec fn deep_view(&self) -> CatalogWrite<Seq<char>> {
        match *self {
            CatalogWrite::Artist { artist_id, artist, overwrite } => CatalogWrite::Artist {
                artist_id,
                artist: artist.deep_view(),
                overwrite,
            },
            CatalogWrite::Album { album_id, album, overwrite } => CatalogWrite::Album {
                album_id,
                album: album.deep_view(),
                overwrite,
            },
            CatalogWrite::Track { track_id, track } => CatalogWrite::Track { track_id, track },
        }
    }
}

/// Why a write failed: the database constraint it broke, if any, and what the
/// database said.
#[derive(Debug, PartialEq, Eq)]
pub struct WriteFailure<S = String> {
    pub constraint: Option<S>,
    pub error: S,
}

impl DeepView for WriteFailure {
    type V = WriteFailure<Seq<char>>;

    open spec fn deep_view(&self) -> WriteFailure<Seq<char>> {
        WriteFailure { constraint: self.constraint.deep_view(), error: self.error@ }
    }
}

/// Another row already has the MBID.
pub open spec fn mbid_conflict(failure: WriteFailure<Seq<char>>) -> bool {
    failure.constraint matches Some(constraint) && text::occurs_in(constraint, "_mbid_"@)
}

/// Whether another row already has the MBID.
pub fn is_mbid_conflict(failure: &WriteFailure) -> (res: bool)
    ensures
        res == mbid_conflict(failure.deep_view()),
{
    match &failure.constraint {
        Some(constraint) => text::contains(constraint.as_str(), "_mbid_"),
        None => false,
    }
}

/// Writes that are made one after the other.
#[derive(Debug, PartialEq, Eq)]
pub struct WriteBatch<L = Vec<CatalogWrite>> {
    pub writes: L,
    /// The write that is to be made next.
    pub next: usize,
    /// Whether it is made with its MBID, or without.
    pub with_mbid: bool,
}

impl DeepView for WriteBatch {
    type V = WriteBatch<Seq<CatalogWrite<Seq<char>>>>;

    open spec fn deep_view(&self) -> WriteBatch<Seq<CatalogWrite<Seq<char>>>> {
        WriteBatch { writes: self.writes.deep_view(), next: self.next, with_mbid: self.with_mbid }
    }
}

/// A write without the MBID it would set.
pub open spec fn without_mbid(write: CatalogWrite<Seq<char>>) -> CatalogWrite<Seq<char>> {
    match write {
        CatalogWrite::Artist { artist_id, artist, overwrite } => CatalogWrite::Artist {
            artist_id,
            artist: ArtistMetadata { mbid: None, ..artist },
            overwrite,
        },
        CatalogWrite::Album { album_id, album, overwrite } => CatalogWrite::Album {
            album_id,
            album: AlbumMetadata { mbid: None, ..album },
            overwrite,
        },
        CatalogWrite::Track { track_id, track } => CatalogWrite::Track {
            track_id,
            track: TrackMetadata { mbid: None, ..track },
        },
    }
}

/// The write that a batch is at, as it is to be made.
pub open spec fn planned_write(batch: WriteBatch<Seq<CatalogWrite<Seq<char>>>>) -> Option<
    CatalogWrite<Seq<char>>,
> {
    if batch.next >= batch.writes.len() {
        None
    } else if batch.with_mbid {
        Some(batch.writes[batch.next as int])
    } else {
        Some(without_mbid(batch.writes[batch.next as int]))
    }
}

/// The write that a batch is at, as it is to be made.
pub fn next_write(batch: &WriteBatch) -> (res: Option<CatalogWrite>)
    ensures
        res.deep_view() == planned_write(batch.deep_view()),
{
    if batch.next >= batch.writes.len() {
        return None;
    }
    let keep: bool = batch.with_mbid;
    Some(
        match &batch.writes[batch.next] {
            CatalogWrite::Artist { artist_id, artist, overwrite } => CatalogWrite::Artist {
                artist_id: *artist_id,
                artist: ArtistMetadata {
                    mbid: if keep {
                        artist.mbid
                    } else {
                        None
                    },
                    image_url: artist.image_url.clone(),
                    bio: artist.bio.clone(),
                },
                overwrite: *overwrite,
            },
            CatalogWrite::Album { album_id, album, overwrite } => CatalogWrite::Album {
                album_id: *album_id,
                album: AlbumMetadata {
                    mbid: if keep {
                        album.mbid
                    } else {
                        None
                    },
                    image_url: album.image_url.clone(),
                    release_date: album.release_date,
                },
                overwrite: *overwrite,
            },
            CatalogWrite::Track { track_id, track } => CatalogWrite::Track {
                track_id: *track_id,
                track: TrackMetadata {
                    mbid: if keep {
                        track.mbid
                    } else {
                        None
                    },
                    duration_ms: track.duration_ms,
                },
            },
        },
    )
}

/// Where a batch stands: more to write, or its end.
#[derive(Debug, PartialEq, Eq)]
pub enum BatchStep<S = String, L = Vec<CatalogWrite>> {
    Write { batch: WriteBatch<L> },
    Done { result: Result<(), S> },
}

impl DeepView for BatchStep {
    type V = BatchStep<Seq<char>, Seq<CatalogWrite<Seq<char>>>>;

    open spec fn deep_view(&self) -> BatchStep<Seq<char>, Seq<CatalogWrite<Seq<char>>>> {
        match *self {
            BatchStep::Write { batch } => BatchStep::Write { batch: batch.deep_view() },
            BatchStep::Done { result } => BatchStep::Done { result: text::result_view(result) },
        }
    }
}

/// How a batch begins; one without writes is done.
pub open spec fn batch_begin(writes: Seq<CatalogWrite<Seq<char>>>) -> BatchStep<
    Seq<char>,
    Seq<CatalogWrite<Seq<char>>>,
> {
    if writes.len() == 0 {
        BatchStep::Done { result: Ok(()) }
    } else {
        BatchStep::Write { batch: WriteBatch { writes, next: 0, with_mbid: true } }
    }
}

/// What follows a write: after a success the next one; after an MBID conflict
/// the same one without its MBID; any other failure ends the batch.
pub open spec fn batch_next(
    batch: WriteBatch<Seq<CatalogWrite<Seq<char>>>>,
    reply: Result<(), WriteFailure<Seq<char>>>,
) -> BatchStep<Seq<char>, Seq<CatalogWrite<Seq<char>>>> {
    match reply {
        Ok(()) => if batch.next + 1 >= batch.writes.len() {
            BatchStep::Done { result: Ok(()) }
        } else {
            BatchStep::Write {
                batch: WriteBatch {
                    writes: batch.writes,
                    next: (batch.next + 1) as usize,
                    with_mbid: true,
                },
            }
        },
        Err(failure) => if batch.with_mbid && mbid_conflict(failure) {
            BatchStep::Write { batch: WriteBatch { with_mbid: false, ..batch } }
        } else {
            BatchStep::Done { result: Err(failure.error) }
        },
    }
}

/// Begins a batch.
pub fn begin_batch(writes: Vec<CatalogWrite>) -> (res: BatchStep)
    ensures
        res.deep_view() == batch_begin(writes.deep_view()),
{
    if writes.len() == 0 {
        BatchStep::Done { result: Ok(()) }
    } else {
        BatchStep::Write { batch: WriteBatch { writes, next: 0, with_mbid: true } }
    }
}

/// Takes the answer to the write that was made.
pub fn advance_batch(batch: WriteBatch, reply: Result<(), WriteFailure>) -> (res: BatchStep)
    ensures
        res.deep_view() == batch_next(batch.deep_view(), text::result_view(reply)),
{
    match reply {
        Ok(()) => if batch.writes.len() <= 1 || batch.next >= batch.writes.len() - 1 {
            BatchStep::Done { result: Ok(()) }
        } else {
            BatchStep::Write {
                batch: WriteBatch { writes: batch.writes, next: batch.next + 1, with_mbid: true },
            }
        },
        Err(failure) => if batch.with_mbid && is_mbid_conflict(&failure) {
            BatchStep::Write {
                batch: WriteBatch { writes: batch.writes, next: batch.next, with_mbid: false },
            }
        } else {
            BatchStep::Done { result: Err(failure.error) }
        },
    }
}

/// What the database would answer to each write, made with its MBID and made
/// without.
pub struct WriteAnswers {
    pub with_mbid: spec_fn(int) -> Result<(), WriteFailure<Seq<char>>>,
    pub without_mbid: spec_fn(int) -> Result<(), WriteFailure<Seq<char>>>,
}

/// What comes of write number `i`: an MBID conflict is not the end of it.
pub open spec fn write_outcome(i: int, a: WriteAnswers) -> Result<(), Seq<char>> {
    match (a.with_mbid)(i) {
        Ok(()) => Ok(()),
        Err(failure) => if mbid_conflict(failure) {
            match (a.without_mbid)(i) {
                Ok(()) => Ok(()),
                Err(again) => Err(again.error),
            }
        } else {
            Err(failure.error)
        },
    }
}

/// What comes of the writes from number `i` on: the first that fails fails the
/// batch.
pub open spec fn batch_outcome(count: int, i: int, a: WriteAnswers) -> Result<(), Seq<char>>
    decreases count - i,
{
    if i >= count {
        Ok(())
    } else {
        match write_outcome(i, a) {
            Ok(()) => batch_outcome(count, i + 1, a),
            Err(error) => Err(error),
        }
    }
}

/// The state after `n` writes were answered.
pub open spec fn batch_run(
    step: BatchStep<Seq<char>, Seq<CatalogWrite<Seq<char>>>>,
    a: WriteAnswers,
    n: nat,
) -> BatchStep<Seq<char>, Seq<CatalogWrite<Seq<char>>>>
    decreases n,
{
    match step {
        BatchStep::Write { batch } if n > 0 => batch_run(
            batch_next(
                batch,
                if batch.with_mbid {
                    (a.with_mbid)(batch.next as int)
                } else {
                    (a.without_mbid)(batch.next as int)
                },
            ),
            a,
            (n - 1) as nat,
        ),
        _ => step,
    }
}

proof fn lemma_batch_from(
    writes: Seq<CatalogWrite<Seq<char>>>,
    next: usize,
    a: WriteAnswers,
    n: nat,
)
    requires
        writes.len() <= usize::MAX,
        next < writes.len(),
        n >= 2 * (writes.len() - next),
    ensures
        batch_run(
            BatchStep::Write { batch: WriteBatch { writes, next, with_mbid: true } },
            a,
            n,
        ) == (BatchStep::<Seq<char>, Seq<CatalogWrite<Seq<char>>>>::Done {
            result: batch_outcome(writes.len() as int, next as int, a),
        }),
    decreases writes.len() - next,
{
    reveal_with_fuel(batch_run, 3);
    reveal_with_fuel(batch_outcome, 2);
    let last = next + 1 >= writes.len();
    let ok_first = (a.with_mbid)(next as int) is Ok;
    if !last {
        if ok_first {
            lemma_batch_from(writes, (next + 1) as usize, a, (n - 1) as nat);
        } else {
            lemma_batch_from(writes, (next + 1) as usize, a, (n - 2) as nat);
        }
    }
}

/// Two answers per write bring every batch to the outcome that they determine:
/// a conflicting MBID costs that write its MBID, not the batch.
pub proof fn law_batch(writes: Seq<CatalogWrite<Seq<char>>>, a: WriteAnswers, n: nat)
    requires
        writes.len() <= usize::MAX,
        n >= 2 * writes.len(),
    ensures
        batch_run(batch_begin(writes), a, n) == (BatchStep::<
            Seq<char>,
            Seq<CatalogWrite<Seq<char>>>,
        >::Done { result: batch_outcome(writes.len() as int, 0, a) }),
{
    if writes.len() > 0 {
        lemma_batch_from(writes, 0, a, n);
    }
}

/// A failed write is an MBID conflict exactly when the constraint that it broke
/// has `_mbid_` somewhere in its name.
pub proof fn law_mbid_conflicts_are_told_by_the_constraint(failure: WriteFailure<Seq<char>>)
    ensures
        failure.constraint is None ==> !mbid_conflict(failure),
        failure.constraint matches Some(name) ==> (mbid_conflict(failure) <==> exists|at: int|
            0 <= at <= name.len() - 6 && #[trigger] name.subrange(at, at + 6) == "_mbid_"@),
{
    reveal_strlit("_mbid_");
    if let Some(name) = failure.constraint {
        if mbid_conflict(failure) {
            let at = choose|at: int| text::occurs_at(name, "_mbid_"@, at);
            assert(name.subrange(at, at + 6) == "_mbid_"@);
        }
        if exists|at: int|
            0 <= at <= name.len() - 6 && #[trigger] name.subrange(at, at + 6) == "_mbid_"@ {
            let at = choose|at: int|
                0 <= at <= name.len() - 6 && #[trigger] name.subrange(at, at + 6) == "_mbid_"@;
            assert(text::occurs_at(name, "_mbid_"@, at));
        }
    }
}

/// A retried write goes to the same entity and says the same of it, but for the
/// MBID, of which it says nothing.
pub proof fn law_a_retry_only_drops_the_mbid(
    artist_id: i64,
    artist: ArtistMetadata<Seq<char>>,
    album_id: i64,
    album: AlbumMetadata<Seq<char>>,
    track_id: i64,
    track: TrackMetadata,
    overwrite: bool,
)
    ensures
        without_mbid(CatalogWrite::Artist { artist_id, artist, overwrite }) == (
        CatalogWrite::<Seq<char>>::Artist {
            artist_id,
            artist: ArtistMetadata { mbid: None, image_url: artist.image_url, bio: artist.bio },
            overwrite,
        }),
        without_mbid(CatalogWrite::Album { album_id, album, overwrite }) == (
        CatalogWrite::<Seq<char>>::Album {
            album_id,
            album: AlbumMetadata {
                mbid: None,
                image_url: album.image_url,
                release_date: album.release_date,
            },
            overwrite,
        }),
        without_mbid(CatalogWrite::Track { track_id, track }) == (
        CatalogWrite::<Seq<char>>::Track {
            track_id,
            track: TrackMetadata { mbid: None, duration_ms: track.duration_ms },
        }),
{
}

/// The writes of a batch are made in order, each as it was given; the one that
/// met an MBID conflict is made once more, without its MBID.
pub proof fn law_batch_makes_the_given_writes(
    writes: Seq<CatalogWrite<Seq<char>>>,
    next: usize,
    failure: WriteFailure<Seq<char>>,
)
    requires
        next < writes.len() <= usize::MAX,
        mbid_conflict(failure),
    ensures
        batch_begin(writes) matches BatchStep::Write { batch } && planned_write(batch) == Some(
            writes[0],
        ),
        ({
            let batch = WriteBatch { writes, next, with_mbid: true };
            &&& planned_write(batch) == Some(writes[next as int])
            &&& next + 1 < writes.len() ==> (batch_next(batch, Ok(())) matches BatchStep::Write {
                batch: following,
            } && planned_write(following) == Some(writes[next + 1]))
            &&& batch_next(batch, Err(failure)) matches BatchStep::Write { batch: again }
                && planned_write(again) == Some(without_mbid(writes[next as int]))
        }),
{
}

/// A write comes off exactly when the database takes it, or refuses nothing but
/// its MBID and takes it without; else it fails with what the database said last.
pub proof fn law_write_outcomes(i: int, a: WriteAnswers)
    ensures
        write_outcome(i, a) is Ok <==> ((a.with_mbid)(i) is Ok || ((a.with_mbid)(
            i,
        ) matches Err(failure) && mbid_conflict(failure) && (a.without_mbid)(i) is Ok)),
        (a.with_mbid)(i) matches Err(failure) ==> {
            &&& !mbid_conflict(failure) ==> write_outcome(i, a) == Err::<(), Seq<char>>(
                failure.error,
            )
            &&& mbid_conflict(failure) ==> ((a.without_mbid)(i) matches Err(again) ==>
                write_outcome(i, a) == Err::<(), Seq<char>>(again.error))
        },
{
}

/// A batch comes off exactly when all its writes do; else it fails as the first
/// of them that does.
pub proof fn law_batch_outcomes(count: int, from: int, a: WriteAnswers)
    ensures
        batch_outcome(count, from, a) is Ok <==> forall|i: int|
            from <= i < count ==> #[trigger] write_outcome(i, a) is Ok,
        forall|k: int|
            from <= k < count && #[trigger] write_outcome(k, a) is Err && (forall|i: int|
                from <= i < k ==> #[trigger] write_outcome(i, a) is Ok) ==> batch_outcome(
                count,
                from,
                a,
            ) == write_outcome(k, a),
    decreases count - from,
{
    if from < count {
        law_batch_outcomes(count, from + 1, a);
        assert forall|k: int|
            from <= k < count && #[trigger] write_outcome(k, a) is Err && (forall|i: int|
                from <= i < k ==> #[trigger] write_outcome(i, a) is Ok) implies batch_outcome(
            count,
            from,
            a,
        ) == write_outcome(k, a) by {
            if k > from {
                assert(write_outcome(from, a) is Ok);
            }
        }
    }
}

} // verus!
