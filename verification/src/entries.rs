//! Catalog entries by name: how a listen's artist, album and track find the
//! rows they belong to.
//!
//! An entry is known by its normalized name. The row keeps the spelling it was
//! first created with; later listens only add to it what it lacks.

use crate::metadata;
use crate::scrobble;
use crate::text;
use vstd::prelude::*;
use vstd::string::*;

verus! {

/// The name of a catalog entry, as its row has it.
#[derive(Debug, PartialEq, Eq)]
pub struct EntryName<S = String> {
    /// The spelling that is shown.
    pub shown: S,
    /// What the entry is found by.
    pub normalized: S,
}

impl DeepView for EntryName {
    type V = EntryName<Seq<char>>;

    open spec fn deep_view(&self) -> EntryName<Seq<char>> {
        EntryName { shown: self.shown@, normalized: self.normalized@ }
    }
}

/// The name that a new entry gets from a listen.
pub open spec fn new_name(name: Seq<char>) -> EntryName<Seq<char>> {
    EntryName { shown: text::trimmed(name), normalized: scrobble::normalized(name) }
}

/// The name of the entry once a listen by `name` has found or created it.
pub open spec fn entry_name(existing: Option<EntryName<Seq<char>>>, name: Seq<char>) -> EntryName<
    Seq<char>,
> {
    match existing {
        Some(row) => row,
        None => new_name(name),
    }
}

fn named(existing: Option<EntryName>, name: &str) -> (res: EntryName)
    ensures
        res.deep_view() == entry_name(existing.deep_view(), name@),
{
    match existing {
        Some(row) => row,
        None => EntryName {
            shown: name.trim().to_owned(),
            normalized: scrobble::normalize_name(name),
        },
    }
}

/// Finds an artist by their normalized name or creates one. `existing` is the
/// row that has that normalized name: its casing is preserved, so the
/// first-inserted casing wins.
pub fn find_or_create_artist(existing: Option<EntryName>, name: &str) -> (res: EntryName)
    ensures
        res.deep_view() == entry_name(existing.deep_view(), name@),
{
    named(existing, name)
}

/// Finds an album of an artist by its normalized title or creates one, as
/// [`find_or_create_artist`] does for artists.
pub fn find_or_create_album(existing: Option<EntryName>, title: &str) -> (res: EntryName)
    ensures
        res.deep_view() == entry_name(existing.deep_view(), title@),
{
    named(existing, title)
}

/// What the row of a track holds that a listen can say something about.
#[derive(Debug, PartialEq, Eq)]
pub struct TrackEntry<S = String> {
    pub title: EntryName<S>,
    pub album_id: Option<i64>,
    pub duration_ms: Option<i32>,
}

impl DeepView for TrackEntry {
    type V = TrackEntry<Seq<char>>;

    open spec fn deep_view(&self) -> TrackEntry<Seq<char>> {
        TrackEntry {
            title: self.title.deep_view(),
            album_id: self.album_id,
            duration_ms: self.duration_ms,
        }
    }
}

/// The row of a track once a listen has found or created it.
pub open spec fn track_entry(
    existing: Option<TrackEntry<Seq<char>>>,
    album_id: Option<i64>,
    title: Seq<char>,
    duration_ms: Option<i32>,
) -> TrackEntry<Seq<char>> {
    match existing {
        Some(row) => TrackEntry {
            title: row.title,
            album_id: metadata::first_of(row.album_id, album_id),
            duration_ms: metadata::first_of(row.duration_ms, duration_ms),
        },
        None => TrackEntry { title: new_name(title), album_id, duration_ms },
    }
}

/// Finds a track of an artist by its normalized title or creates one.
///
/// In a row that exists, album and duration are filled in only where they are
/// missing. This lets callers enrich incomplete records without overwriting
/// good data.
pub fn find_or_create_track(
    existing: Option<TrackEntry>,
    album_id: Option<i64>,
    title: &str,
    duration_ms: Option<i32>,
) -> (res: TrackEntry)
    ensures
        res.deep_view() == track_entry(existing.deep_view(), album_id, title@, duration_ms),
{
    match existing {
        Some(row) => TrackEntry {
            title: row.title,
            album_id: match row.album_id {
                Some(id) => Some(id),
                None => album_id,
            },
            duration_ms: match row.duration_ms {
                Some(duration) => Some(duration),
                None => duration_ms,
            },
        },
        None => TrackEntry { title: named(None, title), album_id, duration_ms },
    }
}

// ---------------------------------------------------------------------------
// Laws
// ---------------------------------------------------------------------------

/// An entry is found again by the name it shows.
pub proof fn law_shown_name_finds_its_entry(name: Seq<char>)
    ensures
        scrobble::normalized(new_name(name).shown) == new_name(name).normalized,
{
    scrobble::law_normalized_ignores_padding(name);
}

/// The first spelling wins: another name for the same entry changes nothing in
/// the row that the first one created.
pub proof fn law_first_spelling_wins(first: Seq<char>, second: Seq<char>)
    requires
        scrobble::normalized(first) == scrobble::normalized(second),
    ensures
        entry_name(None, second).normalized == entry_name(None, first).normalized,
        entry_name(Some(entry_name(None, first)), second) == entry_name(None, first),
{
}

/// A listen never takes anything from a track's row nor changes what the row
/// knows: it fills gaps.
pub proof fn law_listens_only_fill_gaps(
    row: TrackEntry<Seq<char>>,
    album_id: Option<i64>,
    title: Seq<char>,
    duration_ms: Option<i32>,
)
    ensures
        track_entry(Some(row), album_id, title, duration_ms).title == row.title,
        row.album_id is Some ==> track_entry(
            Some(row),
            album_id,
            title,
            duration_ms,
        ).album_id == row.album_id,
        row.duration_ms is Some ==> track_entry(
            Some(row),
            album_id,
            title,
            duration_ms,
        ).duration_ms == row.duration_ms,
{
}

/// Reporting the same listen again leaves the track's row as the first report
/// left it.
pub proof fn law_repeated_listen_changes_nothing(
    existing: Option<TrackEntry<Seq<char>>>,
    album_id: Option<i64>,
    title: Seq<char>,
    duration_ms: Option<i32>,
)
    ensures
        ({
            let row = track_entry(existing, album_id, title, duration_ms);
            track_entry(Some(row), album_id, title, duration_ms) == row
        }),
{
}

/// A new entry shows the name it was first given, without the white space around
/// it, and is found by that name once normalized; one that exists keeps its name.
pub proof fn law_entry_names(row: EntryName<Seq<char>>, name: Seq<char>)
    ensures
        entry_name(None, name).shown == text::trimmed(name),
        entry_name(None, name).normalized == scrobble::normalized(name),
        entry_name(Some(row), name) == row,
{
}

/// A new track has the title, the album and the duration of its first listen; one
/// that exists takes the album and the duration of a listen where it lacks them.
pub proof fn law_listens_fill_every_gap(
    row: TrackEntry<Seq<char>>,
    album_id: Option<i64>,
    title: Seq<char>,
    duration_ms: Option<i32>,
)
    ensures
        ({
            let created = track_entry(None, album_id, title, duration_ms);
            &&& created.title.shown == text::trimmed(title)
            &&& created.title.normalized == scrobble::normalized(title)
            &&& created.album_id == album_id
            &&& created.duration_ms == duration_ms
        }),
        ({
            let after = track_entry(Some(row), album_id, title, duration_ms);
            &&& row.album_id is None ==> after.album_id == album_id
            &&& row.duration_ms is None ==> after.duration_ms == duration_ms
        }),
{
}

/// What the rows of an artist, an album and a track hold after a listen that was
/// the first to name them.
pub proof fn law_new_rows(
    name: &str,
    artist: EntryName,
    album: EntryName,
    album_id: Option<i64>,
    duration_ms: Option<i32>,
    track: TrackEntry,
)
    requires
        call_ensures(find_or_create_artist, (None::<EntryName>, name), artist),
        call_ensures(find_or_create_album, (None::<EntryName>, name), album),
        call_ensures(
            find_or_create_track,
            (None::<TrackEntry>, album_id, name, duration_ms),
            track,
        ),
    ensures
        artist.shown@ == text::trimmed(name@),
        artist.normalized@ == scrobble::normalized(name@),
        album.shown@ == text::trimmed(name@),
        album.normalized@ == scrobble::normalized(name@),
        track.title.shown@ == text::trimmed(name@),
        track.title.normalized@ == scrobble::normalized(name@),
        track.album_id == album_id,
        track.duration_ms == duration_ms,
{
    assert(artist.deep_view() == entry_name(None, name@));
    assert(album.deep_view() == entry_name(None, name@));
    assert(track.deep_view() == track_entry(None, album_id, name@, duration_ms));
    assert(track.deep_view().title == track.title.deep_view());
}

/// What the rows of an artist, an album and a track hold after a listen that found
/// them: the names they had, and the album and the duration of the listen where
/// they had none.
pub proof fn law_found_rows(
    name: &str,
    row: EntryName,
    artist: EntryName,
    album: EntryName,
    before: TrackEntry,
    album_id: Option<i64>,
    duration_ms: Option<i32>,
    track: TrackEntry,
)
    requires
        call_ensures(find_or_create_artist, (Some(row), name), artist),
        call_ensures(find_or_create_album, (Some(row), name), album),
        call_ensures(
            find_or_create_track,
            (Some(before), album_id, name, duration_ms),
            track,
        ),
    ensures
        artist.shown@ == row.shown@,
        artist.normalized@ == row.normalized@,
        album.shown@ == row.shown@,
        album.normalized@ == row.normalized@,
        track.title.shown@ == before.title.shown@,
        track.title.normalized@ == before.title.normalized@,
        track.album_id == if before.album_id is Some {
            before.album_id
        } else {
            album_id
        },
        track.duration_ms == if before.duration_ms is Some {
            before.duration_ms
        } else {
            duration_ms
        },
{
    assert(artist.deep_view() == row.deep_view());
    assert(album.deep_view() == row.deep_view());
    assert(track.deep_view().title == before.deep_view().title);
    assert(track.deep_view().title == track.title.deep_view());
    assert(before.deep_view().title == before.title.deep_view());
}

// ---------------------------------------------------------------------------
// The rows of a catalog
// ---------------------------------------------------------------------------

/// A row of the artists, or of one artist's albums.
pub struct EntryRow {
    pub id: i64,
    pub name: EntryName<Seq<char>>,
}

/// The row that has a normalized name, if one has.
pub open spec fn row_with(rows: Seq<EntryRow>, normalized: Seq<char>) -> Option<EntryRow>
    decreases rows.len(),
{
    if rows.len() == 0 {
        None
    } else if rows.last().name.normalized == normalized {
        Some(rows.last())
    } else {
        row_with(rows.drop_last(), normalized)
    }
}

/// The row that a listen by `name` finds or creates; a new one gets the id
/// `fresh`.
pub open spec fn found_row(rows: Seq<EntryRow>, name: Seq<char>, fresh: i64) -> EntryRow {
    match row_with(rows, scrobble::normalized(name)) {
        Some(row) => EntryRow { id: row.id, name: entry_name(Some(row.name), name) },
        None => EntryRow { id: fresh, name: entry_name(None, name) },
    }
}

/// The rows after a listen by `name`.
pub open spec fn rows_after(rows: Seq<EntryRow>, name: Seq<char>, fresh: i64) -> Seq<EntryRow> {
    match row_with(rows, scrobble::normalized(name)) {
        Some(_) => rows,
        None => rows.push(found_row(rows, name, fresh)),
    }
}

/// No two rows share an id or a normalized name.
pub open spec fn rows_distinct(rows: Seq<EntryRow>) -> bool {
    forall|i: int, j: int|
        0 <= i < j < rows.len() ==> (#[trigger] rows[i]).id != (#[trigger] rows[j]).id
            && rows[i].name.normalized != rows[j].name.normalized
}

/// No row has the id.
pub open spec fn is_fresh(rows: Seq<EntryRow>, id: i64) -> bool {
    forall|i: int| 0 <= i < rows.len() ==> (#[trigger] rows[i]).id != id
}

proof fn lemma_row_with(rows: Seq<EntryRow>, normalized: Seq<char>)
    ensures
        match row_with(rows, normalized) {
            Some(row) => rows.contains(row) && row.name.normalized == normalized,
            None => forall|i: int|
                0 <= i < rows.len() ==> (#[trigger] rows[i]).name.normalized != normalized,
        },
    decreases rows.len(),
{
    if rows.len() > 0 {
        let rest = rows.drop_last();
        lemma_row_with(rest, normalized);
        assert(rows.last() == rows[rows.len() - 1]);
        if rows.last().name.normalized != normalized {
            match row_with(rest, normalized) {
                Some(row) => {
                    let i = choose|i: int| 0 <= i < rest.len() && rest[i] == row;
                    assert(rows[i] == row);
                },
                None => {
                    assert forall|i: int| 0 <= i < rows.len() implies (
                    #[trigger] rows[i]).name.normalized != normalized by {
                        if i < rest.len() {
                            assert(rest[i] == rows[i]);
                        }
                    }
                },
            }
        }
    }
}

/// Listens keep the rows distinct, from none on: a listen adds at most one, and
/// the row that it finds or creates is there and has its normalized name.
pub proof fn law_rows_stay_distinct(rows: Seq<EntryRow>, name: Seq<char>, fresh: i64)
    requires
        rows_distinct(rows),
        is_fresh(rows, fresh),
    ensures
        rows_distinct(Seq::empty()),
        rows_distinct(rows_after(rows, name, fresh)),
        rows_after(rows, name, fresh).contains(found_row(rows, name, fresh)),
        found_row(rows, name, fresh).name.normalized == scrobble::normalized(name),
{
    lemma_row_with(rows, scrobble::normalized(name));
    let after = rows_after(rows, name, fresh);
    if row_with(rows, scrobble::normalized(name)) is None {
        assert(after[rows.len() as int] == found_row(rows, name, fresh));
    }
}

/// Of two listens, the second finds the row of the first exactly when their names
/// are the same once normalized. Then the row keeps the first spelling, and none
/// is added.
pub proof fn law_names_find_their_row(
    rows: Seq<EntryRow>,
    first: Seq<char>,
    second: Seq<char>,
    fresh: i64,
    fresher: i64,
)
    requires
        rows_distinct(rows),
        is_fresh(rows, fresh),
        is_fresh(rows_after(rows, first, fresh), fresher),
    ensures
        ({
            let between = rows_after(rows, first, fresh);
            let x = found_row(rows, first, fresh);
            let y = found_row(between, second, fresher);
            let same = scrobble::normalized(first) == scrobble::normalized(second);
            &&& x.id == y.id <==> same
            &&& same ==> y == x && rows_after(between, second, fresher) == between
        }),
{
    let between = rows_after(rows, first, fresh);
    let after = rows_after(between, second, fresher);
    let x = found_row(rows, first, fresh);
    let y = found_row(between, second, fresher);
    law_rows_stay_distinct(rows, first, fresh);
    law_rows_stay_distinct(between, second, fresher);
    lemma_row_with(between, scrobble::normalized(second));
    let i = choose|i: int| 0 <= i < between.len() && between[i] == x;
    assert(after[i] == x);
    let j = choose|j: int| 0 <= j < after.len() && after[j] == y;
    if i < j {
        assert(after[i].id != after[j].id);
    } else if j < i {
        assert(after[j].id != after[i].id);
    }
}

} // verus!
