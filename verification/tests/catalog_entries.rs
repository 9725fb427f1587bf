use newfm::entries::{
    find_or_create_album, find_or_create_artist, find_or_create_track, EntryName, TrackEntry,
};

fn entry(shown: &str, normalized: &str) -> EntryName {
    EntryName { shown: shown.to_string(), normalized: normalized.to_string() }
}

#[test]
fn new_entries_are_trimmed_and_normalized() {
    assert_eq!(find_or_create_artist(None, "  Björk "), entry("Björk", "björk"));
    assert_eq!(find_or_create_album(None, "HOMOGENIC"), entry("HOMOGENIC", "homogenic"));
}

#[test]
fn the_first_spelling_wins() {
    let first = find_or_create_artist(None, "Daft Punk");
    let again = find_or_create_artist(Some(first), " DAFT PUNK ");
    assert_eq!(again, entry("Daft Punk", "daft punk"));
    let album = find_or_create_album(Some(entry("Discovery", "discovery")), "discovery");
    assert_eq!(album, entry("Discovery", "discovery"));
}

#[test]
fn a_new_track_keeps_what_the_listen_says() {
    assert_eq!(
        find_or_create_track(None, Some(4), " Aerodynamic ", Some(207_000)),
        TrackEntry {
            title: entry("Aerodynamic", "aerodynamic"),
            album_id: Some(4),
            duration_ms: Some(207_000),
        }
    );
}

#[test]
fn listens_fill_the_gaps_of_a_track() {
    let bare = find_or_create_track(None, None, "Aerodynamic", None);
    let filled = find_or_create_track(Some(bare), Some(4), "aerodynamic", Some(207_000));
    assert_eq!(filled.title.shown, "Aerodynamic");
    assert_eq!((filled.album_id, filled.duration_ms), (Some(4), Some(207_000)));
    let kept = find_or_create_track(Some(filled), Some(9), "Aerodynamic", Some(1));
    assert_eq!((kept.album_id, kept.duration_ms), (Some(4), Some(207_000)));
}

#[test]
fn names_find_their_row() {
    // Rows as listens leave them: a name finds the row of its normalized form.
    let mut rows: Vec<(i64, EntryName)> = Vec::new();
    let mut ids = Vec::new();
    for name in ["Daft Punk", "Björk", " daft PUNK ", "BJÖRK", "Air"] {
        let key = newfm::scrobble::normalize_name(name);
        let at = rows.iter().position(|(_, row)| row.normalized == key);
        let (id, existing) = match at {
            Some(at) => {
                let (id, row) = rows.remove(at);
                (id, Some(row))
            }
            None => (rows.len() as i64 + 1, None),
        };
        rows.push((id, find_or_create_artist(existing, name)));
        ids.push(id);
    }
    assert_eq!(ids, vec![1, 2, 1, 2, 3]);
    let mut shown: Vec<&str> = rows.iter().map(|(_, row)| row.shown.as_str()).collect();
    shown.sort();
    assert_eq!(shown, vec!["Air", "Björk", "Daft Punk"]);
}
