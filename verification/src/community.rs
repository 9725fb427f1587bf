//! Community contributions: image candidates with voting, and comments.
//!
//! Image uploads add a candidate rather than replacing the entity image.
//! Voting promotes the most-liked candidate to the entity's displayed image
//! once it clears [`MIN_VOTES_TO_DEFAULT`]: promotion only, never demotion, so
//! the shown image never flickers away when a like is withdrawn.

use crate::enrichment::EntityKind;
use crate::errors::AppError;
use crate::metadata;
use crate::metadata::{AlbumColumns, AlbumMetadata, ArtistColumns, ArtistMetadata};
use crate::text;
use crate::time::Timestamp;
use vstd::prelude::*;
use vstd::string::*;

verus! {

/// Likes a candidate needs (and being the most-liked) to become the entity's
/// displayed image. A low bar suits a small community.
pub const MIN_VOTES_TO_DEFAULT: i64 = 3;

// ---------------------------------------------------------------------------
// Likes
// ---------------------------------------------------------------------------

/// What a like or its withdrawal does.
#[derive(Debug, Clone, Copy, PartialEq, Eq, Structural)]
pub struct VoteChange {
    /// Whether the user's like is recorded now, where it was not before, or the
    /// other way round.
    pub changed: bool,
    pub vote_count: i64,
}

/// The number of likes after a user likes a candidate.
pub open spec fn liked(has_voted: bool, vote_count: int) -> int {
    if has_voted {
        vote_count
    } else {
        vote_count + 1
    }
}

/// The number of likes after a user withdraws a like; never below zero.
pub open spec fn unliked(has_voted: bool, vote_count: int) -> int {
    if !has_voted {
        vote_count
    } else if vote_count > 0 {
        vote_count - 1
    } else {
        0
    }
}

/// Adds a like (idempotent). `has_voted` says whether the user liked the
/// candidate before.
pub fn vote_image(has_voted: bool, vote_count: i64) -> (res: VoteChange)
    requires
        !has_voted ==> vote_count < i64::MAX,
    ensures
        res.changed == !has_voted,
        res.vote_count == liked(has_voted, vote_count as int),
{
    if has_voted {
        VoteChange { changed: false, vote_count }
    } else {
        VoteChange { changed: true, vote_count: vote_count + 1 }
    }
}

/// Removes a like (idempotent).
pub fn unvote_image(has_voted: bool, vote_count: i64) -> (res: VoteChange)
    ensures
        res.changed == has_voted,
        res.vote_count == unliked(has_voted, vote_count as int),
{
    if !has_voted {
        VoteChange { changed: false, vote_count }
    } else if vote_count > 0 {
        VoteChange { changed: true, vote_count: vote_count - 1 }
    } else {
        VoteChange { changed: true, vote_count: 0 }
    }
}

/// A count that is the number of users who like a candidate stays that number,
/// whoever likes it or withdraws a like.
pub proof fn law_vote_count_is_the_number_of_voters(voters: Set<i64>, user: i64)
    requires
        voters.finite(),
    ensures
        liked(voters.contains(user), voters.len() as int) == voters.insert(user).len(),
        unliked(voters.contains(user), voters.len() as int) == voters.remove(user).len(),
{
    if voters.contains(user) {
        assert(voters.insert(user) =~= voters);
        assert(voters.len() > 0) by {
            assert(voters.remove(user).len() == voters.len() - 1);
        }
    } else {
        assert(voters.remove(user) =~= voters);
    }
}

/// Liking twice is liking once, and withdrawing a like undoes it.
pub proof fn law_likes_are_idempotent(has_voted: bool, vote_count: int)
    requires
        vote_count >= 0,
        has_voted ==> vote_count > 0,
    ensures
        liked(true, liked(has_voted, vote_count)) == liked(has_voted, vote_count),
        unliked(false, unliked(has_voted, vote_count)) == unliked(has_voted, vote_count),
        !has_voted ==> unliked(true, liked(has_voted, vote_count)) == vote_count,
        unliked(has_voted, vote_count) >= 0,
{
}

// ---------------------------------------------------------------------------
// The winner
// ---------------------------------------------------------------------------

/// A candidate in the running for an entity's displayed image.
#[derive(Debug, PartialEq, Eq)]
pub struct Contender<S = String> {
    pub url: S,
    pub vote_count: i64,
    pub created_at: Timestamp,
}

impl DeepView for Contender {
    type V = Contender<Seq<char>>;

    open spec fn deep_view(&self) -> Contender<Seq<char>> {
        Contender { url: self.url@, vote_count: self.vote_count, created_at: self.created_at }
    }
}

/// `a` is ahead of `b`: it has more likes, or as many and was there earlier.
pub open spec fn ahead(a: Contender<Seq<char>>, b: Contender<Seq<char>>) -> bool {
    a.vote_count > b.vote_count || (a.vote_count == b.vote_count && b.created_at.later_than(
        a.created_at,
    ))
}

/// The candidate that no other is ahead of; of several, the first.
pub open spec fn leader(candidates: Seq<Contender<Seq<char>>>) -> Option<Contender<Seq<char>>>
    decreases candidates.len(),
{
    if candidates.len() == 0 {
        None
    } else {
        match leader(candidates.drop_last()) {
            Some(best) => if ahead(candidates.last(), best) {
                Some(candidates.last())
            } else {
                Some(best)
            },
            None => Some(candidates.last()),
        }
    }
}

/// The image that the vote makes the displayed one, if it does.
pub open spec fn winning_image(candidates: Seq<Contender<Seq<char>>>) -> Option<Seq<char>> {
    match leader(candidates) {
        Some(best) => if best.vote_count >= MIN_VOTES_TO_DEFAULT {
            Some(best.url)
        } else {
            None
        },
        None => None,
    }
}

fn is_ahead(a: &Contender, b: &Contender) -> (res: bool)
    ensures
        res == ahead(a.deep_view(), b.deep_view()),
{
    a.vote_count > b.vote_count || (a.vote_count == b.vote_count && b.created_at.is_later_than(
        &a.created_at,
    ))
}

/// The image that is promoted to the entity (locking it against enrichment):
/// that of the most-liked candidate, if it clears the threshold.
pub fn promote_winning_image(candidates: &Vec<Contender>) -> (res: Option<String>)
    ensures
        res.deep_view() == winning_image(candidates.deep_view()),
{
    let ghost all = candidates.deep_view();
    if candidates.len() == 0 {
        return None;
    }
    let mut best: usize = 0;
    let mut i: usize = 1;
    proof {
        assert(all.take(1).drop_last() =~= Seq::<Contender<Seq<char>>>::empty());
        assert(all.take(1).last() == all[0]);
        assert(leader(all.take(1).drop_last()) is None);
    }
    while i < candidates.len()
        invariant
            1 <= i <= candidates@.len(),
            best < i,
            all == candidates.deep_view(),
            leader(all.take(i as int)) == Some(all[best as int]),
        decreases candidates@.len() - i,
    {
        proof {
            assert(all.take(i as int + 1).drop_last() =~= all.take(i as int));
            assert(all.take(i as int + 1).last() == candidates@[i as int].deep_view());
            assert(all[best as int] == candidates@[best as int].deep_view());
        }
        if is_ahead(&candidates[i], &candidates[best]) {
            best = i;
        }
        i = i + 1;
    }
    proof {
        assert(all.take(i as int) =~= all);
        assert(all[best as int] == candidates@[best as int].deep_view());
    }
    let winner = &candidates[best];
    if winner.vote_count >= MIN_VOTES_TO_DEFAULT {
        Some(winner.url.clone())
    } else {
        None
    }
}

/// What a new candidate comes to.
#[derive(Debug, PartialEq, Eq)]
pub struct CandidateAdded<S = String, L = Vec<Contender>> {
    /// The candidates of the entity, the new one last.
    pub contenders: L,
    /// Who likes the new candidate: its uploader, implicitly, and nobody else.
    pub liked_by: i64,
    /// The image that is promoted to the entity now, if one is.
    pub winner: Option<S>,
}

impl DeepView for CandidateAdded {
    type V = CandidateAdded<Seq<char>, Seq<Contender<Seq<char>>>>;

    open spec fn deep_view(&self) -> CandidateAdded<Seq<char>, Seq<Contender<Seq<char>>>> {
        CandidateAdded {
            contenders: self.contenders.deep_view(),
            liked_by: self.liked_by,
            winner: self.winner.deep_view(),
        }
    }
}

/// The candidates of an entity once one more was uploaded, which has the like of
/// its uploader.
pub open spec fn with_candidate(
    existing: Seq<Contender<Seq<char>>>,
    url: Seq<char>,
    created_at: Timestamp,
) -> Seq<Contender<Seq<char>>> {
    existing.push(Contender { url, vote_count: liked(false, 0) as i64, created_at })
}

/// Records a new image candidate and auto-likes it on the uploader's behalf,
/// then re-evaluates the winner.
pub fn add_image_candidate(
    existing: Vec<Contender>,
    url: String,
    created_at: Timestamp,
    uploaded_by: i64,
) -> (res: CandidateAdded)
    ensures
        ({
            let contenders = with_candidate(existing.deep_view(), url@, created_at);
            res.deep_view() == CandidateAdded {
                contenders,
                liked_by: uploaded_by,
                winner: winning_image(contenders),
            }
        }),
{
    let ghost before = existing.deep_view();
    let mut contenders = existing;
    contenders.push(Contender { url, vote_count: 1, created_at });
    proof {
        assert(contenders.deep_view() =~= with_candidate(before, url@, created_at));
    }
    let winner = promote_winning_image(&contenders);
    CandidateAdded { contenders, liked_by: uploaded_by, winner }
}

/// Uploading proposes an image and decides nothing: with the new candidate the
/// same image wins as without it, if any does.
pub proof fn law_an_upload_does_not_change_the_winner(
    existing: Seq<Contender<Seq<char>>>,
    url: Seq<char>,
    created_at: Timestamp,
)
    ensures
        winning_image(with_candidate(existing, url, created_at)) == winning_image(existing),
{
    assert(with_candidate(existing, url, created_at).drop_last() =~= existing);
}

/// The leader is one of the candidates, and none is ahead of it: it is the most
/// liked, and of the most liked the earliest.
pub proof fn law_leader_is_unbeaten(candidates: Seq<Contender<Seq<char>>>)
    ensures
        candidates.len() > 0 ==> leader(candidates) is Some,
        leader(candidates) matches Some(best) ==> {
            &&& candidates.contains(best)
            &&& forall|i: int|
                0 <= i < candidates.len() ==> !ahead(#[trigger] candidates[i], best)
        },
    decreases candidates.len(),
{
    if candidates.len() > 0 {
        let init = candidates.drop_last();
        law_leader_is_unbeaten(init);
        let last = (candidates.len() - 1) as int;
        assert(forall|i: int| 0 <= i < last ==> #[trigger] candidates[i] == init[i]);
        let best = leader(candidates).unwrap();
        if leader(init) is Some && !ahead(candidates.last(), leader(init).unwrap()) {
            let k = choose|k: int| 0 <= k < init.len() && init[k] == best;
            assert(candidates[k] == best);
        } else {
            assert(candidates[last] == best);
        }
        assert forall|i: int| 0 <= i < candidates.len() implies !ahead(
            #[trigger] candidates[i],
            best,
        ) by {
            if i < last {
                assert(candidates[i] == init[i]);
            }
        }
    }
}

/// What an entity displays.
pub struct EntityImage {
    pub url: Option<Seq<char>>,
    pub locked: bool,
}

/// What an entity displays after the vote was counted.
pub open spec fn after_vote(
    shown: EntityImage,
    candidates: Seq<Contender<Seq<char>>>,
) -> EntityImage {
    match winning_image(candidates) {
        Some(url) => EntityImage { url: Some(url), locked: true },
        None => shown,
    }
}

/// Promotion only: counting a vote in which no candidate clears the threshold
/// changes nothing, however many likes were withdrawn; and a lock, once set,
/// stays.
pub proof fn law_promotion_never_demotes(
    shown: EntityImage,
    candidates: Seq<Contender<Seq<char>>>,
)
    ensures
        winning_image(candidates) is None ==> after_vote(shown, candidates) == shown,
        shown.locked ==> after_vote(shown, candidates).locked,
        shown.url is Some ==> after_vote(shown, candidates).url is Some,
{
}

/// A candidate that leads past the threshold is displayed and locked by the next
/// upload at the latest, though it was not displayed before.
pub proof fn law_an_upload_promotes_the_leader(
    shown: EntityImage,
    existing: Seq<Contender<Seq<char>>>,
    best: Contender<Seq<char>>,
    url: Seq<char>,
    created_at: Timestamp,
)
    requires
        leader(existing) == Some(best),
        best.vote_count >= MIN_VOTES_TO_DEFAULT,
    ensures
        after_vote(shown, with_candidate(existing, url, created_at)) == (EntityImage {
            url: Some(best.url),
            locked: true,
        }),
{
    law_an_upload_does_not_change_the_winner(existing, url, created_at);
}

/// An upload with only the uploader's own like never becomes the displayed
/// image by itself.
pub proof fn law_an_upload_alone_does_not_win(only: Contender<Seq<char>>)
    requires
        only.vote_count == liked(false, 0),
    ensures
        winning_image(seq![only]) is None,
{
    let one = seq![only];
    assert(one.drop_last() =~= Seq::<Contender<Seq<char>>>::empty());
    assert(leader(one.drop_last()) is None);
}

/// An image that the community chose is safe from enrichment: no merge, forced
/// or not, replaces it.
pub proof fn law_promoted_image_survives_enrichment(
    shown: EntityImage,
    candidates: Seq<Contender<Seq<char>>>,
    artist: ArtistColumns<Seq<char>>,
    artist_meta: ArtistMetadata<Seq<char>>,
    album: AlbumColumns<Seq<char>>,
    album_meta: AlbumMetadata<Seq<char>>,
    force: bool,
)
    requires
        winning_image(candidates) is Some,
        artist.image_url == after_vote(shown, candidates).url,
        artist.image_locked == after_vote(shown, candidates).locked,
        album.image_url == after_vote(shown, candidates).url,
        album.image_locked == after_vote(shown, candidates).locked,
    ensures
        metadata::merged_artist(artist, artist_meta, force).image_url == winning_image(candidates),
        metadata::merged_album(album, album_meta, force).image_url == winning_image(candidates),
{
}

/// An image wins exactly when a candidate has three likes. It is that of a
/// candidate whom no other has more likes than, nor as many and an earlier upload.
pub proof fn law_three_likes_win(candidates: Seq<Contender<Seq<char>>>)
    ensures
        winning_image(candidates) is Some <==> exists|i: int|
            0 <= i < candidates.len() && (#[trigger] candidates[i]).vote_count >= 3,
        winning_image(candidates) matches Some(url) ==> exists|k: int|
            #![trigger candidates[k]]
            {
                &&& 0 <= k < candidates.len()
                &&& candidates[k].url == url
                &&& forall|i: int|
                    0 <= i < candidates.len() ==> {
                        let other = #[trigger] candidates[i];
                        ||| other.vote_count < candidates[k].vote_count
                        ||| other.vote_count == candidates[k].vote_count
                            && !candidates[k].created_at.later_than(other.created_at)
                    }
            },
{
    law_leader_is_unbeaten(candidates);
    if let Some(best) = leader(candidates) {
        let k = choose|k: int| 0 <= k < candidates.len() && candidates[k] == best;
        assert forall|i: int| 0 <= i < candidates.len() implies {
            let other = #[trigger] candidates[i];
            ||| other.vote_count < candidates[k].vote_count
            ||| other.vote_count == candidates[k].vote_count
                && !candidates[k].created_at.later_than(other.created_at)
        } by {
            assert(!ahead(candidates[i], best));
        }
    }
}

/// Of candidates with the same number of likes, uploaded at the same instant, the
/// one that stands first wins.
pub proof fn law_ties_go_to_the_first(
    candidates: Seq<Contender<Seq<char>>>,
    next: Contender<Seq<char>>,
    best: Contender<Seq<char>>,
)
    requires
        leader(candidates) == Some(best),
        next.vote_count == best.vote_count,
        next.created_at == best.created_at,
    ensures
        leader(candidates.push(next)) == Some(best),
{
    assert(candidates.push(next).drop_last() =~= candidates);
}

/// An upload joins the candidates that there are, with one like.
pub proof fn law_an_upload_joins_with_one_like(
    existing: Seq<Contender<Seq<char>>>,
    url: Seq<char>,
    created_at: Timestamp,
)
    ensures
        with_candidate(existing, url, created_at) == existing.push(
            Contender { url, vote_count: 1, created_at },
        ),
{
}

/// A first like counts one more and its withdrawal one less; a second like, and
/// the withdrawal of none, count for nothing.
pub proof fn law_each_user_counts_once(vote_count: int)
    ensures
        liked(false, vote_count) == vote_count + 1,
        liked(true, vote_count) == vote_count,
        vote_count > 0 ==> unliked(true, vote_count) == vote_count - 1,
        vote_count <= 0 ==> unliked(true, vote_count) == 0,
        unliked(false, vote_count) == vote_count,
{
}

/// The winner of a vote is displayed, and locked against enrichment.
pub proof fn law_winners_are_displayed(
    shown: EntityImage,
    candidates: Seq<Contender<Seq<char>>>,
    url: Seq<char>,
)
    requires
        winning_image(candidates) == Some(url),
    ensures
        after_vote(shown, candidates).url == Some(url),
        after_vote(shown, candidates).locked,
{
}

// ---------------------------------------------------------------------------
// Listing
// ---------------------------------------------------------------------------

/// A community-uploaded image candidate for an artist or album.
#[derive(Debug, PartialEq, Eq)]
pub struct ImageCandidate<S = String> {
    pub id: i64,
    pub url: S,
    pub uploaded_by: S,
    pub vote_count: i64,
    /// Whether the requesting user has liked this candidate (false when
    /// unauthenticated).
    pub has_voted: bool,
    /// Whether this candidate is the entity's current displayed image.
    pub is_default: bool,
    pub created_at: Timestamp,
}

impl DeepView for ImageCandidate {
    type V = ImageCandidate<Seq<char>>;

    open spec fn deep_view(&self) -> ImageCandidate<Seq<char>> {
        ImageCandidate {
            id: self.id,
            url: self.url@,
            uploaded_by: self.uploaded_by@,
            vote_count: self.vote_count,
            has_voted: self.has_voted,
            is_default: self.is_default,
            created_at: self.created_at,
        }
    }
}

/// A candidate as the database has it, with the name of its uploader and
/// whether the viewer likes it.
#[derive(Debug, PartialEq, Eq)]
pub struct CandidateRow<S = String> {
    pub id: i64,
    pub url: S,
    pub uploaded_by: S,
    pub vote_count: i64,
    pub voted: bool,
    pub created_at: Timestamp,
}

impl DeepView for CandidateRow {
    type V = CandidateRow<Seq<char>>;

    open spec fn deep_view(&self) -> CandidateRow<Seq<char>> {
        CandidateRow {
            id: self.id,
            url: self.url@,
            uploaded_by: self.uploaded_by@,
            vote_count: self.vote_count,
            voted: self.voted,
            created_at: self.created_at,
        }
    }
}

/// A candidate as it is shown.
pub open spec fn shown_candidate(
    row: CandidateRow<Seq<char>>,
    current: Option<Seq<char>>,
    viewer_id: Option<i64>,
) -> ImageCandidate<Seq<char>> {
    ImageCandidate {
        id: row.id,
        url: row.url,
        uploaded_by: row.uploaded_by,
        vote_count: row.vote_count,
        has_voted: viewer_id is Some && row.voted,
        is_default: current == Some(row.url),
        created_at: row.created_at,
    }
}

/// Lists an entity's image candidates in the order they come, flagging the
/// viewer's own votes and which candidate is the entity's current image.
pub fn list_image_candidates(
    rows: Vec<CandidateRow>,
    current: &Option<String>,
    viewer_id: Option<i64>,
) -> (res: Vec<ImageCandidate>)
    ensures
        res.deep_view().len() == rows.deep_view().len(),
        forall|i: int|
            0 <= i < rows.deep_view().len() ==> #[trigger] res.deep_view()[i] == shown_candidate(
                rows.deep_view()[i],
                current.deep_view(),
                viewer_id,
            ),
{
    let mut out: Vec<ImageCandidate> = Vec::new();
    for row in it: rows
        invariant
            it.seq() == rows@,
            out@.len() == it.index(),
            forall|i: int|
                0 <= i < it.index() ==> (#[trigger] out@[i]).deep_view() == shown_candidate(
                    rows@[i].deep_view(),
                    current.deep_view(),
                    viewer_id,
                ),
    {
        let is_default: bool = match current {
            Some(url) => url.as_str().eq(row.url.as_str()),
            None => false,
        };
        out.push(
            ImageCandidate {
                id: row.id,
                url: row.url,
                uploaded_by: row.uploaded_by,
                vote_count: row.vote_count,
                has_voted: viewer_id.is_some() && row.voted,
                is_default,
                created_at: row.created_at,
            },
        );
    }
    proof {
        assert forall|i: int| 0 <= i < rows.deep_view().len() implies #[trigger] out.deep_view()[i]
            == shown_candidate(rows.deep_view()[i], current.deep_view(), viewer_id) by {
            assert(out.deep_view()[i] == out@[i].deep_view());
        }
    }
    out
}

/// Only artists and albums have images.
pub fn has_images(kind: EntityKind) -> (res: bool)
    ensures
        res == (kind == EntityKind::Artist || kind == EntityKind::Album),
{
    match kind {
        EntityKind::Artist | EntityKind::Album => true,
        EntityKind::Track => false,
    }
}

/// Only artists and tracks have comments.
pub fn has_comments(kind: EntityKind) -> (res: bool)
    ensures
        res == (kind == EntityKind::Artist || kind == EntityKind::Track),
{
    match kind {
        EntityKind::Artist | EntityKind::Track => true,
        EntityKind::Album => false,
    }
}

// ---------------------------------------------------------------------------
// Comments
// ---------------------------------------------------------------------------

/// Longest comment, in characters.
pub const COMMENT_MAX_LEN: usize = 2000;

/// Comments per page.
pub const COMMENTS_PAGE: i64 = 100;

#[derive(Debug, PartialEq, Eq)]
pub struct NewCommentRequest {
    pub body: String,
}

#[derive(Debug, Clone, Copy, PartialEq, Eq, Structural)]
pub struct DeletedResponse {
    pub deleted: bool,
}

/// The text of a comment as it is stored, or why it is refused.
pub open spec fn comment_text(body: Seq<char>) -> Result<Seq<char>, AppError<Seq<char>>> {
    let text = text::trimmed(body);
    if text::is_blank(body) {
        Err(AppError::BadRequest("comment cannot be empty"@))
    } else if text.len() > COMMENT_MAX_LEN {
        Err(AppError::BadRequest("comment must be at most 2000 characters"@))
    } else {
        Ok(text)
    }
}

/// The text of a comment to be added to an entity that exists or does not.
pub fn create_comment(entity_exists: bool, body: &str) -> (res: Result<String, AppError>)
    ensures
        text::result_view(res) == (if entity_exists {
            comment_text(body@)
        } else {
            Err(AppError::NotFound)
        }),
{
    if !entity_exists {
        return Err(AppError::NotFound);
    }
    proof {
        text::law_trimmed_empty_iff_blank(body@);
    }
    let body = body.trim();
    if body.is_empty() {
        return Err(AppError::BadRequest("comment cannot be empty".to_owned()));
    }
    if body.unicode_len() > COMMENT_MAX_LEN {
        return Err(AppError::BadRequest("comment must be at most 2000 characters".to_owned()));
    }
    Ok(body.to_owned())
}

/// The answer to a request by `user_id` to delete a comment, given who wrote
/// it: only its author may. Whoever else asks is answered as if it did not
/// exist.
pub fn delete_comment(author: Option<i64>, user_id: i64) -> (res: Result<DeletedResponse, AppError>)
    ensures
        res == (if author == Some(user_id) {
            Ok::<DeletedResponse, AppError>(DeletedResponse { deleted: true })
        } else {
            Err(AppError::NotFound)
        }),
{
    match author {
        Some(id) => if id == user_id {
            Ok(DeletedResponse { deleted: true })
        } else {
            Err(AppError::NotFound)
        },
        None => Err(AppError::NotFound),
    }
}

/// A stored comment is trimmed, not empty and not too long, and storing it
/// again changes nothing.
pub proof fn law_stored_comments(body: Seq<char>)
    ensures
        comment_text(body) matches Ok(stored) ==> {
            &&& 0 < stored.len() <= COMMENT_MAX_LEN
            &&& comment_text(stored) == Ok::<Seq<char>, AppError<Seq<char>>>(stored)
        },
{
    text::law_trimmed_empty_iff_blank(body);
    text::law_trimmed_idempotent(body);
    text::law_trimmed_empty_iff_blank(text::trimmed(body));
}

/// A listed candidate is shown as the database has it. It is marked as liked only
/// to a viewer who is logged in and likes it, and as the default exactly when its
/// image is the one displayed.
pub proof fn law_listed_candidates(
    row: CandidateRow<Seq<char>>,
    current: Option<Seq<char>>,
    viewer_id: Option<i64>,
)
    ensures
        ({
            let shown = shown_candidate(row, current, viewer_id);
            &&& shown.id == row.id
            &&& shown.url == row.url
            &&& shown.uploaded_by == row.uploaded_by
            &&& shown.vote_count == row.vote_count
            &&& shown.created_at == row.created_at
            &&& viewer_id is None ==> !shown.has_voted
            &&& viewer_id is Some ==> shown.has_voted == row.voted
            &&& current is None ==> !shown.is_default
            &&& current matches Some(url) ==> (shown.is_default <==> url == row.url)
        }),
{
}

/// A comment is stored without the white space around it. It is refused exactly
/// when nothing is left of it then, or more than 2000 characters are.
pub proof fn law_comments_are_trimmed(body: Seq<char>)
    ensures
        ({
            let text = text::trimmed(body);
            &&& text.len() == 0 ==> comment_text(body) == Err::<Seq<char>, AppError<Seq<char>>>(
                AppError::BadRequest("comment cannot be empty"@),
            )
            &&& text.len() > 2000 ==> comment_text(body) == Err::<Seq<char>, AppError<Seq<char>>>(
                AppError::BadRequest("comment must be at most 2000 characters"@),
            )
            &&& 0 < text.len() <= 2000 ==> comment_text(body) == Ok::<
                Seq<char>,
                AppError<Seq<char>>,
            >(text)
        }),
{
    text::law_trimmed_empty_iff_blank(body);
}

/// A page holds 100 comments.
pub proof fn law_comment_pages()
    ensures
        COMMENTS_PAGE == 100,
{
}

/// Artists and albums have images; artists and tracks have comments.
pub proof fn law_what_has_images_and_comments(kind: EntityKind, images: bool, comments: bool)
    requires
        call_ensures(has_images, (kind,), images),
        call_ensures(has_comments, (kind,), comments),
    ensures
        kind == EntityKind::Artist ==> images && comments,
        kind == EntityKind::Album ==> images && !comments,
        kind == EntityKind::Track ==> !images && comments,
{
}

/// Only what exists is commented on, with the text as it was given but for the
/// white space around it.
pub proof fn law_new_comments(
    body: &str,
    stored: Result<String, AppError>,
    nowhere: Result<String, AppError>,
)
    requires
        call_ensures(create_comment, (true, body), stored),
        call_ensures(create_comment, (false, body), nowhere),
    ensures
        nowhere matches Err(e) && e is NotFound,
        stored is Ok <==> 0 < text::trimmed(body@).len() <= 2000,
        stored matches Ok(kept) ==> kept@ == text::trimmed(body@),
        stored matches Err(e) ==> e is BadRequest,
{
    law_comments_are_trimmed(body@);
}

/// A comment is deleted by its author and by nobody else; to anybody else it is
/// not there.
pub proof fn law_only_the_author_deletes_a_comment(
    author: Option<i64>,
    user_id: i64,
    res: Result<DeletedResponse, AppError>,
)
    requires
        call_ensures(delete_comment, (author, user_id), res),
    ensures
        res is Ok <==> author == Some(user_id),
        res matches Ok(response) ==> response.deleted,
        res is Err ==> res == Err::<DeletedResponse, AppError>(AppError::NotFound),
{
}

/// A like and its withdrawal change something exactly when they are the user's
/// first.
pub proof fn law_votes(
    has_voted: bool,
    vote_count: i64,
    like: VoteChange,
    unlike: VoteChange,
)
    requires
        call_ensures(vote_image, (has_voted, vote_count), like),
        call_ensures(unvote_image, (has_voted, vote_count), unlike),
    ensures
        like.changed == !has_voted,
        like.vote_count == vote_count + if has_voted {
            0int
        } else {
            1int
        },
        unlike.changed == has_voted,
        !has_voted ==> unlike.vote_count == vote_count,
        has_voted && vote_count > 0 ==> unlike.vote_count == vote_count - 1,
        has_voted && vote_count <= 0 ==> unlike.vote_count == 0,
{
}

/// An upload joins the candidates last, liked by its uploader alone, and the winner
/// is then told anew.
pub proof fn law_uploaded_candidates(
    existing: Vec<Contender>,
    url: String,
    created_at: Timestamp,
    uploaded_by: i64,
    res: CandidateAdded,
)
    requires
        call_ensures(add_image_candidate, (existing, url, created_at, uploaded_by), res),
    ensures
        res.liked_by == uploaded_by,
        res.contenders.deep_view() == existing.deep_view().push(
            Contender { url: url@, vote_count: 1, created_at },
        ),
        res.winner.deep_view() == winning_image(res.contenders.deep_view()),
{
    assert(res.deep_view().liked_by == uploaded_by);
    assert(res.deep_view().winner == winning_image(res.deep_view().contenders));
}

} // verus!
