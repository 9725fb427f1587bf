use newfm::catalog::{
    found, heatmap_since, heatmap_since_at, period_to_since, period_to_since_at, queue_refresh,
    recent_cutoff, recent_cutoff_at, recent_limit, search, search_response, section_limit, shown_listeners,
    top_limit, top_since, ListenerRow, PeriodQuery, RecentQuery, SearchPlan, SearchQuery, SectionQuery,
};
use newfm::community::{
    add_image_candidate, create_comment, delete_comment, has_comments, has_images,
    list_image_candidates, promote_winning_image, unvote_image, vote_image, CandidateAdded,
    CandidateRow, Contender, DeletedResponse, VoteChange,
};
use newfm::enrichment::EntityKind;
use newfm::errors::AppError;
use newfm::models::{TopListener, User, UserProfile};
use newfm::time::Timestamp;
use newfm::users::{
    advance_gate, apply_profile_update, ensure_profile_visible, follow, get_friends,
    get_own_profile, get_profile, open_profile, patch_field, profiles, unfollow, update_settings,
    upload_avatar, GateReply, GateStep, ProfileOwner, UpdateProfile, UpdateSettingsRequest,
};

fn text(s: &str) -> String {
    s.to_string()
}

fn at(secs: i64) -> Timestamp {
    Timestamp { secs, nanos: 0 }
}

fn user(id: i64) -> User {
    User {
        id,
        username: format!("user{id}"),
        email: text("secret@example.org"),
        password_hash: text("secret"),
        display_name: Some(text("Name")),
        bio: Some(text("Bio")),
        image_url: Some(text("http://img")),
        website_url: None,
        country: None,
        scrobble_count: 3,
        is_private: false,
        is_verified: true,
        last_seen_at: None,
        created_at: at(1),
        updated_at: at(2),
    }
}

// Visibility

fn owner(is_private: bool) -> ProfileOwner {
    ProfileOwner { id: 1, is_private }
}

fn ask(viewer: Option<i64>, owner: ProfileOwner, follows: bool) -> GateStep {
    let step = advance_gate(viewer, open_profile("bjork"), GateReply::User(Ok(Some(owner))));
    match step {
        GateStep::AskFollowing { .. } => {
            advance_gate(viewer, step, GateReply::Following(Ok(follows)))
        }
        other => other,
    }
}

#[test]
fn a_public_profile_is_open_to_all() {
    assert_eq!(
        ask(None, owner(false), false),
        GateStep::Open { owner: owner(false), is_following: None }
    );
    assert_eq!(
        ask(Some(2), owner(false), false),
        GateStep::Open { owner: owner(false), is_following: Some(false) }
    );
}

#[test]
fn a_private_profile_is_open_to_its_owner_and_followers() {
    assert_eq!(
        ask(Some(1), owner(true), false),
        GateStep::Open { owner: owner(true), is_following: None }
    );
    assert_eq!(
        ask(Some(2), owner(true), true),
        GateStep::Open { owner: owner(true), is_following: Some(true) }
    );
    let closed = GateStep::Closed { error: AppError::Forbidden };
    assert_eq!(ask(Some(2), owner(true), false), closed);
    assert_eq!(ask(None, owner(true), true), closed);
}

#[test]
fn an_unknown_user_is_not_found() {
    let find = open_profile("bjork");
    assert_eq!(find, GateStep::FindUser { username: text("bjork") });
    assert_eq!(
        advance_gate(None, find, GateReply::User(Ok(None))),
        GateStep::Closed { error: AppError::NotFound }
    );
    assert_eq!(
        ensure_profile_visible(Some(2), owner(true)),
        GateStep::AskFollowing { viewer_id: 2, owner: owner(true) }
    );
    assert_eq!(
        advance_gate(
            Some(2),
            ensure_profile_visible(Some(2), owner(false)),
            GateReply::Following(Err(text("down")))
        ),
        GateStep::Closed { error: AppError::Database(text("down")) }
    );
}

// Profiles

#[test]
fn profiles_hide_credentials() {
    let mut other = user(1);
    other.email = text("another@example.org");
    other.password_hash = text("another");
    assert_eq!(UserProfile::from(user(1)), UserProfile::from(other));
    assert_eq!(UserProfile::from(user(1)).username, "user1");
    assert!(!format!("{:?}", UserProfile::from(user(1))).contains("secret"));
}

#[test]
fn a_profile_comes_with_the_follow_relationship() {
    let response = get_profile(user(1), Some(true));
    assert_eq!(response.is_following, Some(true));
    assert_eq!(response.profile, UserProfile::from(user(1)));
    assert_eq!(get_own_profile(Some(user(1))).unwrap().is_following, None);
    assert_eq!(get_own_profile(None), Err(AppError::NotFound));
}

#[test]
fn friends_are_listed_in_order() {
    let friends = get_friends(vec![user(1), user(2)], vec![user(3)]);
    let names: Vec<&str> = friends.followers.iter().map(|p| p.username.as_str()).collect();
    assert_eq!(names, vec!["user1", "user2"]);
    assert_eq!(friends.following.len(), 1);
    assert_eq!(profiles(vec![]), vec![]);
}

// Settings

fn settings() -> UpdateSettingsRequest {
    UpdateSettingsRequest { display_name: None, bio: None, image_url: None, is_private: None }
}

#[test]
fn fields_are_patched() {
    assert_eq!(patch_field(&None), None);
    assert_eq!(patch_field(&Some(text("  "))), Some(None));
    assert_eq!(patch_field(&Some(text(" x "))), Some(Some("x")));
}

#[test]
fn omitted_settings_change_nothing() {
    let update = update_settings("https://fm", &settings()).unwrap();
    assert_eq!(apply_profile_update(user(1), update), user(1));
}

#[test]
fn blank_settings_clear_and_others_set() {
    let mut body = settings();
    body.display_name = Some(text("  "));
    body.bio = Some(text(" New bio "));
    body.is_private = Some(true);
    let update = update_settings("https://fm", &body).unwrap();
    let after = apply_profile_update(user(1), update);
    assert_eq!(after.display_name, None);
    assert_eq!(after.bio, Some(text("New bio")));
    assert_eq!(after.image_url, Some(text("http://img")));
    assert!(after.is_private);
}

#[test]
fn settings_have_limits() {
    let refusal = |body: UpdateSettingsRequest| update_settings("https://fm", &body).unwrap_err();
    let mut body = settings();
    body.display_name = Some("é".repeat(101));
    assert_eq!(
        refusal(body),
        AppError::BadRequest(text("display name must be at most 100 characters"))
    );
    let mut body = settings();
    body.display_name = Some("é".repeat(100));
    assert!(update_settings("https://fm", &body).is_ok());
    let mut body = settings();
    body.bio = Some("x".repeat(1_001));
    assert_eq!(refusal(body), AppError::BadRequest(text("bio must be at most 1000 characters")));
    let mut body = settings();
    body.image_url = Some(text("ftp://x"));
    assert_eq!(refusal(body), AppError::BadRequest(text("image_url must be an http(s) URL")));
}

#[test]
fn settings_never_reference_uploads() {
    let mut body = settings();
    body.image_url = Some(text(" https://fm/uploads/a.jpg"));
    assert_eq!(
        update_settings("https://fm", &body),
        Err(AppError::BadRequest(text(
            "image_url cannot reference an uploaded file; use the avatar upload endpoint"
        )))
    );
    body.image_url = Some(text("http://other/uploads/a.jpg"));
    assert!(update_settings("https://fm", &body).is_ok());
    body.image_url = Some(text("   "));
    assert_eq!(update_settings("https://fm", &body).unwrap().image_url, Some(None));
}

#[test]
fn an_avatar_upload_changes_the_picture_only() {
    let update: UpdateProfile = upload_avatar(text("https://fm/uploads/a.jpg"));
    let after = apply_profile_update(user(1), update);
    let mut expected = user(1);
    expected.image_url = Some(text("https://fm/uploads/a.jpg"));
    assert_eq!(after, expected);
}

#[test]
fn nobody_follows_themselves() {
    assert_eq!(follow(1, Some(2)), Ok(2));
    assert_eq!(follow(1, Some(1)), Err(AppError::BadRequest(text("cannot follow yourself"))));
    assert_eq!(follow(1, None), Err(AppError::NotFound));
    assert_eq!(unfollow(1, Some(2)), Ok(2));
    assert_eq!(
        unfollow(1, Some(1)),
        Err(AppError::BadRequest(text("cannot unfollow yourself")))
    );
}

// Browsing

#[test]
fn lists_have_limits() {
    let recent = |limit| recent_limit(&RecentQuery { limit, before: None });
    assert_eq!((recent(None), recent(Some(7)), recent(Some(500))), (50, 7, 200));
    let top = |limit| top_limit(&PeriodQuery { period: None, limit });
    assert_eq!((top(None), top(Some(7)), top(Some(500))), (10, 7, 50));
    let section = |limit| section_limit(&SectionQuery { limit });
    assert_eq!((section(None), section(Some(-3)), section(Some(500))), (10, 1, 50));
}

#[test]
fn recent_scrobbles_are_paged() {
    let before = |before| recent_cutoff(&RecentQuery { limit: None, before });
    assert_eq!(before(Some(at(5))), at(5));
    let before_at = |before| recent_cutoff_at(&RecentQuery { limit: None, before }, &at(70));
    assert_eq!((before_at(Some(at(5))), before_at(None)), (at(5), at(70)));
    assert!(before(None).secs > 1_600_000_000);
}

#[test]
fn periods_begin_a_number_of_days_ago() {
    let now = Timestamp { secs: 100 * 365 * 86_400, nanos: 7 };
    for (period, days) in
        [("7days", 7), ("1month", 30), ("3months", 90), ("6months", 180), ("1year", 365)]
    {
        assert_eq!(
            period_to_since_at(period, &now),
            Timestamp { secs: now.secs - days * 86_400, nanos: 7 }
        );
    }
    assert_eq!(period_to_since_at("overall", &now), at(0));
    assert_eq!(period_to_since_at("7DAYS", &now), at(0));
    assert_eq!(heatmap_since_at(&now), period_to_since_at("1year", &now));
}

#[test]
fn longer_periods_begin_earlier() {
    let since: Vec<Timestamp> = ["7days", "1month", "3months", "6months", "1year", "overall"]
        .iter()
        .map(|period| period_to_since(period))
        .collect();
    for pair in since.windows(2) {
        assert!(pair[0].is_later_than(&pair[1]));
    }
    assert_eq!(top_since(&PeriodQuery { period: None, limit: None }), at(0));
    assert!(heatmap_since().secs > 1_500_000_000);
}

#[test]
fn a_search_needs_a_query() {
    let query = |q: &str, kind: Option<&str>, limit| {
        search(&SearchQuery { q: text(q), kind: kind.map(text), limit })
    };
    assert_eq!(
        query("  ", None, None),
        Err(AppError::BadRequest(text("search query cannot be empty")))
    );
    assert_eq!(
        query("x", None, Some(99)),
        Ok(SearchPlan { artists: true, tracks: true, users: true, limit: 30 })
    );
    assert_eq!(
        query("x", Some("track"), None),
        Ok(SearchPlan { artists: false, tracks: true, users: false, limit: 10 })
    );
    assert_eq!(
        query("x", Some("albums"), None),
        Ok(SearchPlan { artists: false, tracks: false, users: false, limit: 10 })
    );
}

#[test]
fn a_search_shows_profiles() {
    let response = search_response(vec![], vec![], vec![user(4)]);
    assert_eq!(response.users, vec![UserProfile::from(user(4))]);
    assert_eq!(response.artists, vec![]);
}

#[test]
fn private_profiles_are_not_listed() {
    let hidden = User { is_private: true, ..user(5) };
    let response = search_response(vec![], vec![], vec![hidden, user(4)]);
    assert_eq!(response.users, vec![UserProfile::from(user(4))]);
    let row = |user_id, is_private| ListenerRow {
        listener: TopListener {
            user_id,
            username: text("someone"),
            display_name: None,
            image_url: None,
            play_count: 3,
        },
        is_private,
    };
    let shown = shown_listeners(vec![row(1, false), row(2, true), row(3, false)]);
    assert_eq!(shown.iter().map(|l| l.user_id).collect::<Vec<_>>(), vec![1, 3]);
}

#[test]
fn what_is_missing_is_not_found() {
    assert_eq!(found(Some(5)), Ok(5));
    assert_eq!(found::<i32>(None), Err(AppError::NotFound));
    assert_eq!(queue_refresh().status, "queued");
}

// Likes

#[test]
fn likes_are_idempotent() {
    assert_eq!(vote_image(false, 4), VoteChange { changed: true, vote_count: 5 });
    assert_eq!(vote_image(true, 5), VoteChange { changed: false, vote_count: 5 });
    assert_eq!(vote_image(true, i64::MAX), VoteChange { changed: false, vote_count: i64::MAX });
    assert_eq!(unvote_image(true, 5), VoteChange { changed: true, vote_count: 4 });
    assert_eq!(unvote_image(false, 4), VoteChange { changed: false, vote_count: 4 });
    assert_eq!(unvote_image(true, 0), VoteChange { changed: true, vote_count: 0 });
}

#[test]
fn the_count_is_the_number_of_voters() {
    let mut voters: Vec<i64> = Vec::new();
    let mut count = 0;
    for (user, likes) in
        [(1, true), (2, true), (1, true), (2, false), (3, true), (2, false), (1, false)]
    {
        let has_voted = voters.contains(&user);
        if likes {
            count = vote_image(has_voted, count).vote_count;
            if !has_voted {
                voters.push(user);
            }
        } else {
            count = unvote_image(has_voted, count).vote_count;
            voters.retain(|v| *v != user);
        }
        assert_eq!(count as usize, voters.len());
    }
}

fn contender(url: &str, vote_count: i64, created: i64) -> Contender {
    Contender { url: text(url), vote_count, created_at: at(created) }
}

#[test]
fn the_most_liked_image_wins_from_three_likes() {
    assert_eq!(promote_winning_image(&vec![]), None);
    assert_eq!(promote_winning_image(&vec![contender("a", 1, 1)]), None);
    assert_eq!(promote_winning_image(&vec![contender("a", 2, 1), contender("b", 2, 2)]), None);
    assert_eq!(
        promote_winning_image(&vec![contender("a", 3, 1), contender("b", 4, 2)]),
        Some(text("b"))
    );
}

#[test]
fn an_upload_is_a_candidate_that_its_uploader_likes() {
    let added = add_image_candidate(vec![contender("a", 3, 1)], text("b"), at(9), 7);
    assert_eq!(
        added,
        CandidateAdded {
            contenders: vec![contender("a", 3, 1), contender("b", 1, 9)],
            liked_by: 7,
            // The one that leads past the threshold is promoted now.
            winner: Some(text("a")),
        }
    );
    let first = add_image_candidate(vec![], text("b"), at(9), 7);
    assert_eq!((first.contenders, first.winner), (vec![contender("b", 1, 9)], None));
}

#[test]
fn of_equally_liked_images_the_earliest_wins() {
    let candidates =
        vec![contender("late", 3, 9), contender("early", 3, 1), contender("mid", 3, 5)];
    assert_eq!(promote_winning_image(&candidates), Some(text("early")));
}

#[test]
fn candidates_show_votes_and_the_current_image() {
    let row = |id, url: &str| CandidateRow {
        id,
        url: text(url),
        uploaded_by: text("bjork"),
        vote_count: 2,
        voted: true,
        created_at: at(1),
    };
    let listed =
        list_image_candidates(vec![row(1, "a"), row(2, "b")], &Some(text("b")), Some(7));
    assert_eq!((listed[0].is_default, listed[1].is_default), (false, true));
    assert!(listed[0].has_voted);
    let anonymous = list_image_candidates(vec![row(1, "a")], &None, None);
    assert!(!anonymous[0].has_voted);
    assert!(!anonymous[0].is_default);
}

#[test]
fn images_and_comments_have_their_entities() {
    assert!(has_images(EntityKind::Artist) && has_images(EntityKind::Album));
    assert!(!has_images(EntityKind::Track));
    assert!(has_comments(EntityKind::Artist) && has_comments(EntityKind::Track));
    assert!(!has_comments(EntityKind::Album));
}

// Comments

#[test]
fn comments_are_trimmed_and_bounded() {
    assert_eq!(create_comment(true, "  nice  "), Ok(text("nice")));
    assert_eq!(
        create_comment(true, " \n "),
        Err(AppError::BadRequest(text("comment cannot be empty")))
    );
    assert_eq!(create_comment(true, &"é".repeat(2_000)), Ok("é".repeat(2_000)));
    assert_eq!(
        create_comment(true, &"é".repeat(2_001)),
        Err(AppError::BadRequest(text("comment must be at most 2000 characters")))
    );
    assert_eq!(create_comment(false, "nice"), Err(AppError::NotFound));
}

#[test]
fn only_own_comments_are_deleted() {
    assert_eq!(delete_comment(Some(7), 7), Ok(DeletedResponse { deleted: true }));
    assert_eq!(delete_comment(Some(8), 7), Err(AppError::NotFound));
    assert_eq!(delete_comment(None, 7), Err(AppError::NotFound));
}
