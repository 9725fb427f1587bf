//! Browsing: search, statistics and their limits.

use crate::errors::AppError;
use crate::models;
use crate::models::{Artist, TopListener, Track, User, UserProfile};
use crate::text;
use crate::time;
use crate::time::Timestamp;
use crate::users;
use vstd::prelude::*;
use vstd::string::*;

verus! {

// ---------------------------------------------------------------------------
// Limits
// ---------------------------------------------------------------------------

/// A requested number of items, or the default; at most `max`.
pub open spec fn limited(requested: Option<i64>, default: i64, max: i64) -> i64 {
    let wanted = match requested {
        Some(limit) => limit,
        None => default,
    };
    if wanted < max {
        wanted
    } else {
        max
    }
}

fn limit(requested: Option<i64>, default: i64, max: i64) -> (res: i64)
    ensures
        res == limited(requested, default, max),
{
    let wanted: i64 = match requested {
        Some(limit) => limit,
        None => default,
    };
    if wanted < max {
        wanted
    } else {
        max
    }
}

#[derive(Debug, PartialEq, Eq)]
pub struct RecentQuery {
    pub limit: Option<i64>,
    pub before: Option<Timestamp>,
}

/// How many recent scrobbles are listed: 50 unless said otherwise, 200 at most.
pub fn recent_limit(q: &RecentQuery) -> (res: i64)
    ensures
        res == limited(q.limit, 50, 200),
{
    limit(q.limit, 50, 200)
}

/// The instant before which recent scrobbles are listed: `before`, or now.
pub open spec fn cutoff(before: Option<Timestamp>, now: Timestamp) -> Timestamp {
    match before {
        Some(before) => before,
        None => now,
    }
}

/// The instant before which recent scrobbles are listed when the clock shows
/// `now`.
pub fn recent_cutoff_at(q: &RecentQuery, now: &Timestamp) -> (res: Timestamp)
    ensures
        res == cutoff(q.before, *now),
{
    match q.before {
        Some(before) => before,
        None => *now,
    }
}

/// [`recent_cutoff_at`] by the clock.
pub fn recent_cutoff(q: &RecentQuery) -> (res: Timestamp)
    ensures
        exists|now: Timestamp|
            now.wf() && now.plain() && now.secs >= 0 && res == #[trigger] cutoff(q.before, now),
{
    let now = time::now();
    recent_cutoff_at(q, &now)
}

#[derive(Debug, PartialEq, Eq)]
pub struct PeriodQuery {
    /// "7days" | "1month" | "3months" | "6months" | "1year" | "overall"
    pub period: Option<String>,
    pub limit: Option<i64>,
}

/// How many top artists or tracks are listed: 10 unless said otherwise, 50 at
/// most.
pub fn top_limit(q: &PeriodQuery) -> (res: i64)
    ensures
        res == limited(q.limit, 10, 50),
{
    limit(q.limit, 10, 50)
}

/// Shared query params for the listener and top-track sections.
#[derive(Debug, PartialEq, Eq)]
pub struct SectionQuery {
    pub limit: Option<i64>,
}

/// How many items a section shows: 10 unless said otherwise, between 1 and 50.
pub fn section_limit(q: &SectionQuery) -> (res: i64)
    ensures
        res == (match q.limit {
            Some(limit) => if limit < 1 {
                1
            } else if limit > 50 {
                50
            } else {
                limit
            },
            None => 10i64,
        }),
{
    let wanted: i64 = match q.limit {
        Some(limit) => limit,
        None => 10,
    };
    if wanted < 1 {
        1
    } else if wanted > 50 {
        50
    } else {
        wanted
    }
}

/// No list is longer than its maximum.
pub proof fn law_limits_hold(requested: Option<i64>, default: i64, max: i64)
    ensures
        limited(requested, default, max) <= max,
        requested matches Some(wanted) ==> (wanted <= max ==> limited(requested, default, max)
            == wanted),
{
}

// ---------------------------------------------------------------------------
// Periods
// ---------------------------------------------------------------------------

/// The number of days in a period; `None` for everything so far.
pub open spec fn period_days(period: Seq<char>) -> Option<int> {
    if period == "7days"@ {
        Some(7)
    } else if period == "1month"@ {
        Some(30)
    } else if period == "3months"@ {
        Some(90)
    } else if period == "6months"@ {
        Some(180)
    } else if period == "1year"@ {
        Some(365)
    } else {
        None
    }
}

/// The instant `days` days before `now`.
pub open spec fn days_before(now: Timestamp, days: int) -> Timestamp {
    time::shifted(now, -days * time::MILLIS_PER_DAY).unwrap()
}

/// When a period begins, if it ends now. A period of another name is
/// everything since the epoch.
pub open spec fn period_start(period: Seq<char>, now: Timestamp) -> Timestamp {
    match period_days(period) {
        Some(days) => days_before(now, days),
        None => Timestamp { secs: 0, nanos: 0 },
    }
}

fn go_back(now: &Timestamp, days: i64) -> (res: Timestamp)
    requires
        now.wf(),
        now.plain(),
        now.secs >= 0,
        0 <= days <= 365,
    ensures
        res == days_before(*now, days as int),
        res.wf(),
        res.plain(),
        res.total_nanos() == now.total_nanos() - days * 86_400_000_000_000,
{
    proof {
        assert(-days * time::MILLIS_PER_DAY == -(days * time::MILLIS_PER_DAY));
    }
    match time::shift(now, -(days * time::MILLIS_PER_DAY)) {
        Some(since) => since,
        None => *now,
    }
}

/// When a period begins, if it ends `now`.
pub fn period_to_since_at(period: &str, now: &Timestamp) -> (res: Timestamp)
    requires
        now.wf(),
        now.plain(),
        now.secs >= 0,
    ensures
        res == period_start(period@, *now),
        res.wf(),
{
    if period.eq("7days") {
        go_back(now, 7)
    } else if period.eq("1month") {
        go_back(now, 30)
    } else if period.eq("3months") {
        go_back(now, 90)
    } else if period.eq("6months") {
        go_back(now, 180)
    } else if period.eq("1year") {
        go_back(now, 365)
    } else {
        Timestamp { secs: 0, nanos: 0 }
    }
}

/// When a period begins, if it ends now.
pub fn period_to_since(period: &str) -> (res: Timestamp)
    ensures
        res.wf(),
        exists|now: Timestamp|
            now.wf() && now.plain() && now.secs >= 0 && res == #[trigger] period_start(
                period@,
                now,
            ),
{
    let now = time::now();
    period_to_since_at(period, &now)
}

/// The period that is asked for, else overall.
pub open spec fn period_or_overall(period: Option<Seq<char>>) -> Seq<char> {
    match period {
        Some(period) => period,
        None => "overall"@,
    }
}

/// Since when top artists and tracks are counted: the period that is asked for,
/// else overall.
pub fn top_since(q: &PeriodQuery) -> (res: Timestamp)
    ensures
        res.wf(),
        exists|now: Timestamp|
            now.wf() && now.plain() && now.secs >= 0 && res == #[trigger] period_start(
                period_or_overall(q.period.deep_view()),
                now,
            ),
{
    let period: &str = match &q.period {
        Some(period) => period.as_str(),
        None => "overall",
    };
    proof {
        assert(period@ == period_or_overall(q.period.deep_view()));
    }
    period_to_since(period)
}

/// Since when the activity heatmap counts, when the clock shows `now`: a year
/// ago.
pub fn heatmap_since_at(now: &Timestamp) -> (res: Timestamp)
    requires
        now.wf(),
        now.plain(),
        now.secs >= 0,
    ensures
        res == days_before(*now, 365),
        res.wf(),
{
    go_back(now, 365)
}

/// Since when the activity heatmap counts: a year ago.
pub fn heatmap_since() -> (res: Timestamp)
    ensures
        res.wf(),
        exists|now: Timestamp|
            now.wf() && now.plain() && now.secs >= 0 && res == #[trigger] days_before(now, 365),
{
    let now = time::now();
    heatmap_since_at(&now)
}

/// A longer period begins no later than a shorter one, and none begins in the
/// future.
pub proof fn law_longer_periods_begin_earlier(now: Timestamp, short: int, long: int)
    requires
        now.wf(),
        now.plain(),
        now.secs >= 0,
        0 <= short <= long <= 365,
    ensures
        !days_before(now, long).later_than(days_before(now, short)),
        !days_before(now, short).later_than(now),
{
    assert(-short * time::MILLIS_PER_DAY == -(short * 86_400_000));
    assert(-long * time::MILLIS_PER_DAY == -(long * 86_400_000));
}

// ---------------------------------------------------------------------------
// Search
// ---------------------------------------------------------------------------

#[derive(Debug, PartialEq, Eq)]
pub struct SearchQuery<S = String> {
    pub q: S,
    /// "track" | "artist" | "user" | "all" (default)
    pub kind: Option<S>,
    pub limit: Option<i64>,
}

impl DeepView for SearchQuery {
    type V = SearchQuery<Seq<char>>;

    open spec fn deep_view(&self) -> SearchQuery<Seq<char>> {
        SearchQuery { q: self.q@, kind: self.kind.deep_view(), limit: self.limit }
    }
}

/// What is searched, and how many results of each kind are wanted.
#[derive(Debug, Clone, Copy, PartialEq, Eq, Structural)]
pub struct SearchPlan {
    pub artists: bool,
    pub tracks: bool,
    pub users: bool,
    pub limit: i64,
}

impl DeepView for SearchPlan {
    type V = SearchPlan;

    open spec fn deep_view(&self) -> SearchPlan {
        *self
    }
}

/// The kind of result is wanted.
pub open spec fn wants(kind: Option<Seq<char>>, wanted: Seq<char>) -> bool {
    match kind {
        Some(k) => k == "all"@ || k == wanted,
        None => true,
    }
}

/// How a search is carried out, or why it is refused.
pub open spec fn search_plan(q: SearchQuery<Seq<char>>) -> Result<SearchPlan, AppError<Seq<char>>> {
    if text::is_blank(q.q) {
        Err(AppError::BadRequest("search query cannot be empty"@))
    } else {
        Ok(
            SearchPlan {
                artists: wants(q.kind, "artist"@),
                tracks: wants(q.kind, "track"@),
                users: wants(q.kind, "user"@),
                limit: limited(q.limit, 10, 30),
            },
        )
    }
}

fn is_wanted(kind: &Option<String>, wanted: &str) -> (res: bool)
    ensures
        res == wants(kind.deep_view(), wanted@),
{
    match kind {
        Some(k) => k.as_str().eq("all") || k.as_str().eq(wanted),
        None => true,
    }
}

/// `GET /v1/search`: what to search for. Up to 30 results per kind.
pub fn search(q: &SearchQuery) -> (res: Result<SearchPlan, AppError>)
    ensures
        text::result_view(res) == search_plan(q.deep_view()),
{
    proof {
        text::law_trimmed_empty_iff_blank(q.q@);
    }
    if q.q.as_str().trim().is_empty() {
        return Err(AppError::BadRequest("search query cannot be empty".to_owned()));
    }
    Ok(
        SearchPlan {
            artists: is_wanted(&q.kind, "artist"),
            tracks: is_wanted(&q.kind, "track"),
            users: is_wanted(&q.kind, "user"),
            limit: limit(q.limit, 10, 30),
        },
    )
}

/// What a search found.
#[derive(Debug, PartialEq, Eq)]
pub struct SearchResponse {
    pub artists: Vec<Artist>,
    pub tracks: Vec<Track>,
    pub users: Vec<UserProfile>,
}

/// The public profiles among some users, in order.
pub open spec fn public_profiles(users: Seq<User>) -> Seq<UserProfile> {
    users.filter(|u: User| !u.is_private).map_values(|u: User| models::profile_of(u))
}

fn public_users(users: Vec<User>) -> (res: Vec<User>)
    ensures
        res@ == users@.filter(|u: User| !u.is_private),
{
    let ghost shown = |u: User| !u.is_private;
    let mut out: Vec<User> = Vec::new();
    for user in it: users
        invariant
            it.seq() == users@,
            shown == (|u: User| !u.is_private),
            out@ == users@.take(it.index() as int).filter(shown),
    {
        proof {
            let n = it.index() as int;
            reveal(Seq::filter);
            assert(users@.take(n + 1).drop_last() =~= users@.take(n));
        }
        if !user.is_private {
            out.push(user);
        }
    }
    proof {
        assert(users@.take(users@.len() as int) =~= users@);
    }
    out
}

/// The answer to a search: of the users only their public parts, and no private
/// profile.
pub fn search_response(artists: Vec<Artist>, tracks: Vec<Track>, users: Vec<User>) -> (res:
    SearchResponse)
    ensures
        res.artists == artists,
        res.tracks == tracks,
        res.users@ == public_profiles(users@),
{
    SearchResponse { artists, tracks, users: users::profiles(public_users(users)) }
}

/// A user who listens to an artist or track, and whether their profile is
/// private.
#[derive(Debug, PartialEq, Eq)]
pub struct ListenerRow {
    pub listener: TopListener,
    pub is_private: bool,
}

/// The listeners that are shown among those there are, in order: only public
/// profiles ever are.
pub fn shown_listeners(rows: Vec<ListenerRow>) -> (res: Vec<TopListener>)
    ensures
        res@ == rows@.filter(|r: ListenerRow| !r.is_private).map_values(
            |r: ListenerRow| r.listener,
        ),
{
    let ghost shown = |r: ListenerRow| !r.is_private;
    let ghost listener = |r: ListenerRow| r.listener;
    let mut out: Vec<TopListener> = Vec::new();
    for row in it: rows
        invariant
            it.seq() == rows@,
            shown == (|r: ListenerRow| !r.is_private),
            listener == (|r: ListenerRow| r.listener),
            out@ == rows@.take(it.index() as int).filter(shown).map_values(listener),
    {
        proof {
            let n = it.index() as int;
            reveal(Seq::filter);
            assert(rows@.take(n + 1).drop_last() =~= rows@.take(n));
            assert(rows@.take(n).filter(shown).push(rows@[n]).map_values(listener)
                =~= rows@.take(n).filter(shown).map_values(listener).push(rows@[n].listener));
        }
        if !row.is_private {
            out.push(row.listener);
        }
    }
    proof {
        assert(rows@.take(rows@.len() as int) =~= rows@);
    }
    out
}

/// Private profiles are excluded from search and from listener lists, and
/// public ones that were found are not.
pub proof fn law_private_profiles_are_not_listed(users: Seq<User>, rows: Seq<ListenerRow>)
    ensures
        forall|i: int|
            0 <= i < public_profiles(users).len() ==> !(
            #[trigger] public_profiles(users)[i]).is_private,
        forall|i: int|
            0 <= i < users.len() && !(#[trigger] users[i]).is_private ==> public_profiles(
                users,
            ).contains(models::profile_of(users[i])),
        forall|i: int|
            0 <= i < rows.len() && !(#[trigger] rows[i]).is_private ==> rows.filter(
                |r: ListenerRow| !r.is_private,
            ).map_values(|r: ListenerRow| r.listener).contains(rows[i].listener),
        rows.filter(|r: ListenerRow| !r.is_private).all(|r: ListenerRow| !r.is_private),
{
    broadcast use vstd::seq_lib::group_filter_ensures;

    let shown = |u: User| !u.is_private;
    let profile = |u: User| models::profile_of(u);
    assert forall|i: int| 0 <= i < public_profiles(users).len() implies !(
    #[trigger] public_profiles(users)[i]).is_private by {
        assert(shown(users.filter(shown)[i]));
        assert(public_profiles(users)[i] == profile(users.filter(shown)[i]));
    }
    assert forall|i: int|
        0 <= i < users.len() && !(#[trigger] users[i]).is_private implies public_profiles(
        users,
    ).contains(models::profile_of(users[i])) by {
        users.lemma_filter_contains(shown, i);
        let k = choose|k: int|
            0 <= k < users.filter(shown).len() && users.filter(shown)[k] == users[i];
        assert(public_profiles(users)[k] == models::profile_of(users[i]));
    }
    let open = |r: ListenerRow| !r.is_private;
    let listener = |r: ListenerRow| r.listener;
    assert forall|i: int| 0 <= i < rows.len() && !(#[trigger] rows[i]).is_private implies rows.filter(
        open,
    ).map_values(listener).contains(rows[i].listener) by {
        rows.lemma_filter_contains(open, i);
        let k = choose|k: int|
            0 <= k < rows.filter(open).len() && rows.filter(open)[k] == rows[i];
        assert(rows.filter(open).map_values(listener)[k] == rows[i].listener);
    }
    assert forall|i: int| 0 <= i < rows.filter(open).len() implies open(
        #[trigger] rows.filter(open)[i],
    ) by {}
}

// ---------------------------------------------------------------------------
// Entities
// ---------------------------------------------------------------------------

/// An entity that was looked up by its id, or 404.
pub fn found<T>(entity: Option<T>) -> (res: Result<T, AppError>)
    ensures
        res == (match entity {
            Some(entity) => Ok::<T, AppError>(entity),
            None => Err(AppError::NotFound),
        }),
{
    match entity {
        Some(entity) => Ok(entity),
        None => Err(AppError::NotFound),
    }
}

#[derive(Debug, PartialEq, Eq)]
pub struct RefreshResponse {
    pub status: String,
}

/// The answer (202) to a request to refresh an entity, once it is queued.
pub fn queue_refresh() -> (res: RefreshResponse)
    ensures
        res.status@ == "queued"@,
{
    RefreshResponse { status: "queued".to_owned() }
}

// ---------------------------------------------------------------------------
// Laws
// ---------------------------------------------------------------------------

/// A query of white space alone is refused, and no other. Of a query that is
/// carried out, artists are searched exactly when the kind is absent, `all` or
/// `artist`; tracks when it is absent, `all` or `track`; users when it is
/// absent, `all` or `user`.
pub proof fn law_search_looks_where_it_is_asked_to(q: SearchQuery<Seq<char>>)
    ensures
        (forall|i: int| 0 <= i < q.q.len() ==> text::is_white_space(#[trigger] q.q[i]))
            ==> search_plan(q) == Err::<SearchPlan, AppError<Seq<char>>>(
            AppError::BadRequest("search query cannot be empty"@),
        ),
        (exists|i: int| 0 <= i < q.q.len() && !text::is_white_space(#[trigger] q.q[i])) ==> {
            &&& search_plan(q) matches Ok(plan)
            &&& plan.artists <==> q.kind is None || q.kind == Some("all"@) || q.kind == Some(
                "artist"@,
            )
            &&& plan.tracks <==> q.kind is None || q.kind == Some("all"@) || q.kind == Some(
                "track"@,
            )
            &&& plan.users <==> q.kind is None || q.kind == Some("all"@) || q.kind == Some("user"@)
        },
{
}

/// A search wants 10 results of each kind unless it says otherwise, and 30 at
/// most.
pub proof fn law_search_limit(q: SearchQuery<Seq<char>>)
    ensures
        search_plan(q) matches Ok(plan) ==> {
            &&& q.limit is None ==> plan.limit == 10
            &&& q.limit matches Some(limit) ==> plan.limit == if limit <= 30 {
                limit
            } else {
                30
            }
        },
{
}

/// The three kinds are told apart: a search for one of them looks nowhere else.
pub proof fn law_a_kind_is_searched_alone(q: SearchQuery<Seq<char>>)
    requires
        search_plan(q) is Ok,
    ensures
        search_plan(q) matches Ok(plan) ==> {
            &&& q.kind == Some("artist"@) ==> plan.artists && !plan.tracks && !plan.users
            &&& q.kind == Some("track"@) ==> !plan.artists && plan.tracks && !plan.users
            &&& q.kind == Some("user"@) ==> !plan.artists && !plan.tracks && plan.users
        },
{
    reveal_strlit("all");
    reveal_strlit("artist");
    reveal_strlit("track");
    reveal_strlit("user");
    assert("artist"@.len() == 6 && "track"@.len() == 5 && "user"@.len() == 4 && "all"@.len() == 3);
}

/// The limit is the requested number, the default where none is requested, and
/// the maximum where that is exceeded.
pub proof fn law_limits_are_exact(requested: Option<i64>, default: i64, max: i64)
    ensures
        requested is None && default <= max ==> limited(requested, default, max) == default,
        requested is None && default > max ==> limited(requested, default, max) == max,
        requested matches Some(wanted) ==> (wanted >= max ==> limited(requested, default, max)
            == max),
{
}

/// A named period is so many days of 24 hours long; any other reaches back to
/// the epoch, and so does the one that is counted where none is asked for.
pub proof fn law_period_lengths(now: Timestamp, other: Seq<char>)
    requires
        now.wf(),
        now.plain(),
        now.secs >= 0,
        other != "7days"@,
        other != "1month"@,
        other != "3months"@,
        other != "6months"@,
        other != "1year"@,
    ensures
        ({
            let day: int = 86_400_000_000_000;
            let length = |period: Seq<char>|
                now.total_nanos() - period_start(period, now).total_nanos();
            &&& length("7days"@) == 7 * day
            &&& length("1month"@) == 30 * day
            &&& length("3months"@) == 90 * day
            &&& length("6months"@) == 180 * day
            &&& length("1year"@) == 365 * day
            &&& period_start(other, now).total_nanos() == 0
            &&& period_start(period_or_overall(None), now).total_nanos() == 0
            &&& period_or_overall(Some(other)) == other
        }),
{
    reveal_strlit("7days");
    reveal_strlit("1month");
    reveal_strlit("3months");
    reveal_strlit("6months");
    reveal_strlit("1year");
    reveal_strlit("overall");
    assert("7days"@[0] == '7');
    assert("1month"@[0] == '1' && "1month"@[1] == 'm');
    assert("3months"@[0] == '3');
    assert("6months"@[0] == '6');
    assert("1year"@[0] == '1' && "1year"@[1] == 'y');
    assert("overall"@[0] == 'o');
    assert(-7 * time::MILLIS_PER_DAY == -(7 * 86_400_000));
    assert(-30 * time::MILLIS_PER_DAY == -(30 * 86_400_000));
    assert(-90 * time::MILLIS_PER_DAY == -(90 * 86_400_000));
    assert(-180 * time::MILLIS_PER_DAY == -(180 * 86_400_000));
    assert(-365 * time::MILLIS_PER_DAY == -(365 * 86_400_000));
}

/// Recent scrobbles are those before the instant that is asked for, and before
/// now where none is; the heatmap covers the 365 days up to now.
pub proof fn law_listings_end_and_begin(before: Timestamp, now: Timestamp)
    requires
        now.wf(),
        now.plain(),
        now.secs >= 0,
    ensures
        cutoff(Some(before), now) == before,
        cutoff(None, now) == now,
        days_before(now, 365).total_nanos() == now.total_nanos() - 365 * 86_400_000_000_000,
{
    assert(-365 * time::MILLIS_PER_DAY == -(365 * 86_400_000));
}

/// The profiles that a search shows are those of the public users among the ones
/// found, each once and in the order in which they were found.
pub proof fn law_shown_profiles_keep_their_order(users: Seq<User>, next: User)
    ensures
        public_profiles(Seq::empty()) == Seq::<UserProfile>::empty(),
        next.is_private ==> public_profiles(users.push(next)) == public_profiles(users),
        !next.is_private ==> public_profiles(users.push(next)) == public_profiles(users).push(
            models::profile_of(next),
        ),
{
    let shown = |u: User| !u.is_private;
    let profile = |u: User| models::profile_of(u);
    reveal(Seq::filter);
    assert(Seq::<User>::empty().filter(shown) =~= Seq::<User>::empty());
    assert(public_profiles(Seq::empty()) =~= Seq::<UserProfile>::empty());
    assert(users.push(next).drop_last() =~= users);
    assert(users.filter(shown).push(next).map_values(profile) =~= users.filter(shown).map_values(
        profile,
    ).push(models::profile_of(next)));
}

/// Whatever a search is told to look for, it is by the text, the kind and the limit
/// of its query.
pub proof fn law_searches(q: &SearchQuery, res: Result<SearchPlan, AppError>)
    requires
        call_ensures(search, (q,), res),
    ensures
        res is Ok <==> exists|i: int| 0 <= i < q.q@.len() && !text::is_white_space(
            #[trigger] q.q@[i],
        ),
        res matches Ok(plan) ==> {
            &&& q.kind is None ==> plan.artists && plan.tracks && plan.users
            &&& q.kind matches Some(kind) ==> {
                &&& plan.artists <==> kind@ == "all"@ || kind@ == "artist"@
                &&& plan.tracks <==> kind@ == "all"@ || kind@ == "track"@
                &&& plan.users <==> kind@ == "all"@ || kind@ == "user"@
            }
            &&& plan.limit == limited(q.limit, 10, 30)
        },
        res matches Err(e) ==> e.deep_view() == AppError::<Seq<char>>::BadRequest(
            "search query cannot be empty"@,
        ),
{
}

/// Recent scrobbles are listed 50 at a time and 200 at most; top artists and tracks
/// 10 at a time and 50 at most; a section has 10 entries, and can have 1 to 50.
pub proof fn law_list_lengths(
    recent: &RecentQuery,
    recent_len: i64,
    top: &PeriodQuery,
    top_len: i64,
    section: &SectionQuery,
    section_len: i64,
)
    requires
        call_ensures(recent_limit, (recent,), recent_len),
        call_ensures(top_limit, (top,), top_len),
        call_ensures(section_limit, (section,), section_len),
    ensures
        recent.limit is None ==> recent_len == 50,
        recent.limit matches Some(wanted) ==> recent_len == if wanted < 200 {
            wanted
        } else {
            200
        },
        top.limit is None ==> top_len == 10,
        top.limit matches Some(wanted) ==> top_len == if wanted < 50 {
            wanted
        } else {
            50
        },
        section.limit is None ==> section_len == 10,
        section.limit matches Some(wanted) ==> {
            &&& 1 <= section_len <= 50
            &&& 1 <= wanted <= 50 ==> section_len == wanted
            &&& wanted < 1 ==> section_len == 1
            &&& wanted > 50 ==> section_len == 50
        },
{
}

/// A search is answered with the artists and the tracks that were found, and with
/// the public profiles of the users.
pub proof fn law_search_responses(
    artists: Vec<Artist>,
    tracks: Vec<Track>,
    users: Vec<User>,
    res: SearchResponse,
)
    requires
        call_ensures(search_response, (artists, tracks, users), res),
    ensures
        res.artists == artists,
        res.tracks == tracks,
        res.users@ == users@.filter(|u: User| !u.is_private).map_values(
            |u: User| models::profile_of(u),
        ),
{
}

/// The listeners that are shown are the public ones, each once and in their order.
pub proof fn law_shown_listeners(rows: Vec<ListenerRow>, res: Vec<TopListener>)
    requires
        call_ensures(shown_listeners, (rows,), res),
    ensures
        res@ == rows@.filter(|r: ListenerRow| !r.is_private).map_values(
            |r: ListenerRow| r.listener,
        ),
        rows@.len() == 0 ==> res@.len() == 0,
        (forall|i: int| 0 <= i < rows@.len() ==> !(#[trigger] rows@[i]).is_private) ==> {
            &&& res@.len() == rows@.len()
            &&& forall|i: int| 0 <= i < rows@.len() ==> #[trigger] res@[i] == rows@[i].listener
        },
{
    let shown = |r: ListenerRow| !r.is_private;
    let listener = |r: ListenerRow| r.listener;
    if rows@.len() == 0 {
        rows@.lemma_filter_len(shown);
    }
    if forall|i: int| 0 <= i < rows@.len() ==> !(#[trigger] rows@[i]).is_private {
        lemma_nothing_hidden(rows@);
    }
}

/// Where no listener is private, none is left out.
proof fn lemma_nothing_hidden(rows: Seq<ListenerRow>)
    requires
        forall|i: int| 0 <= i < rows.len() ==> !(#[trigger] rows[i]).is_private,
    ensures
        rows.filter(|r: ListenerRow| !r.is_private) == rows,
    decreases rows.len(),
{
    reveal(Seq::filter);
    if rows.len() > 0 {
        let rest = rows.drop_last();
        assert forall|i: int| 0 <= i < rest.len() implies !(#[trigger] rest[i]).is_private by {
            assert(rest[i] == rows[i]);
        }
        lemma_nothing_hidden(rest);
        assert(rest.push(rows.last()) =~= rows);
    }
}

/// What is looked up by its id is answered as it is, or not found.
pub proof fn law_looked_up_entities<T>(entity: T, res: Result<T, AppError>, none: Result<T, AppError>)
    requires
        call_ensures(found::<T>, (Some(entity),), res),
        call_ensures(found::<T>, (None::<T>,), none),
    ensures
        res == Ok::<T, AppError>(entity),
        none == Err::<T, AppError>(AppError::NotFound),
{
}

/// A refresh that was asked for is answered as queued, and the heatmap goes back
/// 365 days.
pub proof fn law_refreshes_and_heatmaps(queued: RefreshResponse, now: &Timestamp, since: Timestamp)
    requires
        call_ensures(queue_refresh, (), queued),
        call_ensures(heatmap_since_at, (now,), since),
        now.wf(),
        now.plain(),
        now.secs >= 0,
    ensures
        queued.status@ == "queued"@,
        since.total_nanos() == now.total_nanos() - 365 * 86_400_000_000_000,
{
    law_listings_end_and_begin(*now, *now);
}

} // verus!
