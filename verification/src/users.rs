//! User profiles: who sees them, how their owners change them, and following.

use crate::errors::AppError;
use crate::models::{User, UserProfile};
use crate::text;
use vstd::prelude::*;
use vstd::string::*;

verus! {

// ---------------------------------------------------------------------------
// Visibility
// ---------------------------------------------------------------------------

/// What visibility reads of a user.
#[derive(Debug, Clone, Copy, PartialEq, Eq, Structural)]
pub struct ProfileOwner {
    pub id: i64,
    pub is_private: bool,
}

impl DeepView for ProfileOwner {
    type V = ProfileOwner;

    open spec fn deep_view(&self) -> ProfileOwner {
        *self
    }
}

/// Where a request for a user's data stands.
#[derive(Debug, PartialEq, Eq)]
#[allow(inconsistent_fields)]
pub enum GateStep<S = String> {
    /// Find the user by name.
    FindUser { username: S },
    /// Does the viewer follow the user?
    AskFollowing { viewer_id: i64, owner: ProfileOwner },
    /// The data may be shown. `is_following` says whether the viewer follows
    /// the user, where the viewer is somebody else.
    Open { owner: ProfileOwner, is_following: Option<bool> },
    /// The data may not be shown, and why.
    Closed { error: AppError<S> },
}

#[derive(Debug, PartialEq, Eq)]
pub enum GateReply<S = String> {
    User(Result<Option<ProfileOwner>, S>),
    Following(Result<bool, S>),
}

impl DeepView for GateStep {
    type V = GateStep<Seq<char>>;

    open spec fn deep_view(&self) -> GateStep<Seq<char>> {
        match *self {
            GateStep::FindUser { username } => GateStep::FindUser { username: username@ },
            GateStep::AskFollowing { viewer_id, owner } => GateStep::AskFollowing {
                viewer_id,
                owner,
            },
            GateStep::Open { owner, is_following } => GateStep::Open { owner, is_following },
            GateStep::Closed { error } => GateStep::Closed { error: error.deep_view() },
        }
    }
}

impl DeepView for GateReply {
    type V = GateReply<Seq<char>>;

    open spec fn deep_view(&self) -> GateReply<Seq<char>> {
        match *self {
            GateReply::User(r) => GateReply::User(text::result_view(r)),
            GateReply::Following(r) => GateReply::Following(text::result_view(r)),
        }
    }
}

/// The viewer may see the owner's data: it is public, their own, or that of
/// somebody they follow.
pub open spec fn may_view(
    viewer_id: Option<i64>,
    owner: ProfileOwner,
    is_following: Option<bool>,
) -> bool {
    ||| !owner.is_private
    ||| viewer_id == Some(owner.id)
    ||| is_following == Some(true)
}

/// The decision on a profile, once it is known whether the viewer follows its
/// owner.
pub open spec fn profile_visibility(
    viewer_id: Option<i64>,
    owner: ProfileOwner,
    is_following: Option<bool>,
) -> GateStep<Seq<char>> {
    if may_view(viewer_id, owner, is_following) {
        GateStep::Open { owner, is_following }
    } else {
        GateStep::Closed { error: AppError::Forbidden }
    }
}

/// How the decision on a profile begins: whether the viewer follows the owner
/// matters only where the viewer is somebody else.
pub open spec fn visibility_begin(viewer_id: Option<i64>, owner: ProfileOwner) -> GateStep<Seq<char>> {
    match viewer_id {
        Some(viewer) if viewer != owner.id => GateStep::AskFollowing { viewer_id: viewer, owner },
        _ => profile_visibility(viewer_id, owner, None),
    }
}

/// One step of a request for a user's data.
pub open spec fn gate_next(
    viewer_id: Option<i64>,
    step: GateStep<Seq<char>>,
    reply: GateReply<Seq<char>>,
) -> GateStep<Seq<char>> {
    match (step, reply) {
        (GateStep::FindUser { .. }, GateReply::User(r)) => match r {
            Ok(Some(owner)) => visibility_begin(viewer_id, owner),
            Ok(None) => GateStep::Closed { error: AppError::NotFound },
            Err(error) => GateStep::Closed { error: AppError::Database(error) },
        },
        (GateStep::AskFollowing { owner, .. }, GateReply::Following(r)) => match r {
            Ok(following) => profile_visibility(viewer_id, owner, Some(following)),
            Err(error) => GateStep::Closed { error: AppError::Database(error) },
        },
        _ => step,
    }
}

fn decide(viewer_id: Option<i64>, owner: ProfileOwner, is_following: Option<bool>) -> (res:
    GateStep)
    ensures
        res.deep_view() == profile_visibility(viewer_id, owner, is_following),
{
    let is_owner: bool = match viewer_id {
        Some(viewer) => viewer == owner.id,
        None => false,
    };
    let follows: bool = match is_following {
        Some(following) => following,
        None => false,
    };
    if owner.is_private && !is_owner && !follows {
        GateStep::Closed { error: AppError::Forbidden }
    } else {
        GateStep::Open { owner, is_following }
    }
}

/// Checks whether the viewer is allowed to see the profile of `owner`. The
/// follow relationship comes out as well, since most callers need it for their
/// response anyway. The answer is `Forbidden` if the profile is private and the
/// viewer is neither the owner nor a follower.
pub fn ensure_profile_visible(viewer_id: Option<i64>, owner: ProfileOwner) -> (res: GateStep)
    ensures
        res.deep_view() == visibility_begin(viewer_id, owner),
{
    match viewer_id {
        Some(viewer) => if viewer != owner.id {
            GateStep::AskFollowing { viewer_id: viewer, owner }
        } else {
            decide(viewer_id, owner, None)
        },
        None => decide(viewer_id, owner, None),
    }
}

/// Begins to answer a request for a user's profile, scrobbles, statistics,
/// friends or live state. [`advance_gate`] carries it on.
pub fn open_profile(username: &str) -> (res: GateStep)
    ensures
        res.deep_view() == (GateStep::<Seq<char>>::FindUser { username: username@ }),
{
    GateStep::FindUser { username: username.to_owned() }
}

/// Takes the answer to the open question.
pub fn advance_gate(viewer_id: Option<i64>, step: GateStep, reply: GateReply) -> (res: GateStep)
    ensures
        res.deep_view() == gate_next(viewer_id, step.deep_view(), reply.deep_view()),
{
    match (step, reply) {
        (GateStep::FindUser { .. }, GateReply::User(r)) => match r {
            Ok(Some(owner)) => ensure_profile_visible(viewer_id, owner),
            Ok(None) => GateStep::Closed { error: AppError::NotFound },
            Err(error) => GateStep::Closed { error: AppError::Database(error) },
        },
        (GateStep::AskFollowing { owner, .. }, GateReply::Following(r)) => match r {
            Ok(following) => decide(viewer_id, owner, Some(following)),
            Err(error) => GateStep::Closed { error: AppError::Database(error) },
        },
        (step, _) => step,
    }
}

/// What comes of a request for the data of `owner`, where `follows` says
/// whether the viewer follows that user.
pub open spec fn gate_outcome(
    viewer_id: Option<i64>,
    owner: ProfileOwner,
    follows: bool,
) -> GateStep<Seq<char>> {
    let known = match viewer_id {
        Some(viewer) if viewer != owner.id => Some(follows),
        _ => None,
    };
    profile_visibility(viewer_id, owner, known)
}

/// A request for a user's data comes to its decision: an owner always sees
/// their own data; a follower sees the data of whom they follow; a private
/// profile is closed to everybody else; a public one is open to all.
pub proof fn law_profile_visibility(
    username: Seq<char>,
    viewer_id: Option<i64>,
    owner: ProfileOwner,
    follows: bool,
)
    ensures
        ({
            let find = GateStep::FindUser { username };
            let s1 = gate_next(viewer_id, find, GateReply::User(Ok(Some(owner))));
            gate_next(viewer_id, s1, GateReply::Following(Ok(follows))) == gate_outcome(
                viewer_id,
                owner,
                follows,
            )
        }),
        gate_outcome(viewer_id, owner, follows) is Open <==> {
            ||| !owner.is_private
            ||| viewer_id == Some(owner.id)
            ||| (viewer_id is Some && follows)
        },
        gate_outcome(viewer_id, owner, follows) matches GateStep::Closed { error } ==> error
            == AppError::<Seq<char>>::Forbidden,
{
}

/// A viewer who is not logged in never sees private data.
pub proof fn law_private_data_needs_a_login(owner: ProfileOwner, follows: bool)
    requires
        owner.is_private,
    ensures
        gate_outcome(None, owner, follows) is Closed,
{
}

#[derive(Debug, PartialEq, Eq)]
pub struct ProfileResponse {
    pub profile: UserProfile,
    /// `None` if not authenticated.
    pub is_following: Option<bool>,
}

/// `GET /v1/user/{username}`: the profile of a user whose data may be shown.
pub fn get_profile(user: User, is_following: Option<bool>) -> (res: ProfileResponse)
    ensures
        res.profile == crate::models::profile_of(user),
        res.is_following == is_following,
{
    ProfileResponse { profile: UserProfile::from(user), is_following }
}

/// `GET /v1/user/me`: the profile of the authenticated user, regardless of
/// privacy settings.
pub fn get_own_profile(user: Option<User>) -> (res: Result<ProfileResponse, AppError>)
    ensures
        match user {
            Some(u) => res matches Ok(response) && response.profile == crate::models::profile_of(u)
                && response.is_following is None,
            None => res == Err::<ProfileResponse, AppError>(AppError::NotFound),
        },
{
    match user {
        // You can't follow yourself.
        Some(user) => Ok(ProfileResponse { profile: UserProfile::from(user), is_following: None }),
        None => Err(AppError::NotFound),
    }
}

#[derive(Debug, PartialEq, Eq)]
pub struct FriendsResponse {
    pub followers: Vec<UserProfile>,
    pub following: Vec<UserProfile>,
}

/// The public parts of a list of users, in order.
pub fn profiles(users: Vec<User>) -> (res: Vec<UserProfile>)
    ensures
        res@ == users@.map_values(|u: User| crate::models::profile_of(u)),
{
    let mut out: Vec<UserProfile> = Vec::new();
    for user in it: users
        invariant
            it.seq() == users@,
            out@ == users@.take(it.index() as int).map_values(
                |u: User| crate::models::profile_of(u),
            ),
    {
        out.push(UserProfile::from(user));
        proof {
            let f = |u: User| crate::models::profile_of(u);
            assert(out@ =~= users@.take(it.index() as int + 1).map_values(f));
        }
    }
    proof {
        assert(users@.take(users@.len() as int) =~= users@);
    }
    out
}

/// `GET /v1/user/{username}/friends`.
pub fn get_friends(followers: Vec<User>, following: Vec<User>) -> (res: FriendsResponse)
    ensures
        res.followers@ == followers@.map_values(|u: User| crate::models::profile_of(u)),
        res.following@ == following@.map_values(|u: User| crate::models::profile_of(u)),
{
    FriendsResponse { followers: profiles(followers), following: profiles(following) }
}

// ---------------------------------------------------------------------------
// Settings
// ---------------------------------------------------------------------------

/// Longest display name, in characters.
pub const MAX_DISPLAY_NAME_CHARS: usize = 100;

/// Longest bio, in characters.
pub const MAX_BIO_CHARS: usize = 1000;

/// Omitted fields are left unchanged; sending an empty string clears the
/// field.
#[derive(Debug, PartialEq, Eq)]
pub struct UpdateSettingsRequest<S = String> {
    pub display_name: Option<S>,
    pub bio: Option<S>,
    pub image_url: Option<S>,
    pub is_private: Option<bool>,
}

impl DeepView for UpdateSettingsRequest {
    type V = UpdateSettingsRequest<Seq<char>>;

    open spec fn deep_view(&self) -> UpdateSettingsRequest<Seq<char>> {
        UpdateSettingsRequest {
            display_name: self.display_name.deep_view(),
            bio: self.bio.deep_view(),
            image_url: self.image_url.deep_view(),
            is_private: self.is_private,
        }
    }
}

/// Changes to a profile: `None` leaves a field, `Some(None)` clears it.
#[derive(Debug, PartialEq, Eq)]
pub struct UpdateProfile<S = String> {
    pub display_name: Option<Option<S>>,
    pub bio: Option<Option<S>>,
    pub image_url: Option<Option<S>>,
    pub is_private: Option<bool>,
}

impl DeepView for UpdateProfile {
    type V = UpdateProfile<Seq<char>>;

    open spec fn deep_view(&self) -> UpdateProfile<Seq<char>> {
        UpdateProfile {
            display_name: self.display_name.deep_view(),
            bio: self.bio.deep_view(),
            image_url: self.image_url.deep_view(),
            is_private: self.is_private,
        }
    }
}

/// What a field of a request does to its column.
pub open spec fn patch(value: Option<Seq<char>>) -> Option<Option<Seq<char>>> {
    match value {
        Some(s) => if text::is_blank(s) {
            Some(None)
        } else {
            Some(Some(text::trimmed(s)))
        },
        None => None,
    }
}

/// A column after a patch.
pub open spec fn patched<T>(current: Option<T>, patch: Option<Option<T>>) -> Option<T> {
    match patch {
        Some(value) => value,
        None => current,
    }
}

/// Maps "field present" to the patch semantics: empty or white space clears
/// the column, anything else sets the trimmed value.
pub fn patch_field(value: &Option<String>) -> (res: Option<Option<&str>>)
    ensures
        res.deep_view() == patch(value.deep_view()),
{
    match value {
        Some(s) => {
            proof {
                text::law_trimmed_empty_iff_blank(s@);
            }
            let trimmed = s.as_str().trim();
            if trimmed.is_empty() {
                Some(None)
            } else {
                Some(Some(trimmed))
            }
        },
        None => None,
    }
}

fn owned_patch(value: &Option<String>) -> (res: Option<Option<String>>)
    ensures
        res.deep_view() == patch(value.deep_view()),
{
    match patch_field(value) {
        Some(Some(s)) => Some(Some(s.to_owned())),
        Some(None) => Some(None),
        None => None,
    }
}

/// The prefix of the addresses that uploaded images are served from.
pub open spec fn uploads_prefix(public_base_url: Seq<char>) -> Seq<char> {
    public_base_url + "/uploads/"@
}

/// What is wrong with an avatar address. Only the avatar upload may set an
/// address under `/uploads/`, and it always points at a file that user just
/// created: else a user could aim it at someone else's uploaded file, which
/// their next avatar upload's cleanup would delete.
pub open spec fn image_url_fault(public_base_url: Seq<char>, url: Seq<char>) -> Option<Seq<char>> {
    let url = text::trimmed(url);
    if url.len() == 0 {
        None
    } else if !text::occurs_at(url, "https://"@, 0) && !text::occurs_at(url, "http://"@, 0) {
        Some("image_url must be an http(s) URL"@)
    } else if text::occurs_at(url, uploads_prefix(public_base_url), 0) {
        Some("image_url cannot reference an uploaded file; use the avatar upload endpoint"@)
    } else {
        None
    }
}

/// What is wrong with a settings request; the first fault counts.
pub open spec fn settings_fault(
    public_base_url: Seq<char>,
    body: UpdateSettingsRequest<Seq<char>>,
) -> Option<Seq<char>> {
    if body.display_name matches Some(name) && text::trimmed(name).len() > MAX_DISPLAY_NAME_CHARS {
        Some("display name must be at most 100 characters"@)
    } else if body.bio matches Some(bio) && text::trimmed(bio).len() > MAX_BIO_CHARS {
        Some("bio must be at most 1000 characters"@)
    } else {
        match body.image_url {
            Some(url) => image_url_fault(public_base_url, url),
            None => None,
        }
    }
}

/// The changes that a settings request asks for, or why they are refused.
pub open spec fn settings_update(
    public_base_url: Seq<char>,
    body: UpdateSettingsRequest<Seq<char>>,
) -> Result<UpdateProfile<Seq<char>>, AppError<Seq<char>>> {
    match settings_fault(public_base_url, body) {
        Some(fault) => Err(AppError::BadRequest(fault)),
        None => Ok(
            UpdateProfile {
                display_name: patch(body.display_name),
                bio: patch(body.bio),
                image_url: patch(body.image_url),
                is_private: body.is_private,
            },
        ),
    }
}

fn longer_than(value: &Option<String>, max: usize) -> (res: bool)
    ensures
        res == (value matches Some(s) && text::trimmed(s@).len() > max),
{
    match value {
        Some(s) => s.as_str().trim().unicode_len() > max,
        None => false,
    }
}

fn bad_image_url(public_base_url: &str, url: &str) -> (res: Option<AppError>)
    ensures
        res.deep_view() == (match image_url_fault(public_base_url@, url@) {
            Some(fault) => Some(AppError::BadRequest(fault)),
            None => None,
        }),
{
    let url = url.trim();
    if url.is_empty() {
        return None;
    }
    if !text::starts_with(url, "https://") && !text::starts_with(url, "http://") {
        return Some(AppError::BadRequest("image_url must be an http(s) URL".to_owned()));
    }
    let uploads_prefix = text::join2(public_base_url, "/uploads/");
    if text::starts_with(url, uploads_prefix.as_str()) {
        return Some(
            AppError::BadRequest(
                "image_url cannot reference an uploaded file; use the avatar upload endpoint".to_owned(),
            ),
        );
    }
    None
}

/// `PATCH /v1/user/me`: the changes to the profile of the authenticated user.
pub fn update_settings(public_base_url: &str, body: &UpdateSettingsRequest) -> (res: Result<
    UpdateProfile,
    AppError,
>)
    ensures
        text::result_view(res) == settings_update(public_base_url@, body.deep_view()),
{
    if longer_than(&body.display_name, MAX_DISPLAY_NAME_CHARS) {
        return Err(
            AppError::BadRequest("display name must be at most 100 characters".to_owned()),
        );
    }
    if longer_than(&body.bio, MAX_BIO_CHARS) {
        return Err(AppError::BadRequest("bio must be at most 1000 characters".to_owned()));
    }
    if let Some(url) = &body.image_url {
        if let Some(error) = bad_image_url(public_base_url, url.as_str()) {
            return Err(error);
        }
    }
    Ok(
        UpdateProfile {
            display_name: owned_patch(&body.display_name),
            bio: owned_patch(&body.bio),
            image_url: owned_patch(&body.image_url),
            is_private: body.is_private,
        },
    )
}

fn apply_patch<T>(current: Option<T>, patch: Option<Option<T>>) -> (res: Option<T>)
    ensures
        res == patched(current, patch),
{
    match patch {
        Some(value) => value,
        None => current,
    }
}

/// Applies changes to a profile.
pub fn apply_profile_update(user: User, update: UpdateProfile) -> (res: User)
    ensures
        res == (User {
            display_name: patched(user.display_name, update.display_name),
            bio: patched(user.bio, update.bio),
            image_url: patched(user.image_url, update.image_url),
            is_private: match update.is_private {
                Some(is_private) => is_private,
                None => user.is_private,
            },
            ..user
        }),
{
    let mut user = user;
    user.display_name = apply_patch(user.display_name, update.display_name);
    user.bio = apply_patch(user.bio, update.bio);
    user.image_url = apply_patch(user.image_url, update.image_url);
    if let Some(is_private) = update.is_private {
        user.is_private = is_private;
    }
    user
}

/// `POST /v1/user/me/avatar`: what a stored upload changes of the profile, its
/// picture and nothing else.
pub fn upload_avatar(url: String) -> (res: UpdateProfile)
    ensures
        res.deep_view() == (UpdateProfile::<Seq<char>> {
            display_name: None,
            bio: None,
            image_url: Some(Some(url@)),
            is_private: None,
        }),
{
    UpdateProfile { display_name: None, bio: None, image_url: Some(Some(url)), is_private: None }
}

/// Omitted fields are unchanged, a blank one clears the field, and any other
/// sets it to the trimmed value.
pub proof fn law_patch_semantics(current: Option<Seq<char>>, value: Seq<char>)
    ensures
        patched(current, patch(None)) == current,
        text::is_blank(value) ==> patched(current, patch(Some(value))) is None,
        !text::is_blank(value) ==> patched(current, patch(Some(value))) == Some(
            text::trimmed(value),
        ),
{
}

/// Settings never make an avatar point below the uploads, so replacing an
/// avatar that was set that way removes no file.
pub proof fn law_settings_never_reference_uploads(
    public_base_url: Seq<char>,
    body: UpdateSettingsRequest<Seq<char>>,
)
    ensures
        settings_update(public_base_url, body) matches Ok(update) ==> (update.image_url matches Some(
            Some(url),
        ) ==> !text::occurs_at(url, uploads_prefix(public_base_url), 0)
            && crate::uploads::owned_file(public_base_url, url) is None),
{
    if let Some(url) = body.image_url {
        text::law_trimmed_empty_iff_blank(url);
    }
    assert(uploads_prefix(public_base_url) =~= crate::uploads::file_url(public_base_url, Seq::empty()));
}

// ---------------------------------------------------------------------------
// Following
// ---------------------------------------------------------------------------

/// Whom a request to follow or unfollow is about.
pub open spec fn follow_target(
    user_id: i64,
    target: Option<i64>,
    fault: Seq<char>,
) -> Result<i64, AppError<Seq<char>>> {
    match target {
        Some(id) => if id == user_id {
            Err(AppError::BadRequest(fault))
        } else {
            Ok(id)
        },
        None => Err(AppError::NotFound),
    }
}

/// `POST /v1/user/{username}/follow`: whom to follow. `target` is the user of
/// that name.
pub fn follow(user_id: i64, target: Option<i64>) -> (res: Result<i64, AppError>)
    ensures
        text::result_view(res) == follow_target(user_id, target, "cannot follow yourself"@),
{
    match target {
        Some(id) => if id == user_id {
            Err(AppError::BadRequest("cannot follow yourself".to_owned()))
        } else {
            Ok(id)
        },
        None => Err(AppError::NotFound),
    }
}

/// `DELETE /v1/user/{username}/follow`: whom to follow no longer.
pub fn unfollow(user_id: i64, target: Option<i64>) -> (res: Result<i64, AppError>)
    ensures
        text::result_view(res) == follow_target(user_id, target, "cannot unfollow yourself"@),
{
    match target {
        Some(id) => if id == user_id {
            Err(AppError::BadRequest("cannot unfollow yourself".to_owned()))
        } else {
            Ok(id)
        },
        None => Err(AppError::NotFound),
    }
}

/// Nobody follows themselves.
pub proof fn law_nobody_follows_themselves(
    user_id: i64,
    target: Option<i64>,
    fault: Seq<char>,
)
    ensures
        follow_target(user_id, target, fault) matches Ok(id) ==> id != user_id,
{
}

// ---------------------------------------------------------------------------
// Laws
// ---------------------------------------------------------------------------

/// Data that may be shown is that of the user who was asked for. Whether the
/// viewer follows that user comes with it where the viewer is somebody else, and
/// nothing where the viewer is that user, or nobody.
pub proof fn law_open_profiles_tell_the_relationship(
    viewer_id: Option<i64>,
    owner: ProfileOwner,
    follows: bool,
)
    ensures
        gate_outcome(viewer_id, owner, follows) matches GateStep::Open { owner: shown, is_following }
            ==> {
            &&& shown == owner
            &&& viewer_id is None || viewer_id == Some(owner.id) ==> is_following is None
            &&& viewer_id is Some && viewer_id != Some(owner.id) ==> is_following == Some(follows)
        },
{
}

/// The follow relationship that is looked up is that of the viewer to the user,
/// and it is looked up exactly where the two are different users.
pub proof fn law_the_right_relationship_is_asked_for(
    username: Seq<char>,
    viewer_id: Option<i64>,
    owner: ProfileOwner,
)
    ensures
        ({
            let step = gate_next(
                viewer_id,
                GateStep::FindUser { username },
                GateReply::User(Ok(Some(owner))),
            );
            match viewer_id {
                Some(viewer) => if viewer == owner.id {
                    step == (GateStep::<Seq<char>>::Open { owner, is_following: None })
                } else {
                    step == (GateStep::<Seq<char>>::AskFollowing { viewer_id: viewer, owner })
                },
                None => if owner.is_private {
                    step == (GateStep::<Seq<char>>::Closed { error: AppError::Forbidden })
                } else {
                    step == (GateStep::<Seq<char>>::Open { owner, is_following: None })
                },
            }
        }),
{
}

/// The data of a user whom nobody knows is not found; a failure of the database
/// shows nothing.
pub proof fn law_unknown_users_are_not_found(
    username: Seq<char>,
    viewer_id: Option<i64>,
    asked: i64,
    owner: ProfileOwner,
    error: Seq<char>,
)
    ensures
        gate_next(viewer_id, GateStep::FindUser { username }, GateReply::User(Ok(None))) == (
        GateStep::<Seq<char>>::Closed { error: AppError::NotFound }),
        gate_next(viewer_id, GateStep::FindUser { username }, GateReply::User(Err(error))) == (
        GateStep::<Seq<char>>::Closed { error: AppError::Database(error) }),
        gate_next(
            viewer_id,
            GateStep::AskFollowing { viewer_id: asked, owner },
            GateReply::Following(Err(error)),
        ) == (GateStep::<Seq<char>>::Closed { error: AppError::Database(error) }),
{
}

/// A settings request that is in order changes what it names and nothing else:
/// each text to its trimmed value, or to nothing where it is blank, and the
/// privacy to what it says.
pub proof fn law_settings_change_what_they_name(
    public_base_url: Seq<char>,
    body: UpdateSettingsRequest<Seq<char>>,
)
    ensures
        settings_update(public_base_url, body) matches Ok(update) ==> {
            &&& update.is_private == body.is_private
            &&& body.display_name is None ==> update.display_name is None
            &&& body.display_name matches Some(name) ==> update.display_name == Some(
                if text::trimmed(name).len() == 0 {
                    None
                } else {
                    Some(text::trimmed(name))
                },
            )
            &&& body.bio is None ==> update.bio is None
            &&& body.bio matches Some(bio) ==> update.bio == Some(
                if text::trimmed(bio).len() == 0 {
                    None
                } else {
                    Some(text::trimmed(bio))
                },
            )
            &&& body.image_url is None ==> update.image_url is None
            &&& body.image_url matches Some(url) ==> update.image_url == Some(
                if text::trimmed(url).len() == 0 {
                    None
                } else {
                    Some(text::trimmed(url))
                },
            )
        },
{
    if let Some(name) = body.display_name {
        text::law_trimmed_empty_iff_blank(name);
    }
    if let Some(bio) = body.bio {
        text::law_trimmed_empty_iff_blank(bio);
    }
    if let Some(url) = body.image_url {
        text::law_trimmed_empty_iff_blank(url);
    }
}

/// A settings request is refused exactly when its display name is longer than 100
/// characters, its bio longer than 1000, or its picture is neither blank nor an
/// http address outside our uploads; the first of these is told.
pub proof fn law_settings_faults(
    public_base_url: Seq<char>,
    body: UpdateSettingsRequest<Seq<char>>,
)
    ensures
        ({
            let refused = |fault: Seq<char>|
                settings_update(public_base_url, body) == Err::<
                    UpdateProfile<Seq<char>>,
                    AppError<Seq<char>>,
                >(AppError::BadRequest(fault));
            let long_name = body.display_name matches Some(name) && text::trimmed(name).len() > 100;
            let long_bio = body.bio matches Some(bio) && text::trimmed(bio).len() > 1000;
            &&& long_name ==> refused("display name must be at most 100 characters"@)
            &&& !long_name && long_bio ==> refused("bio must be at most 1000 characters"@)
            &&& !long_name && !long_bio ==> match body.image_url {
                None => settings_update(public_base_url, body) is Ok,
                Some(given) => {
                    let url = text::trimmed(given);
                    let http = text::occurs_at(url, "https://"@, 0) || text::occurs_at(
                        url,
                        "http://"@,
                        0,
                    );
                    let ours = text::occurs_at(url, public_base_url + "/uploads/"@, 0);
                    &&& url.len() == 0 ==> settings_update(public_base_url, body) is Ok
                    &&& url.len() > 0 && !http ==> refused("image_url must be an http(s) URL"@)
                    &&& url.len() > 0 && http && ours ==> refused(
                        "image_url cannot reference an uploaded file; use the avatar upload endpoint"@,
                    )
                    &&& url.len() > 0 && http && !ours ==> settings_update(
                        public_base_url,
                        body,
                    ) is Ok
                },
            }
        }),
{
}

/// A request to follow is about the user of the given name; there has to be one,
/// and it has to be somebody else.
pub proof fn law_follow_targets(user_id: i64, id: i64, fault: Seq<char>)
    ensures
        follow_target(user_id, None, fault) == Err::<i64, AppError<Seq<char>>>(AppError::NotFound),
        follow_target(user_id, Some(user_id), fault) == Err::<i64, AppError<Seq<char>>>(
            AppError::BadRequest(fault),
        ),
        id != user_id ==> follow_target(user_id, Some(id), fault) == Ok::<
            i64,
            AppError<Seq<char>>,
        >(id),
{
}

/// A profile is answered with the public part of its user, and with whether the
/// viewer follows them. One's own has no such thing to say.
pub proof fn law_profile_responses(
    user: User,
    is_following: Option<bool>,
    res: ProfileResponse,
    own: Result<ProfileResponse, AppError>,
    gone: Result<ProfileResponse, AppError>,
)
    requires
        call_ensures(get_profile, (user, is_following), res),
        call_ensures(get_own_profile, (Some(user),), own),
        call_ensures(get_own_profile, (None::<User>,), gone),
    ensures
        res.profile == crate::models::profile_of(user),
        res.is_following == is_following,
        own matches Ok(response) && response.profile == crate::models::profile_of(user)
            && response.is_following is None,
        gone == Err::<ProfileResponse, AppError>(AppError::NotFound),
{
}

/// Friends are answered with the public part of each follower among the followers,
/// and of each user who is followed among those, in their order.
pub proof fn law_friends(followers: Vec<User>, following: Vec<User>, res: FriendsResponse)
    requires
        call_ensures(get_friends, (followers, following), res),
    ensures
        res.followers@.len() == followers@.len(),
        forall|i: int|
            0 <= i < followers@.len() ==> #[trigger] res.followers@[i] == crate::models::profile_of(
                followers@[i],
            ),
        res.following@.len() == following@.len(),
        forall|i: int|
            0 <= i < following@.len() ==> #[trigger] res.following@[i] == crate::models::profile_of(
                following@[i],
            ),
{
}

/// A change to a profile sets the fields that it names, clears those that it names
/// as empty, and leaves everything else of the user as it was.
pub proof fn law_profile_changes(user: User, update: UpdateProfile, res: User)
    requires
        call_ensures(apply_profile_update, (user, update), res),
    ensures
        update.display_name is None ==> res.display_name == user.display_name,
        update.display_name matches Some(value) ==> res.display_name == value,
        update.bio is None ==> res.bio == user.bio,
        update.bio matches Some(value) ==> res.bio == value,
        update.image_url is None ==> res.image_url == user.image_url,
        update.image_url matches Some(value) ==> res.image_url == value,
        update.is_private is None ==> res.is_private == user.is_private,
        update.is_private matches Some(value) ==> res.is_private == value,
        res == (User {
            display_name: res.display_name,
            bio: res.bio,
            image_url: res.image_url,
            is_private: res.is_private,
            ..user
        }),
{
}

/// An uploaded avatar becomes the picture of the profile, and changes nothing else
/// of it.
pub proof fn law_avatars(url: String, update: UpdateProfile, user: User, res: User)
    requires
        call_ensures(upload_avatar, (url,), update),
        call_ensures(apply_profile_update, (user, update), res),
    ensures
        res.image_url matches Some(shown) && shown@ == url@,
        res == (User { image_url: res.image_url, ..user }),
{
    assert(update.deep_view().display_name is None);
    assert(update.deep_view().bio is None);
    assert(update.deep_view().image_url == Some(Some(url@)));
}

/// Whom a request follows or follows no longer: the user of the given name, who has
/// to be there and somebody else.
pub proof fn law_following(
    user_id: i64,
    target: Option<i64>,
    followed: Result<i64, AppError>,
    left: Result<i64, AppError>,
)
    requires
        call_ensures(follow, (user_id, target), followed),
        call_ensures(unfollow, (user_id, target), left),
    ensures
        target is None ==> (followed matches Err(e) && e is NotFound),
        target is None ==> (left matches Err(e) && e is NotFound),
        target == Some(user_id) ==> (followed matches Err(e) && e.deep_view() == AppError::<
            Seq<char>,
        >::BadRequest("cannot follow yourself"@)),
        target == Some(user_id) ==> (left matches Err(e) && e.deep_view() == AppError::<
            Seq<char>,
        >::BadRequest("cannot unfollow yourself"@)),
        target matches Some(id) ==> (id != user_id ==> followed == Ok::<i64, AppError>(id) && left
            == Ok::<i64, AppError>(id)),
{
}

/// What a settings request asks for, in its own words: see [`update_settings`].
pub proof fn law_settings_requests(
    public_base_url: &str,
    body: &UpdateSettingsRequest,
    res: Result<UpdateProfile, AppError>,
)
    requires
        call_ensures(update_settings, (public_base_url, body), res),
    ensures
        res matches Ok(update) ==> {
            &&& update.is_private == body.is_private
            &&& body.display_name is None ==> update.display_name is None
            &&& body.display_name matches Some(name) ==> (update.display_name matches Some(value)
                && match value {
                Some(kept) => kept@ == text::trimmed(name@) && kept@.len() > 0,
                None => text::trimmed(name@).len() == 0,
            })
            &&& body.bio is None ==> update.bio is None
            &&& body.bio matches Some(bio) ==> (update.bio matches Some(value) && match value {
                Some(kept) => kept@ == text::trimmed(bio@) && kept@.len() > 0,
                None => text::trimmed(bio@).len() == 0,
            })
            &&& body.image_url is None ==> update.image_url is None
            &&& body.image_url matches Some(url) ==> (update.image_url matches Some(value)
                && match value {
                Some(kept) => kept@ == text::trimmed(url@) && kept@.len() > 0,
                None => text::trimmed(url@).len() == 0,
            })
        },
        body.display_name matches Some(name) ==> (text::trimmed(name@).len() > 100 ==> res is Err),
        body.bio matches Some(bio) ==> (text::trimmed(bio@).len() > 1000 ==> res is Err),
        body.display_name is None && body.bio is None && body.image_url is None ==> res is Ok,
{
    law_settings_change_what_they_name(public_base_url@, body.deep_view());
    if let Ok(update) = res {
        assert(settings_update(public_base_url@, body.deep_view()) == Ok::<
            UpdateProfile<Seq<char>>,
            AppError<Seq<char>>,
        >(update.deep_view()));
    }
}

} // verus!
