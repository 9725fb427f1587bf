//! Accounts: registration and login.

use crate::errors::AppError;
use crate::ids::Uuid;
use crate::text;
use vstd::prelude::*;
use vstd::string::*;

verus! {

// ---------------------------------------------------------------------------
// Registration
// ---------------------------------------------------------------------------

/// Shortest username, in characters.
pub const MIN_USERNAME_CHARS: usize = 2;

/// Shortest password, in characters.
pub const MIN_PASSWORD_CHARS: usize = 8;

#[derive(Debug, PartialEq, Eq)]
pub struct RegisterRequest<S = String> {
    pub username: S,
    pub email: S,
    pub password: S,
    pub display_name: Option<S>,
}

impl DeepView for RegisterRequest {
    type V = RegisterRequest<Seq<char>>;

    open spec fn deep_view(&self) -> RegisterRequest<Seq<char>> {
        RegisterRequest {
            username: self.username@,
            email: self.email@,
            password: self.password@,
            display_name: self.display_name.deep_view(),
        }
    }
}

#[derive(Debug, PartialEq, Eq)]
pub struct AuthResponse<S = String> {
    pub token: Uuid,
    pub user_id: i64,
    pub username: S,
}

impl DeepView for AuthResponse {
    type V = AuthResponse<Seq<char>>;

    open spec fn deep_view(&self) -> AuthResponse<Seq<char>> {
        AuthResponse { token: self.token, user_id: self.user_id, username: self.username@ }
    }
}

/// Usernames that cannot be registered (such as "me", for /user/me).
pub open spec fn is_reserved(username: Seq<char>) -> bool {
    let name = text::lowercase(username);
    name == "me"@ || name == "settings"@ || name == "admin"@ || name == "api"@
}

/// Whether a username cannot be registered.
fn reserved(username: &str) -> (res: bool)
    ensures
        res == is_reserved(username@),
{
    let name = username.to_lowercase();
    let name = name.as_str();
    name.eq("me") || name.eq("settings") || name.eq("admin") || name.eq("api")
}

/// What is wrong with a registration, as far as it can be told without the
/// database. The username counts without the white space around it.
pub open spec fn registration_fault(body: RegisterRequest<Seq<char>>) -> Option<Seq<char>> {
    if text::trimmed(body.username).len() < MIN_USERNAME_CHARS {
        Some("username must be at least 2 characters"@)
    } else if is_reserved(text::trimmed(body.username)) {
        Some("username is reserved"@)
    } else if body.password.len() < MIN_PASSWORD_CHARS {
        Some("password must be at least 8 characters"@)
    } else {
        None
    }
}

/// A user row to be created.
#[derive(Debug, PartialEq, Eq)]
pub struct CreateUser<S = String> {
    pub username: S,
    pub email: S,
    pub password_hash: S,
    pub display_name: Option<S>,
}

impl DeepView for CreateUser {
    type V = CreateUser<Seq<char>>;

    open spec fn deep_view(&self) -> CreateUser<Seq<char>> {
        CreateUser {
            username: self.username@,
            email: self.email@,
            password_hash: self.password_hash@,
            display_name: self.display_name.deep_view(),
        }
    }
}

/// Where a registration stands.
#[derive(Debug, PartialEq, Eq)]
#[allow(inconsistent_fields)]
pub enum RegisterStep<S = String> {
    /// Is the username taken?
    FindUsername { username: S },
    /// Is the email taken?
    FindEmail { username: S, email: S },
    /// Hash the password.
    Hash { username: S, password: S },
    /// Create the user.
    Create { user: CreateUser<S> },
    /// Create a session.
    Session { user_id: i64, username: S },
    /// The response (201), or why not.
    Done { result: Result<AuthResponse<S>, AppError<S>> },
}

#[derive(Debug, PartialEq, Eq)]
pub enum RegisterReply<S = String> {
    /// Whether a user has the name.
    Username(Result<bool, S>),
    /// Whether a user has the email.
    Email(Result<bool, S>),
    Hashed(Result<S, S>),
    /// The id and name of the new user; or the database constraint that was
    /// broken, if any, and what the database said.
    Created(Result<(i64, S), (Option<S>, S)>),
    Session(Result<Uuid, S>),
}

impl DeepView for RegisterStep {
    type V = RegisterStep<Seq<char>>;

    open spec fn deep_view(&self) -> RegisterStep<Seq<char>> {
        match *self {
            RegisterStep::FindUsername { username } => RegisterStep::FindUsername {
                username: username@,
            },
            RegisterStep::FindEmail { username, email } => RegisterStep::FindEmail {
                username: username@,
                email: email@,
            },
            RegisterStep::Hash { username, password } => RegisterStep::Hash {
                username: username@,
                password: password@,
            },
            RegisterStep::Create { user } => RegisterStep::Create { user: user.deep_view() },
            RegisterStep::Session { user_id, username } => RegisterStep::Session {
                user_id,
                username: username@,
            },
            RegisterStep::Done { result } => RegisterStep::Done {
                result: text::result_view(result),
            },
        }
    }
}

impl DeepView for RegisterReply {
    type V = RegisterReply<Seq<char>>;

    open spec fn deep_view(&self) -> RegisterReply<Seq<char>> {
        match *self {
            RegisterReply::Username(r) => RegisterReply::Username(text::result_view(r)),
            RegisterReply::Email(r) => RegisterReply::Email(text::result_view(r)),
            RegisterReply::Hashed(r) => RegisterReply::Hashed(text::result_view(r)),
            RegisterReply::Created(r) => RegisterReply::Created(text::result_view(r)),
            RegisterReply::Session(r) => RegisterReply::Session(text::result_view(r)),
        }
    }
}

/// How a registration begins.
pub open spec fn register_begin(body: RegisterRequest<Seq<char>>) -> RegisterStep<Seq<char>> {
    match registration_fault(body) {
        Some(fault) => RegisterStep::Done { result: Err(AppError::BadRequest(fault)) },
        None => RegisterStep::FindUsername { username: text::trimmed(body.username) },
    }
}

/// The error for a user that could not be created. The checks made before race
/// with concurrent registrations; the unique constraints are the source of
/// truth, so breaking one means that the name or the email is taken.
pub open spec fn creation_error(constraint: Option<Seq<char>>, error: Seq<char>) -> AppError<
    Seq<char>,
> {
    if constraint == Some("users_username_key"@) {
        AppError::UsernameTaken
    } else if constraint == Some("users_email_key"@) {
        AppError::EmailTaken
    } else {
        AppError::Database(error)
    }
}

/// One step of a registration.
pub open spec fn register_next(
    body: RegisterRequest<Seq<char>>,
    step: RegisterStep<Seq<char>>,
    reply: RegisterReply<Seq<char>>,
) -> RegisterStep<Seq<char>> {
    match (step, reply) {
        (RegisterStep::FindUsername { username }, RegisterReply::Username(r)) => match r {
            Ok(true) => RegisterStep::Done { result: Err(AppError::UsernameTaken) },
            Ok(false) => RegisterStep::FindEmail { username, email: body.email },
            Err(error) => RegisterStep::Done { result: Err(AppError::Database(error)) },
        },
        (RegisterStep::FindEmail { username, .. }, RegisterReply::Email(r)) => match r {
            Ok(true) => RegisterStep::Done { result: Err(AppError::EmailTaken) },
            Ok(false) => RegisterStep::Hash { username, password: body.password },
            Err(error) => RegisterStep::Done { result: Err(AppError::Database(error)) },
        },
        (RegisterStep::Hash { username, .. }, RegisterReply::Hashed(r)) => match r {
            Ok(password_hash) => RegisterStep::Create {
                user: CreateUser {
                    username,
                    email: body.email,
                    password_hash,
                    display_name: body.display_name,
                },
            },
            Err(error) => RegisterStep::Done { result: Err(AppError::BadRequest(error)) },
        },
        (RegisterStep::Create { .. }, RegisterReply::Created(r)) => match r {
            Ok((user_id, username)) => RegisterStep::Session { user_id, username },
            Err((constraint, error)) => RegisterStep::Done {
                result: Err(creation_error(constraint, error)),
            },
        },
        (RegisterStep::Session { user_id, username }, RegisterReply::Session(r)) => match r {
            Ok(token) => RegisterStep::Done {
                result: Ok(AuthResponse { token, user_id, username }),
            },
            Err(error) => RegisterStep::Done { result: Err(AppError::Database(error)) },
        },
        _ => step,
    }
}

fn describe_creation_error(constraint: Option<String>, error: String) -> (res: AppError)
    ensures
        res.deep_view() == creation_error(constraint.deep_view(), error@),
{
    match constraint {
        Some(name) => if name.as_str().eq("users_username_key") {
            AppError::UsernameTaken
        } else if name.as_str().eq("users_email_key") {
            AppError::EmailTaken
        } else {
            AppError::Database(error)
        },
        None => AppError::Database(error),
    }
}

/// Begins to answer `POST /v1/auth/register`. [`advance_register`] carries it
/// on.
///
/// The username is trimmed once here and used so everywhere: a padded username
/// must never be stored (it becomes part of /user/{username} routes).
pub fn register(body: &RegisterRequest) -> (res: RegisterStep)
    ensures
        res.deep_view() == register_begin(body.deep_view()),
{
    let username = body.username.as_str().trim();
    if username.unicode_len() < MIN_USERNAME_CHARS {
        return RegisterStep::Done {
            result: Err(AppError::BadRequest("username must be at least 2 characters".to_owned())),
        };
    }
    if reserved(username) {
        return RegisterStep::Done {
            result: Err(AppError::BadRequest("username is reserved".to_owned())),
        };
    }
    if body.password.as_str().unicode_len() < MIN_PASSWORD_CHARS {
        return RegisterStep::Done {
            result: Err(AppError::BadRequest("password must be at least 8 characters".to_owned())),
        };
    }
    RegisterStep::FindUsername { username: username.to_owned() }
}

/// Takes the answer to the open question of a registration.
pub fn advance_register(body: &RegisterRequest, step: RegisterStep, reply: RegisterReply) -> (res:
    RegisterStep)
    ensures
        res.deep_view() == register_next(body.deep_view(), step.deep_view(), reply.deep_view()),
{
    match (step, reply) {
        (RegisterStep::FindUsername { username }, RegisterReply::Username(r)) => match r {
            Ok(true) => RegisterStep::Done { result: Err(AppError::UsernameTaken) },
            Ok(false) => RegisterStep::FindEmail { username, email: body.email.clone() },
            Err(error) => RegisterStep::Done { result: Err(AppError::Database(error)) },
        },
        (RegisterStep::FindEmail { username, .. }, RegisterReply::Email(r)) => match r {
            Ok(true) => RegisterStep::Done { result: Err(AppError::EmailTaken) },
            Ok(false) => RegisterStep::Hash { username, password: body.password.clone() },
            Err(error) => RegisterStep::Done { result: Err(AppError::Database(error)) },
        },
        (RegisterStep::Hash { username, .. }, RegisterReply::Hashed(r)) => match r {
            Ok(password_hash) => RegisterStep::Create {
                user: CreateUser {
                    username,
                    email: body.email.clone(),
                    password_hash,
                    display_name: body.display_name.clone(),
                },
            },
            Err(error) => RegisterStep::Done { result: Err(AppError::BadRequest(error)) },
        },
        (RegisterStep::Create { .. }, RegisterReply::Created(r)) => match r {
            Ok((user_id, username)) => RegisterStep::Session { user_id, username },
            Err((constraint, error)) => RegisterStep::Done {
                result: Err(describe_creation_error(constraint, error)),
            },
        },
        (RegisterStep::Session { user_id, username }, RegisterReply::Session(r)) => match r {
            Ok(token) => RegisterStep::Done {
                result: Ok(AuthResponse { token, user_id, username }),
            },
            Err(error) => RegisterStep::Done { result: Err(AppError::Database(error)) },
        },
        (step, _) => step,
    }
}

/// What would answer each question of a registration.
pub struct RegisterAnswers {
    pub username: Result<bool, Seq<char>>,
    pub email: Result<bool, Seq<char>>,
    pub hashed: Result<Seq<char>, Seq<char>>,
    pub created: Result<(i64, Seq<char>), (Option<Seq<char>>, Seq<char>)>,
    pub session: Result<Uuid, Seq<char>>,
}

/// What comes of a registration.
pub open spec fn register_outcome(body: RegisterRequest<Seq<char>>, a: RegisterAnswers) -> Result<
    AuthResponse<Seq<char>>,
    AppError<Seq<char>>,
> {
    match (registration_fault(body), a.username, a.email, a.hashed, a.created, a.session) {
        (Some(fault), _, _, _, _, _) => Err(AppError::BadRequest(fault)),
        (None, Err(error), _, _, _, _) => Err(AppError::Database(error)),
        (None, Ok(true), _, _, _, _) => Err(AppError::UsernameTaken),
        (None, Ok(false), Err(error), _, _, _) => Err(AppError::Database(error)),
        (None, Ok(false), Ok(true), _, _, _) => Err(AppError::EmailTaken),
        (None, Ok(false), Ok(false), Err(error), _, _) => Err(AppError::BadRequest(error)),
        (None, Ok(false), Ok(false), Ok(_), Err((constraint, error)), _) => Err(
            creation_error(constraint, error),
        ),
        (None, Ok(false), Ok(false), Ok(_), Ok(_), Err(error)) => Err(AppError::Database(error)),
        (None, Ok(false), Ok(false), Ok(_), Ok((user_id, username)), Ok(token)) => Ok(
            AuthResponse { token, user_id, username },
        ),
    }
}

/// The answer to the question that is open in `step`.
pub open spec fn register_reply(step: RegisterStep<Seq<char>>, a: RegisterAnswers) -> RegisterReply<
    Seq<char>,
> {
    match step {
        RegisterStep::FindUsername { .. } => RegisterReply::Username(a.username),
        RegisterStep::FindEmail { .. } => RegisterReply::Email(a.email),
        RegisterStep::Hash { .. } => RegisterReply::Hashed(a.hashed),
        RegisterStep::Create { .. } => RegisterReply::Created(a.created),
        _ => RegisterReply::Session(a.session),
    }
}

/// The state after `n` questions were answered.
pub open spec fn register_run(
    body: RegisterRequest<Seq<char>>,
    step: RegisterStep<Seq<char>>,
    a: RegisterAnswers,
    n: nat,
) -> RegisterStep<Seq<char>>
    decreases n,
{
    if n == 0 {
        step
    } else {
        register_run(body, register_next(body, step, register_reply(step, a)), a, (n - 1) as nat)
    }
}

proof fn lemma_register_settled(
    body: RegisterRequest<Seq<char>>,
    step: RegisterStep<Seq<char>>,
    a: RegisterAnswers,
    n: nat,
)
    requires
        step is Done,
    ensures
        register_run(body, step, a, n) == step,
    decreases n,
{
    if n > 0 {
        lemma_register_settled(body, step, a, (n - 1) as nat);
    }
}

/// Five answers bring every registration to the outcome that they determine.
pub proof fn law_registration(body: RegisterRequest<Seq<char>>, a: RegisterAnswers, n: nat)
    requires
        n >= 5,
    ensures
        register_run(body, register_begin(body), a, n) == (RegisterStep::<Seq<char>>::Done {
            result: register_outcome(body, a),
        }),
{
    reveal_with_fuel(register_run, 6);
    let s0 = register_begin(body);
    let s1 = register_next(body, s0, register_reply(s0, a));
    let s2 = register_next(body, s1, register_reply(s1, a));
    let s3 = register_next(body, s2, register_reply(s2, a));
    let s4 = register_next(body, s3, register_reply(s3, a));
    let s5 = register_next(body, s4, register_reply(s4, a));
    assert(s5 == (RegisterStep::<Seq<char>>::Done { result: register_outcome(body, a) }));
    lemma_register_settled(body, s5, a, (n - 5) as nat);
}

/// The name of every user that a registration creates is trimmed, at least two
/// characters long and not reserved.
pub open spec fn step_username_ok(step: RegisterStep<Seq<char>>) -> bool {
    match step {
        RegisterStep::FindUsername { username }
        | RegisterStep::FindEmail { username, .. }
        | RegisterStep::Hash { username, .. } => storable_username(username),
        RegisterStep::Create { user } => storable_username(user.username),
        _ => true,
    }
}

/// A username as it may be stored.
pub open spec fn storable_username(username: Seq<char>) -> bool {
    &&& text::trimmed(username) == username
    &&& username.len() >= MIN_USERNAME_CHARS
    &&& !is_reserved(username)
}

/// No padded, short or reserved username is ever stored: it holds of every
/// state of every registration.
pub proof fn law_stored_usernames(
    body: RegisterRequest<Seq<char>>,
    step: RegisterStep<Seq<char>>,
    reply: RegisterReply<Seq<char>>,
)
    ensures
        step_username_ok(register_begin(body)),
        step_username_ok(step) ==> step_username_ok(register_next(body, step, reply)),
{
    text::law_trimmed_idempotent(body.username);
}

/// The raw password goes into no row: what is stored is what the hash function
/// returned.
pub proof fn law_only_the_hash_is_stored(
    body: RegisterRequest<Seq<char>>,
    username: Seq<char>,
    password: Seq<char>,
    hash: Seq<char>,
)
    ensures
        register_next(
            body,
            RegisterStep::Hash { username, password },
            RegisterReply::Hashed(Ok(hash)),
        ) == (RegisterStep::<Seq<char>>::Create {
            user: CreateUser {
                username,
                email: body.email,
                password_hash: hash,
                display_name: body.display_name,
            },
        }),
{
}

/// What is asked in `step` is asked about the request: its trimmed username, its
/// email and its password.
pub open spec fn step_asks_about(
    body: RegisterRequest<Seq<char>>,
    step: RegisterStep<Seq<char>>,
) -> bool {
    let name = text::trimmed(body.username);
    match step {
        RegisterStep::FindUsername { username } => username == name,
        RegisterStep::FindEmail { username, email } => username == name && email == body.email,
        RegisterStep::Hash { username, password } => username == name && password
            == body.password,
        RegisterStep::Create { user } => user.username == name && user.email == body.email
            && user.display_name == body.display_name,
        _ => true,
    }
}

/// A registration looks up, hashes and stores what the request says, and nothing
/// else: it holds of every state of every registration.
pub proof fn law_registration_asks_about_the_request(
    body: RegisterRequest<Seq<char>>,
    step: RegisterStep<Seq<char>>,
    reply: RegisterReply<Seq<char>>,
)
    ensures
        step_asks_about(body, register_begin(body)),
        step_asks_about(body, step) ==> step_asks_about(body, register_next(body, step, reply)),
{
}

/// A registration is at fault exactly when its username, without the white space
/// around it, is shorter than two characters or reserved, or its password is
/// shorter than eight; the first of these is the one that is told.
pub proof fn law_registration_faults(body: RegisterRequest<Seq<char>>)
    ensures
        ({
            let username = text::trimmed(body.username);
            let lower = text::lowercase(username);
            let reserved = lower == "me"@ || lower == "settings"@ || lower == "admin"@ || lower
                == "api"@;
            &&& username.len() < 2 ==> registration_fault(body) == Some(
                "username must be at least 2 characters"@,
            )
            &&& username.len() >= 2 && reserved ==> registration_fault(body) == Some(
                "username is reserved"@,
            )
            &&& username.len() >= 2 && !reserved && body.password.len() < 8 ==> registration_fault(
                body,
            ) == Some("password must be at least 8 characters"@)
            &&& username.len() >= 2 && !reserved && body.password.len() >= 8 ==> registration_fault(
                body,
            ) is None
        }),
{
}

/// A registration yields a session exactly when the request is in order, neither
/// the name nor the email is taken, and hashing, storing and the session itself
/// come off. The session is that of the user who was stored.
pub proof fn law_registration_succeeds(body: RegisterRequest<Seq<char>>, a: RegisterAnswers)
    ensures
        register_outcome(body, a) is Ok <==> {
            &&& registration_fault(body) is None
            &&& a.username == Ok::<bool, Seq<char>>(false)
            &&& a.email == Ok::<bool, Seq<char>>(false)
            &&& a.hashed is Ok
            &&& a.created is Ok
            &&& a.session is Ok
        },
        register_outcome(body, a) matches Ok(response) ==> {
            &&& a.session == Ok::<Uuid, Seq<char>>(response.token)
            &&& a.created == Ok::<(i64, Seq<char>), (Option<Seq<char>>, Seq<char>)>(
                (response.user_id, response.username),
            )
        },
{
}

/// How a registration fails: a fault in the request is a bad request; a name or an
/// email that somebody has is a conflict, whether it was found beforehand or the
/// row broke a unique constraint; the rest are failures of the database.
pub proof fn law_registration_failures(
    body: RegisterRequest<Seq<char>>,
    a: RegisterAnswers,
    error: Seq<char>,
)
    ensures
        ({
            let refused = |e: AppError<Seq<char>>|
                register_outcome(body, a) == Err::<AuthResponse<Seq<char>>, AppError<Seq<char>>>(e);
            let free = a.username == Ok::<bool, Seq<char>>(false) && a.email == Ok::<
                bool,
                Seq<char>,
            >(false);
            &&& registration_fault(body) matches Some(fault) ==> refused(AppError::BadRequest(fault))
            &&& registration_fault(body) is None ==> {
                &&& a.username == Ok::<bool, Seq<char>>(true) ==> refused(AppError::UsernameTaken)
                &&& a.username == Err::<bool, Seq<char>>(error) ==> refused(
                    AppError::Database(error),
                )
                &&& a.username == Ok::<bool, Seq<char>>(false) && a.email == Ok::<bool, Seq<char>>(
                    true,
                ) ==> refused(AppError::EmailTaken)
                &&& a.username == Ok::<bool, Seq<char>>(false) && a.email == Err::<
                    bool,
                    Seq<char>,
                >(error) ==> refused(AppError::Database(error))
                &&& free && a.hashed == Err::<Seq<char>, Seq<char>>(error) ==> refused(
                    AppError::BadRequest(error),
                )
                &&& free && a.hashed is Ok && a.created is Err ==> refused(
                    creation_error(a.created->Err_0.0, a.created->Err_0.1),
                )
                &&& free && a.hashed is Ok && a.created is Ok && a.session == Err::<
                    Uuid,
                    Seq<char>,
                >(error) ==> refused(AppError::Database(error))
            }
        }),
        creation_error(Some("users_username_key"@), error) == AppError::<
            Seq<char>,
        >::UsernameTaken,
        creation_error(Some("users_email_key"@), error) == AppError::<Seq<char>>::EmailTaken,
        forall|constraint: Option<Seq<char>>|
            constraint != Some("users_username_key"@) && constraint != Some("users_email_key"@)
                ==> #[trigger] creation_error(constraint, error) == AppError::<
                Seq<char>,
            >::Database(error),
{
    reveal_strlit("users_username_key");
    reveal_strlit("users_email_key");
    assert("users_username_key"@.len() != "users_email_key"@.len());
}

/// A registration begins by asking whether the trimmed username is taken, unless
/// the request itself is at fault.
pub proof fn law_registrations_begin(body: &RegisterRequest, res: RegisterStep)
    requires
        call_ensures(register, (body,), res),
    ensures
        ({
            let username = text::trimmed(body.username@);
            match res {
                RegisterStep::FindUsername { username: asked } => asked@ == username
                    && username.len() >= 2 && body.password@.len() >= 8,
                RegisterStep::Done { result } => result matches Err(e) && e is BadRequest,
                _ => false,
            }
        }),
{
    law_registration_faults(body.deep_view());
    assert(res.deep_view() == register_begin(body.deep_view()));
}

// ---------------------------------------------------------------------------
// Login
// ---------------------------------------------------------------------------

#[derive(Debug, PartialEq, Eq)]
pub struct LoginRequest<S = String> {
    pub username: S,
    pub password: S,
}

impl DeepView for LoginRequest {
    type V = LoginRequest<Seq<char>>;

    open spec fn deep_view(&self) -> LoginRequest<Seq<char>> {
        LoginRequest { username: self.username@, password: self.password@ }
    }
}

/// What login reads of a user.
#[derive(Debug, PartialEq, Eq)]
pub struct LoginUser<S = String> {
    pub id: i64,
    pub username: S,
    pub password_hash: S,
}

impl DeepView for LoginUser {
    type V = LoginUser<Seq<char>>;

    open spec fn deep_view(&self) -> LoginUser<Seq<char>> {
        LoginUser {
            id: self.id,
            username: self.username@,
            password_hash: self.password_hash@,
        }
    }
}

/// Where a login stands.
#[derive(Debug, PartialEq, Eq)]
pub enum LoginStep<S = String> {
    /// Find the user by name.
    Find { username: S },
    /// Verify the password against the user's hash.
    Verify { user: LoginUser<S>, password: S },
    /// Create a session.
    Session { user: LoginUser<S> },
    /// The response (200), or why not.
    Done { result: Result<AuthResponse<S>, AppError<S>> },
}

#[derive(Debug, PartialEq, Eq)]
pub enum LoginReply<S = String> {
    Found(Result<Option<LoginUser<S>>, S>),
    /// Whether the password matches.
    Verified(bool),
    Session(Result<Uuid, S>),
}

impl DeepView for LoginStep {
    type V = LoginStep<Seq<char>>;

    open spec fn deep_view(&self) -> LoginStep<Seq<char>> {
        match *self {
            LoginStep::Find { username } => LoginStep::Find { username: username@ },
            LoginStep::Verify { user, password } => LoginStep::Verify {
                user: user.deep_view(),
                password: password@,
            },
            LoginStep::Session { user } => LoginStep::Session { user: user.deep_view() },
            LoginStep::Done { result } => LoginStep::Done { result: text::result_view(result) },
        }
    }
}

impl DeepView for LoginReply {
    type V = LoginReply<Seq<char>>;

    open spec fn deep_view(&self) -> LoginReply<Seq<char>> {
        match *self {
            LoginReply::Found(r) => LoginReply::Found(text::result_view(r)),
            LoginReply::Verified(ok) => LoginReply::Verified(ok),
            LoginReply::Session(r) => LoginReply::Session(text::result_view(r)),
        }
    }
}

/// How a login begins.
pub open spec fn login_begin(body: LoginRequest<Seq<char>>) -> LoginStep<Seq<char>> {
    LoginStep::Find { username: body.username }
}

/// One step of a login.
pub open spec fn login_next(
    body: LoginRequest<Seq<char>>,
    step: LoginStep<Seq<char>>,
    reply: LoginReply<Seq<char>>,
) -> LoginStep<Seq<char>> {
    match (step, reply) {
        (LoginStep::Find { .. }, LoginReply::Found(r)) => match r {
            Ok(Some(user)) => LoginStep::Verify { user, password: body.password },
            Ok(None) => LoginStep::Done { result: Err(AppError::InvalidCredentials) },
            Err(error) => LoginStep::Done { result: Err(AppError::Database(error)) },
        },
        (LoginStep::Verify { user, .. }, LoginReply::Verified(ok)) => if ok {
            LoginStep::Session { user }
        } else {
            LoginStep::Done { result: Err(AppError::InvalidCredentials) }
        },
        (LoginStep::Session { user }, LoginReply::Session(r)) => match r {
            Ok(token) => LoginStep::Done {
                result: Ok(AuthResponse { token, user_id: user.id, username: user.username }),
            },
            Err(error) => LoginStep::Done { result: Err(AppError::Database(error)) },
        },
        _ => step,
    }
}

/// Begins to answer `POST /v1/auth/login`. [`advance_login`] carries it on.
pub fn login(body: &LoginRequest) -> (res: LoginStep)
    ensures
        res.deep_view() == login_begin(body.deep_view()),
{
    LoginStep::Find { username: body.username.clone() }
}

/// Takes the answer to the open question of a login.
pub fn advance_login(body: &LoginRequest, step: LoginStep, reply: LoginReply) -> (res: LoginStep)
    ensures
        res.deep_view() == login_next(body.deep_view(), step.deep_view(), reply.deep_view()),
{
    match (step, reply) {
        (LoginStep::Find { .. }, LoginReply::Found(r)) => match r {
            Ok(Some(user)) => LoginStep::Verify { user, password: body.password.clone() },
            Ok(None) => LoginStep::Done { result: Err(AppError::InvalidCredentials) },
            Err(error) => LoginStep::Done { result: Err(AppError::Database(error)) },
        },
        (LoginStep::Verify { user, .. }, LoginReply::Verified(ok)) => if ok {
            LoginStep::Session { user }
        } else {
            LoginStep::Done { result: Err(AppError::InvalidCredentials) }
        },
        (LoginStep::Session { user }, LoginReply::Session(r)) => match r {
            Ok(token) => LoginStep::Done {
                result: Ok(AuthResponse { token, user_id: user.id, username: user.username }),
            },
            Err(error) => LoginStep::Done { result: Err(AppError::Database(error)) },
        },
        (step, _) => step,
    }
}

/// A login looks up the name that was given, and has the password that was given
/// verified against the hash of the user who was found.
pub proof fn law_login_verifies_what_was_given(
    body: LoginRequest<Seq<char>>,
    user: LoginUser<Seq<char>>,
)
    ensures
        login_begin(body) == (LoginStep::<Seq<char>>::Find { username: body.username }),
        login_next(body, login_begin(body), LoginReply::Found(Ok(Some(user)))) == (LoginStep::<
            Seq<char>,
        >::Verify { user, password: body.password }),
{
}

/// The session that a login yields belongs to the user whose password was
/// verified, and there is none without that.
pub proof fn law_login_needs_the_password(
    body: LoginRequest<Seq<char>>,
    found: Result<Option<LoginUser<Seq<char>>>, Seq<char>>,
    ok: bool,
    session: Result<Uuid, Seq<char>>,
)
    ensures
        ({
            let s1 = login_next(body, login_begin(body), LoginReply::Found(found));
            let s2 = login_next(body, s1, LoginReply::Verified(ok));
            let s3 = login_next(body, s2, LoginReply::Session(session));
            s3 matches LoginStep::Done { result } && (result matches Ok(response) <==> (
            found matches Ok(Some(user)) && ok && session is Ok)) && (result matches Ok(response)
                ==> found->Ok_0->0.id == response.user_id && session == Ok::<Uuid, Seq<char>>(
                response.token,
            ))
        }),
{
}

/// An unknown user and a wrong password are told apart by nothing in the
/// answer.
pub proof fn law_login_failures_look_alike(
    body: LoginRequest<Seq<char>>,
    user: LoginUser<Seq<char>>,
)
    ensures
        login_next(body, login_begin(body), LoginReply::Found(Ok(None))) == login_next(
            body,
            LoginStep::Verify { user, password: body.password },
            LoginReply::Verified(false),
        ),
{
}

/// How a login ends: with a session for the user who was found, under that user's
/// own name; for an unknown name or a wrong password with the word that the
/// credentials are invalid; and where the database fails, with that.
pub proof fn law_login_outcomes(
    body: LoginRequest<Seq<char>>,
    user: LoginUser<Seq<char>>,
    password: Seq<char>,
    token: Uuid,
    error: Seq<char>,
)
    ensures
        login_next(
            body,
            LoginStep::Session { user },
            LoginReply::Session(Ok(token)),
        ) == (LoginStep::<Seq<char>>::Done {
            result: Ok(AuthResponse { token, user_id: user.id, username: user.username }),
        }),
        login_next(
            body,
            LoginStep::Verify { user, password },
            LoginReply::Verified(true),
        ) == (LoginStep::<Seq<char>>::Session { user }),
        login_next(
            body,
            LoginStep::Verify { user, password },
            LoginReply::Verified(false),
        ) == (LoginStep::<Seq<char>>::Done { result: Err(AppError::InvalidCredentials) }),
        login_next(body, login_begin(body), LoginReply::Found(Ok(None))) == (LoginStep::<
            Seq<char>,
        >::Done { result: Err(AppError::InvalidCredentials) }),
        login_next(body, login_begin(body), LoginReply::Found(Err(error))) == (LoginStep::<
            Seq<char>,
        >::Done { result: Err(AppError::Database(error)) }),
        login_next(
            body,
            LoginStep::Session { user },
            LoginReply::Session(Err(error)),
        ) == (LoginStep::<Seq<char>>::Done { result: Err(AppError::Database(error)) }),
{
}

/// A login begins by looking up the name that was given, and a user who was found
/// has the given password verified against their own hash.
pub proof fn law_logins_begin(
    body: &LoginRequest,
    first: LoginStep,
    user: LoginUser,
    second: LoginStep,
)
    requires
        call_ensures(login, (body,), first),
        call_ensures(
            advance_login,
            (body, first, LoginReply::Found(Ok::<Option<LoginUser>, String>(Some(user)))),
            second,
        ),
    ensures
        first matches LoginStep::Find { username } && username@ == body.username@,
        second matches LoginStep::Verify { user: found, password } && {
            &&& found.id == user.id
            &&& found.username@ == user.username@
            &&& found.password_hash@ == user.password_hash@
            &&& password@ == body.password@
        },
{
    assert(first.deep_view() == login_begin(body.deep_view()));
    let reply = LoginReply::Found(Ok::<Option<LoginUser>, String>(Some(user)));
    assert(reply.deep_view() == LoginReply::<Seq<char>>::Found(Ok(Some(user.deep_view()))));
    assert(second.deep_view() == (LoginStep::<Seq<char>>::Verify {
        user: user.deep_view(),
        password: body.password@,
    }));
}

} // verus!
