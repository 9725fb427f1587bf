//! The errors of the HTTP API and the responses they turn into.

use crate::text;
use vstd::prelude::*;
use vstd::string::*;

verus! {

#[derive(Debug, Clone, PartialEq, Eq)]
pub enum AppError<S = String> {
    Unauthorized,
    InvalidCredentials,
    Forbidden,
    BadRequest(S),
    ScrobbleInvalid(S),
    NotFound,
    UsernameTaken,
    EmailTaken,
    RateLimited,
    /// A database failure; the text says which.
    Database(S),
    /// A Redis failure; the text says which.
    Redis(S),
    /// Any other failure inside the service; the text says which.
    Internal(S),
}

pub type ApiResult<T> = Result<T, AppError>;

impl DeepView for AppError {
    type V = AppError<Seq<char>>;

    open spec fn deep_view(&self) -> AppError<Seq<char>> {
        match *self {
            AppError::Unauthorized => AppError::Unauthorized,
            AppError::InvalidCredentials => AppError::InvalidCredentials,
            AppError::Forbidden => AppError::Forbidden,
            AppError::BadRequest(s) => AppError::BadRequest(s@),
            AppError::ScrobbleInvalid(s) => AppError::ScrobbleInvalid(s@),
            AppError::NotFound => AppError::NotFound,
            AppError::UsernameTaken => AppError::UsernameTaken,
            AppError::EmailTaken => AppError::EmailTaken,
            AppError::RateLimited => AppError::RateLimited,
            AppError::Database(s) => AppError::Database(s@),
            AppError::Redis(s) => AppError::Redis(s@),
            AppError::Internal(s) => AppError::Internal(s@),
        }
    }
}

/// What the error says of itself, for the log.
pub open spec fn error_text(e: AppError<Seq<char>>) -> Seq<char> {
    match e {
        AppError::Unauthorized => "missing or invalid Authorization header"@,
        AppError::InvalidCredentials => "invalid credentials"@,
        AppError::Forbidden => "you do not have permission to do this"@,
        AppError::BadRequest(s) => "bad request: "@ + s,
        AppError::ScrobbleInvalid(s) => "scrobble validation failed: "@ + s,
        AppError::NotFound => "not found"@,
        AppError::UsernameTaken => "username already taken"@,
        AppError::EmailTaken => "email already registered"@,
        AppError::RateLimited => "too many requests"@,
        AppError::Database(s) => "database error: "@ + s,
        AppError::Redis(s) => "redis error: "@ + s,
        AppError::Internal(_) => "internal server error"@,
    }
}

/// The error lies inside the service and is none of the client's business.
pub open spec fn is_internal(e: AppError<Seq<char>>) -> bool {
    e is Database || e is Redis || e is Internal
}

/// The HTTP status that answers a request which failed with `e`.
pub open spec fn error_status(e: AppError<Seq<char>>) -> u16 {
    match e {
        AppError::Unauthorized | AppError::InvalidCredentials => 401,
        AppError::Forbidden => 403,
        AppError::BadRequest(_) | AppError::ScrobbleInvalid(_) => 400,
        AppError::NotFound => 404,
        AppError::UsernameTaken | AppError::EmailTaken => 409,
        AppError::RateLimited => 429,
        AppError::Database(_) | AppError::Redis(_) | AppError::Internal(_) => 500,
    }
}

/// The message in the body of the response: what the error says of itself,
/// unless it lies inside the service.
pub open spec fn error_body(e: AppError<Seq<char>>) -> Seq<char> {
    if is_internal(e) {
        "internal server error"@
    } else {
        error_text(e)
    }
}

impl AppError {
    /// What the error says of itself.
    pub fn message(&self) -> (res: String)
        ensures
            res@ == error_text(self.deep_view()),
    {
        match self {
            AppError::Unauthorized => "missing or invalid Authorization header".to_owned(),
            AppError::InvalidCredentials => "invalid credentials".to_owned(),
            AppError::Forbidden => "you do not have permission to do this".to_owned(),
            AppError::BadRequest(s) => text::join2("bad request: ", s),
            AppError::ScrobbleInvalid(s) => text::join2("scrobble validation failed: ", s),
            AppError::NotFound => "not found".to_owned(),
            AppError::UsernameTaken => "username already taken".to_owned(),
            AppError::EmailTaken => "email already registered".to_owned(),
            AppError::RateLimited => "too many requests".to_owned(),
            AppError::Database(s) => text::join2("database error: ", s),
            AppError::Redis(s) => text::join2("redis error: ", s),
            AppError::Internal(_) => "internal server error".to_owned(),
        }
    }

    /// The status and the `error` message of the response. A scrobble that
    /// breaks a rule is a bad request.
    pub fn into_response(self) -> (res: (u16, String))
        ensures
            res.0 == error_status(self.deep_view()),
            res.1@ == error_body(self.deep_view()),
    {
        match self {
            AppError::Unauthorized | AppError::InvalidCredentials => (401, self.message()),
            AppError::Forbidden => (403, self.message()),
            AppError::BadRequest(_) | AppError::ScrobbleInvalid(_) => (400, self.message()),
            AppError::NotFound => (404, self.message()),
            AppError::UsernameTaken | AppError::EmailTaken => (409, self.message()),
            AppError::RateLimited => (429, self.message()),
            AppError::Database(_) | AppError::Redis(_) | AppError::Internal(_) => {
                (500, "internal server error".to_owned())
            },
        }
    }
}

/// The response to a failure inside the service tells nothing about it: all
/// such failures look the same from outside.
pub proof fn law_internal_failures_look_alike(e: AppError<Seq<char>>, f: AppError<Seq<char>>)
    requires
        is_internal(e),
        is_internal(f),
    ensures
        error_status(e) == error_status(f),
        error_body(e) == error_body(f),
{
}

/// Every error answers with a client or server error status.
pub proof fn law_errors_have_error_status(e: AppError<Seq<char>>)
    ensures
        400 <= error_status(e) < 600,
        is_internal(e) <==> error_status(e) >= 500,
{
}

/// Which status answers which error.
pub proof fn law_error_statuses(e: AppError<Seq<char>>)
    ensures
        error_status(e) == 401 <==> e is Unauthorized || e is InvalidCredentials,
        error_status(e) == 403 <==> e is Forbidden,
        error_status(e) == 400 <==> e is BadRequest || e is ScrobbleInvalid,
        error_status(e) == 404 <==> e is NotFound,
        error_status(e) == 409 <==> e is UsernameTaken || e is EmailTaken,
        error_status(e) == 429 <==> e is RateLimited,
        error_status(e) == 500 <==> e is Database || e is Redis || e is Internal,
{
}

/// The body of a response says what went wrong in the client's terms; of a
/// failure inside the service it says only that there was one.
pub proof fn law_error_bodies(s: Seq<char>)
    ensures
        error_body(AppError::Unauthorized) == "missing or invalid Authorization header"@,
        error_body(AppError::InvalidCredentials) == "invalid credentials"@,
        error_body(AppError::Forbidden) == "you do not have permission to do this"@,
        error_body(AppError::BadRequest(s)) == "bad request: "@ + s,
        error_body(AppError::ScrobbleInvalid(s)) == "scrobble validation failed: "@ + s,
        error_body(AppError::NotFound) == "not found"@,
        error_body(AppError::UsernameTaken) == "username already taken"@,
        error_body(AppError::EmailTaken) == "email already registered"@,
        error_body(AppError::RateLimited) == "too many requests"@,
        error_body(AppError::Database(s)) == "internal server error"@,
        error_body(AppError::Redis(s)) == "internal server error"@,
        error_body(AppError::Internal(s)) == "internal server error"@,
        error_text(AppError::Database(s)) == "database error: "@ + s,
        error_text(AppError::Redis(s)) == "redis error: "@ + s,
{
}

/// What a failed request is answered: a status, and a message that gives nothing of
/// the service away.
pub proof fn law_error_responses(e: AppError, res: (u16, String))
    requires
        call_ensures(AppError::into_response, (e,), res),
    ensures
        match e {
            AppError::Unauthorized | AppError::InvalidCredentials => res.0 == 401,
            AppError::Forbidden => res.0 == 403,
            AppError::NotFound => res.0 == 404,
            AppError::UsernameTaken | AppError::EmailTaken => res.0 == 409,
            AppError::RateLimited => res.0 == 429,
            AppError::BadRequest(s) => res.0 == 400 && res.1@ == "bad request: "@ + s@,
            AppError::ScrobbleInvalid(s) => res.0 == 400 && res.1@
                == "scrobble validation failed: "@ + s@,
            AppError::Database(_) | AppError::Redis(_) | AppError::Internal(_) => res.0 == 500
                && res.1@ == "internal server error"@,
        },
{
}

} // verus!
