//! Metadata providers: the requests they are sent and what their answers mean.

pub mod coverart;
pub mod deezer;
pub mod lastfm;
pub mod musicbrainz;

use crate::text;
use vstd::prelude::*;
use vstd::string::*;

verus! {

/// How a provider call failed.
///
/// `Transient` failures (network, 5xx, 429) make the job retry later with
/// backoff. `Fatal` failures (malformed query, unexpected body) are logged and
/// treated as "this provider contributed nothing": they never block the job,
/// since retrying won't change the outcome.
#[derive(Debug, PartialEq, Eq)]
pub enum ProviderError<S = String> {
    Transient(S),
    Fatal(S),
}

/// `Ok(None)` means the provider answered but had no (confident) match, a
/// valid final result and not an error.
pub type ProviderResult<T> = Result<Option<T>, ProviderError>;

impl DeepView for ProviderError {
    type V = ProviderError<Seq<char>>;

    open spec fn deep_view(&self) -> ProviderError<Seq<char>> {
        match *self {
            ProviderError::Transient(s) => ProviderError::Transient(s@),
            ProviderError::Fatal(s) => ProviderError::Fatal(s@),
        }
    }
}

/// What a provider error says of itself.
pub open spec fn provider_message(e: ProviderError<Seq<char>>) -> Seq<char> {
    match e {
        ProviderError::Transient(s) => "transient: "@ + s,
        ProviderError::Fatal(s) => "fatal: "@ + s,
    }
}

impl ProviderError {
    /// What the error says of itself.
    pub fn message(&self) -> (res: String)
        ensures
            res@ == provider_message(self.deep_view()),
    {
        match self {
            ProviderError::Transient(s) => text::join2("transient: ", s.as_str()),
            ProviderError::Fatal(s) => text::join2("fatal: ", s.as_str()),
        }
    }
}

/// Cooldown after a 429 or 503 that names none (s).
pub const DEFAULT_COOLDOWN_SECS: u64 = 60;

pub const STATUS_OK: u16 = 200;

pub const STATUS_NOT_FOUND: u16 = 404;

pub const STATUS_TOO_MANY_REQUESTS: u16 = 429;

pub const STATUS_SERVICE_UNAVAILABLE: u16 = 503;

/// A GET request: where it goes and its query parameters in order.
#[derive(Debug, PartialEq, Eq)]
pub struct HttpGet<S = String, Q = Vec<(String, String)>> {
    pub url: S,
    pub query: Q,
}

pub type HttpGetView = HttpGet<Seq<char>, Seq<(Seq<char>, Seq<char>)>>;

impl DeepView for HttpGet {
    type V = HttpGet<Seq<char>, Seq<(Seq<char>, Seq<char>)>>;

    open spec fn deep_view(&self) -> HttpGet<Seq<char>, Seq<(Seq<char>, Seq<char>)>> {
        HttpGet { url: self.url@, query: self.query.deep_view() }
    }
}

/// A GET request to `url` with the parameters `query`.
pub open spec fn get_request(url: Seq<char>, query: Seq<(Seq<char>, Seq<char>)>) -> HttpGetView {
    HttpGet { url, query }
}

/// What came back from a request whose answer is JSON.
#[derive(Debug, PartialEq, Eq)]
pub enum JsonReply<T, S = String> {
    /// The request failed before there was a response. `retryable` says that
    /// it timed out, could not connect, or could not be sent.
    Failed { retryable: bool, message: S },
    /// A response: its status, its `Retry-After` header where it is text, and
    /// for a success what its body decodes to.
    Response { status: u16, retry_after: Option<S>, body: Result<T, S> },
}

/// A reply with its texts taken by their characters.
pub open spec fn reply_view<T>(reply: JsonReply<T>) -> JsonReply<T, Seq<char>> {
    match reply {
        JsonReply::Failed { retryable, message } => JsonReply::Failed {
            retryable,
            message: message@,
        },
        JsonReply::Response { status, retry_after, body } => JsonReply::Response {
            status,
            retry_after: retry_after.deep_view(),
            body: match body {
                Ok(value) => Ok(value),
                Err(error) => Err(error@),
            },
        },
    }
}

/// A result with its error taken by its characters.
pub open spec fn outcome_view<T>(r: ProviderResult<T>) -> Result<
    Option<T>,
    ProviderError<Seq<char>>,
> {
    match r {
        Ok(found) => Ok(found),
        Err(e) => Err(e.deep_view()),
    }
}

/// A status code as `http` writes it: the number and its canonical reason.
pub uninterp spec fn status_text(code: u16) -> Seq<char>;

/// The `Display` form of `reqwest::StatusCode`. The result is named: it takes
/// the reason from a table of every registered code.
#[verifier::external_body]
pub(crate) fn status_line(code: u16) -> (res: String)
    requires
        100 <= code <= 999,
    ensures
        res@ == status_text(code),
{
    reqwest::StatusCode::from_u16(code).expect("status code in range").to_string()
}

/// The status asks the client to slow down.
pub open spec fn is_throttled(status: u16) -> bool {
    status == STATUS_TOO_MANY_REQUESTS || status == STATUS_SERVICE_UNAVAILABLE
}

pub open spec fn is_server_error(status: u16) -> bool {
    500 <= status < 600
}

pub open spec fn is_success(status: u16) -> bool {
    200 <= status < 300
}

/// How long a throttled provider is left alone: what `Retry-After` says in
/// seconds, else a minute.
pub open spec fn cooldown_secs(retry_after: Option<Seq<char>>) -> u64 {
    match retry_after {
        Some(value) => match text::parsed_u64(value) {
            Some(secs) => secs,
            None => DEFAULT_COOLDOWN_SECS,
        },
        None => DEFAULT_COOLDOWN_SECS,
    }
}

/// A failure to get a response: worth a retry where it was a matter of
/// connectivity, since nothing else will fix itself.
pub open spec fn request_error(
    provider: Seq<char>,
    retryable: bool,
    message: Seq<char>,
) -> ProviderError<Seq<char>> {
    if retryable {
        ProviderError::Transient(provider + ": "@ + message)
    } else {
        ProviderError::Fatal(provider + ": "@ + message)
    }
}

/// What a reply means for the caller.
pub open spec fn json_outcome<T>(provider: Seq<char>, reply: JsonReply<T, Seq<char>>) -> Result<
    Option<T>,
    ProviderError<Seq<char>>,
> {
    match reply {
        JsonReply::Failed { retryable, message } => Err(request_error(provider, retryable, message)),
        JsonReply::Response { status, retry_after, body } => if status == STATUS_NOT_FOUND {
            Ok(None)
        } else if is_throttled(status) {
            Err(
                ProviderError::Transient(
                    provider + ": HTTP "@ + status_text(status) + ", cooling down "@
                        + text::decimal(cooldown_secs(retry_after) as int) + "s"@,
                ),
            )
        } else if is_server_error(status) {
            Err(ProviderError::Transient(provider + ": HTTP "@ + status_text(status)))
        } else if !is_success(status) {
            Err(ProviderError::Fatal(provider + ": HTTP "@ + status_text(status)))
        } else {
            match body {
                Ok(value) => Ok(Some(value)),
                Err(error) => Err(
                    ProviderError::Fatal(provider + ": bad response body: "@ + error),
                ),
            }
        },
    }
}

/// The cooldown that a reply puts the provider under.
pub open spec fn json_cooldown<T>(reply: JsonReply<T, Seq<char>>) -> Option<u64> {
    match reply {
        JsonReply::Response { status, retry_after, .. } if is_throttled(status) => Some(
            cooldown_secs(retry_after),
        ),
        _ => None,
    }
}

fn retry_after_secs(retry_after: &Option<String>) -> (res: u64)
    ensures
        res == cooldown_secs(retry_after.deep_view()),
{
    match retry_after {
        Some(value) => match text::parse_u64(value.as_str()) {
            Some(secs) => secs,
            None => DEFAULT_COOLDOWN_SECS,
        },
        None => DEFAULT_COOLDOWN_SECS,
    }
}

/// A failure to get a response.
pub fn classify_request_error(provider: &str, retryable: bool, message: &str) -> (res:
    ProviderError)
    ensures
        res.deep_view() == request_error(provider@, retryable, message@),
{
    let text = text::join3(provider, ": ", message);
    if retryable {
        ProviderError::Transient(text)
    } else {
        ProviderError::Fatal(text)
    }
}

/// Reads the reply to a GET whose answer is JSON: the decoded body, and the
/// cooldown in seconds that the provider is to be put under, if any.
///
/// A 404 is `Ok(None)`, so callers that treat it as "no match" get that for
/// free.
pub fn get_json<T>(provider: &str, reply: JsonReply<T>) -> (res: (ProviderResult<T>, Option<u64>))
    requires
        reply matches JsonReply::Response { status, .. } ==> 100 <= status <= 999,
    ensures
        outcome_view(res.0) == json_outcome(provider@, reply_view(reply)),
        res.1 == json_cooldown(reply_view(reply)),
{
    match reply {
        JsonReply::Failed { retryable, message } => {
            (Err(classify_request_error(provider, retryable, message.as_str())), None)
        },
        JsonReply::Response { status, retry_after, body } => {
            if status == STATUS_NOT_FOUND {
                return (Ok(None), None);
            }
            if status == STATUS_TOO_MANY_REQUESTS || status == STATUS_SERVICE_UNAVAILABLE {
                let cooldown: u64 = retry_after_secs(&retry_after);
                let message = text::join3(provider, ": HTTP ", status_line(status).as_str()).concat(
                    ", cooling down ",
                ).concat(text::u64_to_text(cooldown).as_str()).concat("s");
                return (Err(ProviderError::Transient(message)), Some(cooldown));
            }
            if 500 <= status && status < 600 {
                let message = text::join3(provider, ": HTTP ", status_line(status).as_str());
                return (Err(ProviderError::Transient(message)), None);
            }
            if !(200 <= status && status < 300) {
                let message = text::join3(provider, ": HTTP ", status_line(status).as_str());
                return (Err(ProviderError::Fatal(message)), None);
            }
            match body {
                Ok(value) => (Ok(Some(value)), None),
                Err(error) => {
                    let message = text::join3(provider, ": bad response body: ", error.as_str());
                    (Err(ProviderError::Fatal(message)), None)
                },
            }
        },
    }
}

/// A provider is put under a cooldown only together with a transient failure,
/// so the job comes back to it.
pub proof fn law_cooldown_comes_with_a_retry<T>(
    provider: Seq<char>,
    reply: JsonReply<T, Seq<char>>,
)
    ensures
        json_cooldown(reply) is Some ==> (json_outcome(provider, reply) matches Err(e)
            && e is Transient),
{
}

/// A response is a transient failure exactly when the provider throttles or
/// has failed itself.
pub proof fn law_transient_responses<T>(
    provider: Seq<char>,
    status: u16,
    retry_after: Option<Seq<char>>,
    body: Result<T, Seq<char>>,
)
    ensures
        ({
            let outcome = json_outcome(
                provider,
                JsonReply::<T, Seq<char>>::Response { status, retry_after, body },
            );
            (outcome matches Err(e) && e is Transient) <==> status == STATUS_TOO_MANY_REQUESTS
                || is_server_error(status)
        }),
{
}

/// What a failed provider call says.
pub proof fn law_provider_messages(s: Seq<char>)
    ensures
        provider_message(ProviderError::Transient(s)) == "transient: "@ + s,
        provider_message(ProviderError::Fatal(s)) == "fatal: "@ + s,
{
}

/// A request that got no response is worth another attempt exactly when
/// connectivity was to blame; either way it says which provider failed, and how.
pub proof fn law_unanswered_requests<T>(
    provider: Seq<char>,
    retryable: bool,
    message: Seq<char>,
)
    ensures
        ({
            let outcome = json_outcome(
                provider,
                JsonReply::<T, Seq<char>>::Failed { retryable, message },
            );
            &&& retryable ==> outcome == Err::<Option<T>, ProviderError<Seq<char>>>(
                ProviderError::Transient(provider + ": "@ + message),
            )
            &&& !retryable ==> outcome == Err::<Option<T>, ProviderError<Seq<char>>>(
                ProviderError::Fatal(provider + ": "@ + message),
            )
        }),
        json_cooldown(JsonReply::<T, Seq<char>>::Failed { retryable, message }) is None,
{
}

/// A response of success brings what its body holds, and is fatal where that
/// cannot be read; a 404 means that there is no match; any other status is a
/// failure that names it.
pub proof fn law_responses<T>(
    provider: Seq<char>,
    status: u16,
    retry_after: Option<Seq<char>>,
    value: T,
    error: Seq<char>,
)
    ensures
        ({
            let outcome = |body: Result<T, Seq<char>>|
                json_outcome(
                    provider,
                    JsonReply::<T, Seq<char>>::Response { status, retry_after, body },
                );
            let failed = |e: ProviderError<Seq<char>>|
                outcome(Ok(value)) == Err::<Option<T>, ProviderError<Seq<char>>>(e);
            &&& 200 <= status < 300 ==> outcome(Ok(value)) == Ok::<
                Option<T>,
                ProviderError<Seq<char>>,
            >(Some(value))
            &&& 200 <= status < 300 ==> outcome(Err(error)) == Err::<
                Option<T>,
                ProviderError<Seq<char>>,
            >(ProviderError::Fatal(provider + ": bad response body: "@ + error))
            &&& status == 404 ==> outcome(Ok(value)) == Ok::<Option<T>, ProviderError<Seq<char>>>(
                None,
            )
            &&& status == 429 || status == 503 ==> failed(
                ProviderError::Transient(
                    provider + ": HTTP "@ + status_text(status) + ", cooling down "@
                        + text::decimal(cooldown_secs(retry_after) as int) + "s"@,
                ),
            )
            &&& 500 <= status < 600 && status != 503 ==> failed(
                ProviderError::Transient(provider + ": HTTP "@ + status_text(status)),
            )
            &&& !(200 <= status < 300) && status != 404 && status != 429 && !(500 <= status < 600)
                ==> failed(ProviderError::Fatal(provider + ": HTTP "@ + status_text(status)))
        }),
{
}

/// A provider is left alone exactly when it asks for it by a 429 or a 503: for as
/// many seconds as its `Retry-After` says, and for a minute where that says none.
pub proof fn law_cooldowns<T>(
    status: u16,
    retry_after: Option<Seq<char>>,
    body: Result<T, Seq<char>>,
    secs: u64,
    junk: Seq<char>,
)
    requires
        text::parsed_u64(junk) is None,
    ensures
        json_cooldown(JsonReply::<T, Seq<char>>::Response { status, retry_after, body }) == if status
            == 429 || status == 503 {
            Some(cooldown_secs(retry_after))
        } else {
            None
        },
        cooldown_secs(None) == 60,
        cooldown_secs(Some(junk)) == 60,
        cooldown_secs(Some(text::decimal(secs as int))) == secs,
{
    text::law_unsigned_decimal_reads_back(secs);
}

} // verus!
