//! Cover Art Archive: album covers, keyed by MusicBrainz release or
//! release-group MBID. No auth. Only useful after MusicBrainz has resolved an
//! MBID, which is why it sits behind MusicBrainz in the fallback chain.

use super::{ProviderError, ProviderResult};
use crate::ids;
use crate::ids::Uuid;
use crate::text;
use vstd::prelude::*;
use vstd::string::*;

verus! {

#[derive(Debug, Clone, Copy, PartialEq, Eq, Structural)]
pub enum CoverKind {
    Release,
    ReleaseGroup,
}

/// The part of the address that says what the MBID identifies.
pub open spec fn kind_segment(kind: CoverKind) -> Seq<char> {
    match kind {
        CoverKind::Release => "release"@,
        CoverKind::ReleaseGroup => "release-group"@,
    }
}

impl CoverKind {
    pub fn segment(self) -> (res: &'static str)
        ensures
            res@ == kind_segment(self),
    {
        match self {
            CoverKind::Release => "release",
            CoverKind::ReleaseGroup => "release-group",
        }
    }
}

/// Cooldown after a 429 or 503 (s).
pub const COOLDOWN_SECS: u64 = 60;

/// The canonical address of a front cover.
pub open spec fn cover_url(kind: CoverKind, mbid: Uuid) -> Seq<char> {
    "https://coverartarchive.org/"@ + kind_segment(kind) + "/"@ + ids::hyphenated(mbid)
        + "/front-500"@
}

/// The canonical address of a front cover.
///
/// A HEAD request against this stable address tells whether there is one: we
/// store the canonical URL (which the archive keeps redirecting to the current
/// image) rather than a direct link that can rot.
pub fn front_cover_url(kind: CoverKind, mbid: Uuid) -> (res: String)
    ensures
        res@ == cover_url(kind, mbid),
{
    text::join4(
        "https://coverartarchive.org/",
        kind.segment(),
        "/",
        ids::uuid_text(mbid).as_str(),
    ).concat("/front-500")
}

/// What came back from a HEAD request.
#[derive(Debug, PartialEq, Eq)]
pub enum HeadReply<S = String> {
    /// The request failed before there was a response. `retryable` says that
    /// it timed out, could not connect, or could not be sent.
    Failed { retryable: bool, message: S },
    Response { status: u16 },
}

impl DeepView for HeadReply {
    type V = HeadReply<Seq<char>>;

    open spec fn deep_view(&self) -> HeadReply<Seq<char>> {
        match *self {
            HeadReply::Failed { retryable, message } => HeadReply::Failed {
                retryable,
                message: message@,
            },
            HeadReply::Response { status } => HeadReply::Response { status },
        }
    }
}

/// What a reply means: there is a cover, there is none, or it has to be asked
/// again. An unforeseen answer (such as 400 for a malformed MBID) counts as
/// none: there is nothing to gain by retrying.
pub open spec fn cover_outcome(url: Seq<char>, reply: HeadReply<Seq<char>>) -> Result<
    Option<Seq<char>>,
    ProviderError<Seq<char>>,
> {
    match reply {
        HeadReply::Failed { retryable, message } => Err(
            super::request_error("coverart"@, retryable, message),
        ),
        HeadReply::Response { status } => if status == super::STATUS_OK {
            Ok(Some(url))
        } else if super::is_throttled(status) || super::is_server_error(status) {
            Err(ProviderError::Transient("coverart: HTTP "@ + super::status_text(status)))
        } else {
            Ok(None)
        },
    }
}

/// The cooldown that a reply puts the archive under.
pub open spec fn cover_cooldown(reply: HeadReply<Seq<char>>) -> Option<u64> {
    match reply {
        HeadReply::Response { status } if super::is_throttled(status) => Some(COOLDOWN_SECS),
        _ => None,
    }
}

/// Reads the reply to the HEAD request for `url`: the cover, and the cooldown
/// in seconds that the archive is to be put under, if any.
pub fn found_cover(url: String, reply: HeadReply) -> (res: (ProviderResult<String>, Option<u64>))
    requires
        reply matches HeadReply::Response { status } ==> 100 <= status <= 999,
    ensures
        text::result_view(res.0) == cover_outcome(url@, reply.deep_view()),
        res.1 == cover_cooldown(reply.deep_view()),
{
    match reply {
        HeadReply::Failed { retryable, message } => {
            (Err(super::classify_request_error("coverart", retryable, message.as_str())), None)
        },
        HeadReply::Response { status } => {
            if status == super::STATUS_OK {
                return (Ok(Some(url)), None);
            }
            let throttled: bool = status == super::STATUS_TOO_MANY_REQUESTS || status
                == super::STATUS_SERVICE_UNAVAILABLE;
            if throttled || (500 <= status && status < 600) {
                let message = text::join2("coverart: HTTP ", super::status_line(status).as_str());
                let cooldown: Option<u64> = if throttled {
                    Some(COOLDOWN_SECS)
                } else {
                    None
                };
                return (Err(ProviderError::Transient(message)), cooldown);
            }
            (Ok(None), None)
        },
    }
}

/// A cover that was found is stored under the address that was asked.
pub proof fn law_found_cover_is_canonical(url: Seq<char>, reply: HeadReply<Seq<char>>)
    ensures
        cover_outcome(url, reply) matches Ok(Some(found)) ==> found == url,
{
}

/// Where a front cover is asked for: under its release or its release group, at
/// 500 pixels.
pub proof fn law_cover_addresses(mbid: Uuid)
    ensures
        cover_url(CoverKind::Release, mbid) == "https://coverartarchive.org/"@ + "release"@ + "/"@
            + ids::hyphenated(mbid) + "/front-500"@,
        cover_url(CoverKind::ReleaseGroup, mbid) == "https://coverartarchive.org/"@
            + "release-group"@ + "/"@ + ids::hyphenated(mbid) + "/front-500"@,
{
}

/// There is a cover exactly when the archive answers 200. It is to be asked again
/// where it throttles or has failed itself, or could not be reached; any other
/// answer means that there is none.
pub proof fn law_cover_answers(
    url: Seq<char>,
    status: u16,
    retryable: bool,
    message: Seq<char>,
)
    ensures
        ({
            let outcome = cover_outcome(url, HeadReply::Response { status });
            let failed = cover_outcome(url, HeadReply::Failed { retryable, message });
            &&& status == 200 ==> outcome == Ok::<Option<Seq<char>>, ProviderError<Seq<char>>>(
                Some(url),
            )
            &&& status == 429 || 500 <= status < 600 ==> outcome == Err::<
                Option<Seq<char>>,
                ProviderError<Seq<char>>,
            >(ProviderError::Transient("coverart: HTTP "@ + super::status_text(status)))
            &&& status != 200 && status != 429 && !(500 <= status < 600) ==> outcome == Ok::<
                Option<Seq<char>>,
                ProviderError<Seq<char>>,
            >(None)
            &&& retryable ==> failed == Err::<Option<Seq<char>>, ProviderError<Seq<char>>>(
                ProviderError::Transient("coverart"@ + ": "@ + message),
            )
            &&& !retryable ==> failed == Err::<Option<Seq<char>>, ProviderError<Seq<char>>>(
                ProviderError::Fatal("coverart"@ + ": "@ + message),
            )
        }),
{
}

/// The archive is left alone for a minute exactly when it throttles.
pub proof fn law_cover_cooldowns(status: u16, retryable: bool, message: Seq<char>)
    ensures
        status == 429 || status == 503 ==> cover_cooldown(HeadReply::Response { status }) == Some(
            60u64,
        ),
        status != 429 && status != 503 ==> cover_cooldown(HeadReply::Response { status }) is None,
        cover_cooldown(HeadReply::Failed { retryable, message }) is None,
{
}

} // verus!
