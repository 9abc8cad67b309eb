//! The filter's two context types and the per-request decision the header
//! callback takes: look the watched header up, decode it, and say what to
//! propagate, what to log, and how the request continues.
use crate::b64::{decode_standard, spec_b64_decode, spec_b64_encode};
use crate::text::{spec_trim, trim_text, utf8_to_text};
use vstd::prelude::*;
use vstd::utf8::{decode_utf8, encode_utf8, valid_utf8};

verus! {

/// Granularity at which the host drives a filter.
#[derive(Clone, Copy, Debug, PartialEq, Eq, Structural)]
pub enum ContextType {
    HttpContext,
    StreamContext,
}

/// Continuation signal handed back to the host pipeline.
#[derive(Clone, Copy, Debug, PartialEq, Eq, Structural)]
pub enum Action {
    Continue,
    Pause,
}

/// Severity of the one diagnostic line a decision asks the host adapter to
/// emit.
#[derive(Clone, Copy, Debug, PartialEq, Eq, Structural)]
pub enum LogLevel {
    Info,
    Error,
}

/// Why a header value yielded no user name.
#[derive(Clone, Copy, Debug, PartialEq, Eq, Structural)]
pub enum DecodeError {
    /// The value is not standard base64 with canonical padding.
    MalformedBase64,
    /// The value decodes to bytes that are not valid UTF-8.
    InvalidUtf8,
}

/// The user name a header value carries — its base64-decoded UTF-8 text with
/// outer whitespace trimmed — or the reason there is none.
pub open spec fn spec_user_name(s: Seq<char>) -> Result<Seq<char>, DecodeError> {
    match spec_b64_decode(s) {
        Option::None => Result::Err(DecodeError::MalformedBase64),
        Option::Some(bytes) => if valid_utf8(bytes) {
            Result::Ok(spec_trim(decode_utf8(bytes)))
        } else {
            Result::Err(DecodeError::InvalidUtf8)
        },
    }
}

/// Decodes one header value into the trimmed user name, or says why it
/// cannot be done. Never panics and never stops a request: the caller
/// recovers from both errors by propagating nothing.
pub fn decode_user_name(encoded: &str) -> (r: Result<String, DecodeError>)
    ensures
        spec_user_name(encoded@) matches Ok(t) ==> (r matches Ok(v) && v@ == t),
        spec_user_name(encoded@) matches Err(e) ==> (r matches Err(e2) && e2 == e),
{
    match decode_standard(encoded) {
        None => Err(DecodeError::MalformedBase64),
        Some(bytes) => match utf8_to_text(bytes) {
            None => Err(DecodeError::InvalidUtf8),
            Some(text) => Ok(trim_text(text.as_str())),
        },
    }
}

/// What one invocation of the header callback did about the watched header.
pub enum HeaderOutcome {
    /// The header is absent: an expected case, nothing to propagate.
    Absent,
    /// The decoded, trimmed user name, to be written to the property store.
    Propagated(String),
    /// The header value could not be decoded; nothing is propagated.
    DecodeFailed(DecodeError),
}

impl HeaderOutcome {
    /// The property value this outcome asks the host adapter to write, if
    /// any.
    pub open spec fn spec_property(&self) -> Option<Seq<char>> {
        match self {
            HeaderOutcome::Propagated(v) => Some(v@),
            _ => None,
        }
    }

    /// Severity of the diagnostic line for this outcome: decode failures are
    /// errors, everything else is informational.
    pub open spec fn spec_level(&self) -> LogLevel {
        match self {
            HeaderOutcome::DecodeFailed(_) => LogLevel::Error,
            _ => LogLevel::Info,
        }
    }

    /// The property value to write, if any.
    pub fn property(&self) -> (r: Option<&String>)
        ensures
            r matches Some(v) ==> self.spec_property() == Some(v@),
            r is None ==> self.spec_property() is None,
    {
        match self {
            HeaderOutcome::Propagated(v) => Some(v),
            _ => None,
        }
    }

    /// Severity of the diagnostic line for this outcome.
    pub fn level(&self) -> (r: LogLevel)
        ensures
            r == self.spec_level(),
    {
        match self {
            HeaderOutcome::DecodeFailed(_) => LogLevel::Error,
            _ => LogLevel::Info,
        }
    }
}

/// Everything one invocation of the header callback decides: the
/// continuation signal for the host and the outcome for the watched header.
pub struct FilterDecision {
    pub action: Action,
    pub outcome: HeaderOutcome,
}

/// View of an optional header value.
pub open spec fn view_opt(s: Option<&str>) -> Option<Seq<char>> {
    match s {
        Option::Some(v) => Option::Some(v@),
        Option::None => Option::None,
    }
}

/// The full contract of one callback invocation, as a predicate over plain
/// values: the request always continues; with no header nothing is written
/// and an informational line is logged; with a decodable header the trimmed
/// user name is written; with an undecodable one nothing is written and an
/// error line is logged.
pub open spec fn decision_ok(
    header: Option<Seq<char>>,
    action: Action,
    property: Option<Seq<char>>,
    level: LogLevel,
) -> bool {
    &&& action == Action::Continue
    &&& match header {
        Option::None => property is None && level == LogLevel::Info,
        Option::Some(s) => match spec_user_name(s) {
            Result::Ok(t) => property == Option::Some(t) && level == LogLevel::Info,
            Result::Err(_) => property is None && level == LogLevel::Error,
        },
    }
}

/// Root context: the stateless factory the host keeps for the lifetime of
/// the filter configuration.
pub struct HttpHeadersRoot;

impl HttpHeadersRoot {
    /// Declares to the host that this filter works per HTTP request.
    pub fn get_type(&self) -> (t: Option<ContextType>)
        ensures
            t == Some(ContextType::HttpContext),
    {
        Some(ContextType::HttpContext)
    }

    /// Manufactures the context for one request, bound to the identifier the
    /// host assigned to it. Construction never fails.
    pub fn create_http_context(&self, context_id: u32) -> (c: Option<HttpHeaders>)
        ensures
            c matches Some(h) && h.context_id == context_id,
    {
        Some(HttpHeaders { context_id })
    }
}

/// Per-request context: holds nothing beyond the host-assigned request
/// identifier used to correlate diagnostic lines.
#[derive(PartialEq, Eq, Structural)]
pub struct HttpHeaders {
    pub context_id: u32,
}

impl HttpHeaders {
    /// The header callback: decides, from the value of the watched
    /// `user-name` header, what to propagate and what to log. The request
    /// always continues, whichever branch is taken, and the context itself
    /// is left unchanged — repeating the callback repeats the same decision.
    pub fn on_http_request_headers(
        &mut self,
        _num_headers: usize,
        _end_of_stream: bool,
        user_name: Option<&str>,
    ) -> (d: FilterDecision)
        ensures
            *final(self) == *old(self),
            decision_ok(
                view_opt(user_name),
                d.action,
                d.outcome.spec_property(),
                d.outcome.spec_level(),
            ),
            user_name is None <==> d.outcome is Absent,
            user_name matches Some(s) ==> (spec_user_name(s@) matches Err(e) ==> (
            d.outcome matches HeaderOutcome::DecodeFailed(e2) && e2 == e)),
    {
        let outcome = match user_name {
            None => HeaderOutcome::Absent,
            Some(s) => match decode_user_name(s) {
                Ok(v) => HeaderOutcome::Propagated(v),
                Err(e) => HeaderOutcome::DecodeFailed(e),
            },
        };
        FilterDecision { action: Action::Continue, outcome }
    }
}

/// The callback's contract is deterministic: two invocations that see the
/// same header value are forced to the same continuation signal, the same
/// property write and the same diagnostic level — a misbehaving host that
/// repeats the callback gets the same decision again, never an accumulation.
pub proof fn lemma_decision_deterministic(
    header: Option<Seq<char>>,
    a1: Action,
    p1: Option<Seq<char>>,
    l1: LogLevel,
    a2: Action,
    p2: Option<Seq<char>>,
    l2: LogLevel,
)
    requires
        decision_ok(header, a1, p1, l1),
        decision_ok(header, a2, p2, l2),
    ensures
        a1 == a2,
        p1 == p2,
        l1 == l2,
{
}

/// Round trip: a header that carries the standard base64 encoding of the
/// UTF-8 bytes of any text — embedded, leading and trailing whitespace
/// included — yields exactly that text with its outer whitespace trimmed,
/// and the request continues.
pub proof fn lemma_round_trip(text: Seq<char>)
    ensures
        spec_user_name(spec_b64_encode(encode_utf8(text))) == Result::<
            Seq<char>,
            DecodeError,
        >::Ok(spec_trim(text)),
        decision_ok(
            Option::Some(spec_b64_encode(encode_utf8(text))),
            Action::Continue,
            Option::Some(spec_trim(text)),
            LogLevel::Info,
        ),
{
    crate::b64::lemma_b64_round_trip(encode_utf8(text));
    vstd::utf8::encode_utf8_valid_utf8(text);
    vstd::utf8::encode_utf8_decode_utf8(text);
}

} // verus!
