//! The closed set of failures that outbound calls can produce, and the
//! rendering of a failure together with its chain of causes.

use vstd::prelude::*;
use vstd::string::*;

verus! {

/// What went wrong on an outbound call.
#[derive(Clone, Copy, PartialEq, Eq, Structural)]
pub enum ErrorKind {
    /// The network transport failed or timed out.
    Transport,
    /// The response did not match the expected schema.
    Decode,
    /// The response was well-formed but held no usable content.
    UpstreamEmpty,
    /// The caller lacks permission for the operation.
    PermissionDenied,
}

/// A failure with its message and, when another failure lay beneath it,
/// the cause it wraps.
pub struct BotError {
    pub kind: ErrorKind,
    pub message: String,
    pub cause: Option<Box<BotError>>,
}

/// The full report of an error: its own message, then every wrapped cause
/// in order, each introduced on its own paragraph.
pub open spec fn report_spec(e: BotError) -> Seq<char>
    decreases e,
{
    match e.cause {
        Option::None => e.message@,
        Option::Some(c) => e.message@ + "\n\nCaused by: "@ + report_spec(*c),
    }
}

impl BotError {
    /// A failure with nothing beneath it.
    pub fn new(kind: ErrorKind, message: String) -> (r: BotError)
        ensures
            r.kind == kind,
            r.message@ == message@,
            r.cause is None,
    {
        BotError { kind, message, cause: Option::None }
    }

    /// A failure wrapping the one that brought it about.
    pub fn with_cause(kind: ErrorKind, message: String, cause: BotError) -> (r: BotError)
        ensures
            r.kind == kind,
            r.message@ == message@,
            r.cause matches Some(c) && *c == cause,
    {
        BotError { kind, message, cause: Option::Some(Box::new(cause)) }
    }
}

/// Renders the error and every cause beneath it, so that a log line keeps
/// the whole causal chain and not only the outermost message.
pub fn report(err: &BotError) -> (r: String)
    ensures
        r@ == report_spec(*err),
    decreases *err,
{
    match &err.cause {
        Option::None => err.message.clone(),
        Option::Some(c) => {
            let mut s = err.message.clone();
            s.append("\n\nCaused by: ");
            let rest = report(c);
            s.append(rest.as_str());
            s
        },
    }
}

} // verus!
