//! The lines of the diagnostic log: one for every request, and one more with
//! the whole answer for a call that took unusually long.

use vstd::prelude::*;
use crate::text::{decimal, decimal_string};

verus! {

/// What is logged of one request, besides when it came and how long it took.
#[derive(Debug, Clone, PartialEq, Eq)]
pub struct Diagnostic {
    /// The address of the sender, where it is known.
    pub client: Option<String>,
    /// How the request ended: `Ok`, or the sentence of the refusal.
    pub status: String,
    pub input_tokens: usize,
    pub output_tokens: usize,
    /// The model that was asked, empty where the request was refused.
    pub model: String,
}

/// What a `Diagnostic` holds, as mathematical text.
pub struct DiagnosticView {
    pub client: Option<Seq<char>>,
    pub status: Seq<char>,
    pub input_tokens: nat,
    pub output_tokens: nat,
    pub model: Seq<char>,
}

impl View for Diagnostic {
    type V = DiagnosticView;

    open spec fn view(&self) -> DiagnosticView {
        DiagnosticView {
            client: match self.client {
                Some(c) => Some(c@),
                None => None,
            },
            status: self.status@,
            input_tokens: self.input_tokens as nat,
            output_tokens: self.output_tokens as nat,
            model: self.model@,
        }
    }
}

/// The address that is logged for a sender: its own, or the unspecified
/// address where it is not known.
pub open spec fn client_text(client: Option<Seq<char>>) -> Seq<char> {
    match client {
        Some(c) => c,
        None => "0.0.0.0"@,
    }
}

/// The line that is logged for a request:
/// `<timestamp> - <client>: status: <status>, duration: <duration>, input / output tokens: <in>/<out>, model: <model>`.
pub open spec fn request_line(
    timestamp: Seq<char>,
    duration: Seq<char>,
    diagnostic: DiagnosticView,
) -> Seq<char> {
    timestamp + " - "@ + client_text(diagnostic.client) + ": status: "@ + diagnostic.status
        + ", duration: "@ + duration + ", input / output tokens: "@ + decimal(
        diagnostic.input_tokens,
    ) + "/"@ + decimal(diagnostic.output_tokens) + ", model: "@ + diagnostic.model
}

/// The line that is logged with the answer of a slow call: `output: <answer>`.
pub open spec fn output_line(output: Seq<char>) -> Seq<char> {
    "output: "@ + output
}

/// Writes the line for a request. `timestamp` is the time of logging and
/// `duration` the seconds that the request took, both as they are to appear.
pub fn diagnostic_line(timestamp: &str, duration: &str, diagnostic: &Diagnostic) -> (line: String)
    ensures
        line@ == request_line(timestamp@, duration@, diagnostic@),
{
    let mut line = timestamp.to_owned();
    line.append(" - ");
    match &diagnostic.client {
        Some(client) => line.append(client.as_str()),
        None => line.append("0.0.0.0"),
    }
    line.append(": status: ");
    line.append(diagnostic.status.as_str());
    line.append(", duration: ");
    line.append(duration);
    line.append(", input / output tokens: ");
    line.append(decimal_string(diagnostic.input_tokens).as_str());
    line.append("/");
    line.append(decimal_string(diagnostic.output_tokens).as_str());
    line.append(", model: ");
    line.append(diagnostic.model.as_str());
    line
}

/// The time that is `seconds` whole seconds and `nanoseconds` after the start
/// of 1970 in universal time, written as RFC 3339 demands, or `None` where the
/// calendar of `chrono` does not reach it.
pub uninterp spec fn utc_rfc3339(seconds: i64, nanoseconds: u32) -> Option<Seq<char>>;

/// `chrono::DateTime::<chrono::Utc>::from_timestamp`, which makes the instant
/// or gives `None` for numbers out of range, and `DateTime::to_rfc3339` on that
/// instant. The contract claims that what is written is a function of the two
/// numbers, `utc_rfc3339`.
#[verifier::external_body]
fn rfc3339(seconds: i64, nanoseconds: u32) -> (text: Option<String>)
    ensures
        match text {
            Some(t) => utc_rfc3339(seconds, nanoseconds) == Some(t@),
            None => utc_rfc3339(seconds, nanoseconds) is None,
        },
{
    match chrono::DateTime::from_timestamp(seconds, nanoseconds) {
        Some(time) => Some(time.to_rfc3339()),
        None => None,
    }
}

/// Writes the line for a request that is logged at the time of `seconds` and
/// `nanoseconds` after the start of 1970, universal time. There is no line for
/// a time that cannot be written.
pub fn stamped_line(
    seconds: i64,
    nanoseconds: u32,
    duration: &str,
    diagnostic: &Diagnostic,
) -> (line: Option<String>)
    ensures
        match utc_rfc3339(seconds, nanoseconds) {
            Some(timestamp) => line matches Some(l) && l@ == request_line(
                timestamp,
                duration@,
                diagnostic@,
            ),
            None => line is None,
        },
{
    match rfc3339(seconds, nanoseconds) {
        Some(timestamp) => Some(diagnostic_line(timestamp.as_str(), duration, diagnostic)),
        None => None,
    }
}

/// Writes the line that holds the answer of a slow call.
pub fn slow_call_line(output: &str) -> (line: String)
    ensures
        line@ == output_line(output@),
{
    let mut line = "output: ".to_owned();
    line.append(output);
    line
}

} // verus!
