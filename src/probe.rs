use crate::text::{decimal, push_decimal};
use vstd::prelude::*;

verus! {

/// Whether a target answered, and if not, why.
pub enum ProbeStatus {
    Up,
    /// Unreachable or erroring, with a human-readable reason.
    Down(String),
}

/// The result of probing one target.
pub struct ProbeOutcome {
    pub url: String,
    pub status: ProbeStatus,
}

/// A status code in the client-error or server-error classes.
pub open spec fn is_error_status(code: u16) -> bool {
    400 <= code <= 599
}

/// The reason given for a failed probe: the code, a space, the status text.
pub open spec fn diagnostic_of(code: u16, text: Seq<char>) -> Seq<char> {
    decimal(code as nat) + " "@ + text
}

/// Classifies the reply to a GET request. A status code from 400 to 599
/// (which the HTTP client also reports for transport failures, with the
/// failure's text) means the target is down; anything else means it is up.
pub fn status_of_reply(code: u16, status_text: &str) -> (r: ProbeStatus)
    ensures
        match r {
            ProbeStatus::Up => !is_error_status(code),
            ProbeStatus::Down(d) => is_error_status(code) && d@ == diagnostic_of(code, status_text@),
        },
{
    if 400 <= code && code <= 599 {
        let mut d = String::new();
        push_decimal(&mut d, code as usize);
        d.append(" ");
        d.append(status_text);
        assert(d@ =~= diagnostic_of(code, status_text@));
        ProbeStatus::Down(d)
    } else {
        ProbeStatus::Up
    }
}

/// Pairs a probed URL with the classification of the reply it gave.
pub fn outcome_of_reply(url: String, code: u16, status_text: &str) -> (r: ProbeOutcome)
    ensures
        r.url@ == url@,
        match r.status {
            ProbeStatus::Up => !is_error_status(code),
            ProbeStatus::Down(d) => is_error_status(code) && d@ == diagnostic_of(code, status_text@),
        },
{
    let status = status_of_reply(code, status_text);
    ProbeOutcome { url, status }
}

} // verus!
