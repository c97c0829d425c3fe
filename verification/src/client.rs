//! Interpreting one answer of the notifications endpoint. The caller
//! performs the conditional GET and hands in the status, the two cadence
//! headers, and the decoded body when the status delivered one; this module
//! decides what the poll cycle learned from them.

use vstd::prelude::*;

use crate::model::NotificationThread;
use crate::text::parsed_u64;

verus! {

/// A transport-level fetch failure: a timeout, a resolution failure, a
/// refused connection. It terminates the polling engine's sequence.
pub struct FetchError {
    pub message: String,
}

/// The recommended polling interval a header carries, if it parses as a
/// decimal number of seconds.
pub open spec fn interval_of_header(header: Option<String>) -> Option<u64> {
    match header {
        Some(h) => parsed_u64(h@),
        None => None,
    }
}

/// What one endpoint answer means for the cycle: the thread list exactly
/// when the status is the full-data one, the parsed interval
/// recommendation, and the new cache validator as sent. A not-modified or
/// any other status yields no list; the headers still count.
pub open spec fn interpreted(
    status: u16,
    interval_header: Option<String>,
    validator_header: Option<String>,
    body: Option<Vec<NotificationThread>>,
) -> (Option<Vec<NotificationThread>>, Option<u64>, Option<String>) {
    (
        if status == 200u16 {
            body
        } else {
            None
        },
        interval_of_header(interval_header),
        validator_header,
    )
}

/// Interprets one endpoint answer, exactly as `interpreted` describes.
pub fn interpret_response(
    status: u16,
    interval_header: Option<String>,
    validator_header: Option<String>,
    body: Option<Vec<NotificationThread>>,
) -> (r: (Option<Vec<NotificationThread>>, Option<u64>, Option<String>))
    ensures
        r == interpreted(status, interval_header, validator_header, body),
{
    let threads = if status == 200u16 {
        body
    } else {
        None
    };
    let interval = match interval_header {
        Some(h) => crate::text::parse_u64(h.as_str()),
        None => None,
    };
    (threads, interval, validator_header)
}

} // verus!
