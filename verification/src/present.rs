//! What the presentation layer should do with one changed batch: which
//! badge to put on the indicator, and whether to show the threads one by
//! one or as a single summary.

use vstd::prelude::*;

use crate::text::{dec_digits, u64_to_string};

verus! {

/// From this many threads on, one summary replaces individual
/// notifications.
pub const SUMMARY_THRESHOLD: usize = 5;

/// How to present one changed batch.
pub enum BatchPresentation {
    /// Few enough threads: present each one.
    Individual,
    /// Too many threads: present one summary.
    Summary,
}

/// The indicator badge for a batch: no badge for an empty batch, else the
/// thread count in decimal.
pub fn tray_badge(count: usize) -> (r: Option<String>)
    ensures
        count == 0 ==> r is None,
        count > 0 ==> (r matches Some(s) && s@ == dec_digits(count as nat)),
{
    if count == 0 {
        None
    } else {
        Some(u64_to_string(count as u64))
    }
}

/// Whether a batch is presented thread by thread or as one summary: small
/// batches individually, batches at the threshold or above as a summary.
pub fn batch_presentation(count: usize) -> (r: BatchPresentation)
    ensures
        r is Individual <==> count < SUMMARY_THRESHOLD,
{
    if count < SUMMARY_THRESHOLD {
        BatchPresentation::Individual
    } else {
        BatchPresentation::Summary
    }
}

/// The text of the summary notification for a batch of `n` threads.
pub open spec fn summary_chars(n: nat) -> Seq<char> {
    "You have "@ + dec_digits(n) + " new notifications"@
}

/// Renders the summary text, exactly as `summary_chars` describes.
pub fn summary_text(count: usize) -> (r: String)
    ensures
        r@ == summary_chars(count as nat),
{
    let mut s = String::from_str("You have ");
    let d = u64_to_string(count as u64);
    s.append(d.as_str());
    s.append(" new notifications");
    proof {
        assert(s@ =~= summary_chars(count as nat));
    }
    s
}

} // verus!
