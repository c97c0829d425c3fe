//! The polling engine's state machine. The engine owns the current interval
//! and the last-known cache validator; one `step` consumes the outcome of
//! one fetch and yields the event of that cycle. The caller loops: sleep for
//! `interval_secs`, fetch with `last_validator`, step — and stops for good
//! on a fatal event. One fetch is outstanding at a time by construction:
//! the next cycle starts only after `step` has consumed the last one.

use vstd::prelude::*;

use crate::client::FetchError;
use crate::model::NotificationThread;

verus! {

/// The interval the engine starts with, in seconds.
pub const DEFAULT_POLL_INTERVAL_SECS: u64 = 60;

/// What one fetch came to: an endpoint answer (already interpreted), or a
/// transport-level failure.
pub enum FetchOutcome {
    Response {
        threads: Option<Vec<NotificationThread>>,
        recommended_interval_secs: Option<u64>,
        validator: Option<String>,
    },
    Transport(FetchError),
}

/// What one poll cycle emits.
pub enum PollEvent {
    /// The resource changed: the server's thread list, in server order.
    Changed(Vec<NotificationThread>),
    /// The resource did not change since the last validator.
    Unchanged,
    /// A transport-level failure; the engine's sequence ends here.
    Fatal(FetchError),
}

/// The engine's owned state between cycles.
pub struct PollState {
    /// Seconds to sleep before the next fetch.
    pub interval_secs: u64,
    /// The cache validator to send with the next fetch, if any was ever
    /// received.
    pub last_validator: Option<String>,
}

/// The state after consuming one outcome: a recommended interval is adopted
/// for every later sleep, a new validator replaces the old one and an
/// absent one leaves it in place; a transport failure changes nothing.
pub open spec fn step_state(s: PollState, o: FetchOutcome) -> PollState {
    match o {
        FetchOutcome::Response { threads, recommended_interval_secs, validator } => PollState {
            interval_secs: match recommended_interval_secs {
                Some(i) => i,
                None => s.interval_secs,
            },
            last_validator: match validator {
                Some(v) => Some(v),
                None => s.last_validator,
            },
        },
        FetchOutcome::Transport(_) => s,
    }
}

/// The event one outcome emits: the list when one came, no-change when the
/// answer carried none, the fatal failure otherwise.
pub open spec fn step_event(s: PollState, o: FetchOutcome) -> PollEvent {
    match o {
        FetchOutcome::Response { threads, .. } => match threads {
            Some(ts) => PollEvent::Changed(ts),
            None => PollEvent::Unchanged,
        },
        FetchOutcome::Transport(e) => PollEvent::Fatal(e),
    }
}

impl PollState {
    /// A fresh engine state: the default interval, no validator yet.
    pub fn new() -> (s: Self)
        ensures
            s.interval_secs == DEFAULT_POLL_INTERVAL_SECS,
            s.last_validator is None,
    {
        PollState { interval_secs: DEFAULT_POLL_INTERVAL_SECS, last_validator: None }
    }

    /// Consumes one fetch outcome: updates the state and yields the cycle's
    /// event, exactly as `step_state` and `step_event` describe.
    pub fn step(&mut self, outcome: FetchOutcome) -> (e: PollEvent)
        ensures
            *final(self) == step_state(*old(self), outcome),
            e == step_event(*old(self), outcome),
    {
        match outcome {
            FetchOutcome::Response { threads, recommended_interval_secs, validator } => {
                if let Some(i) = recommended_interval_secs {
                    self.interval_secs = i;
                }
                if let Some(v) = validator {
                    self.last_validator = Some(v);
                }
                match threads {
                    Some(ts) => PollEvent::Changed(ts),
                    None => PollEvent::Unchanged,
                }
            },
            FetchOutcome::Transport(e) => PollEvent::Fatal(e),
        }
    }
}

/// The fetch outcome of an interpreted endpoint answer.
pub open spec fn outcome_of(
    parts: (Option<Vec<NotificationThread>>, Option<u64>, Option<String>),
) -> FetchOutcome {
    FetchOutcome::Response {
        threads: parts.0,
        recommended_interval_secs: parts.1,
        validator: parts.2,
    }
}

/// Law: two consecutive answers outside the full-data status that carry no
/// validator header — the not-modified shape of a conditional fetch against
/// an unchanged resource — both come out as no-change cycles, and the
/// validator the engine sends stays the same through both fetches.
pub proof fn lemma_not_modified_answers_stay_unchanged(
    s: PollState,
    status1: u16,
    interval_header1: Option<String>,
    body1: Option<Vec<NotificationThread>>,
    status2: u16,
    interval_header2: Option<String>,
    body2: Option<Vec<NotificationThread>>,
)
    requires
        status1 != 200,
        status2 != 200,
    ensures
        ({
            let o1 = outcome_of(crate::client::interpreted(status1, interval_header1, None, body1));
            let o2 = outcome_of(crate::client::interpreted(status2, interval_header2, None, body2));
            &&& step_event(s, o1) is Unchanged
            &&& step_state(s, o1).last_validator == s.last_validator
            &&& step_event(step_state(s, o1), o2) is Unchanged
            &&& step_state(step_state(s, o1), o2).last_validator == s.last_validator
        }),
{
}

/// Law: a full-data answer with a list and a validator header comes out as
/// a changed cycle carrying that list, and the engine's validator becomes
/// the new one, whatever validator the fetch was made with.
pub proof fn lemma_full_data_answer_changes(
    s: PollState,
    interval_header: Option<String>,
    threads: Vec<NotificationThread>,
    validator: String,
)
    ensures
        ({
            let o = outcome_of(
                crate::client::interpreted(
                    200,
                    interval_header,
                    Some(validator),
                    Some(threads),
                ),
            );
            &&& step_event(s, o) == PollEvent::Changed(threads)
            &&& step_state(s, o).last_validator == Some(validator)
        }),
{
}

/// Law: a recommended interval is adopted at once — the state that decides
/// the very next sleep carries it, whatever the engine slept on before.
pub proof fn lemma_interval_adoption(
    s: PollState,
    threads: Option<Vec<NotificationThread>>,
    interval_secs: u64,
    validator: Option<String>,
)
    ensures
        step_state(
            s,
            FetchOutcome::Response {
                threads,
                recommended_interval_secs: Some(interval_secs),
                validator,
            },
        ).interval_secs == interval_secs,
{
}

} // verus!
