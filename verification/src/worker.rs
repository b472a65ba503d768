//! Worker lifecycle: the credential gate at startup, the unbounded
//! session retry loop, and cooperative cancellation.
//!
//! A worker owns one gateway session for one server entry.  An invalid
//! credential is fatal to that worker alone, found before any session is
//! opened.  With a valid credential the worker runs its session forever,
//! restarting it immediately whenever it ends; it terminates only when
//! the supervisor cancels it.

use vstd::prelude::*;

use crate::config::ServerConfig;

verus! {

/// Fatal misconfiguration, found at worker startup before any session is
/// opened; it never crosses to other workers.
#[derive(Clone, Debug)]
pub enum Error {
    /// The gateway credential is not of a shape the gateway accepts; the
    /// rejected credential is carried along.
    InvalidToken(String),
}

/// `s` with every leading `"Bot "` marker removed — the prefix the
/// gateway client strips before it inspects a credential.
pub open spec fn spec_strip_bot(s: Seq<char>) -> Seq<char>
    decreases s.len(),
{
    if s.len() >= 4 && s[0] == 'B' && s[1] == 'o' && s[2] == 't' && s[3] == ' ' {
        spec_strip_bot(s.subrange(4, s.len() as int))
    } else {
        s
    }
}

/// Exactly three non-empty parts separated by `'.'`: the string holds
/// exactly two dots, the first not at the start, the two not adjacent,
/// the second not at the end.
pub open spec fn spec_token_shape(s: Seq<char>) -> bool {
    exists|i: int, j: int|
        {
            &&& 1 <= i
            &&& i + 2 <= j
            &&& j + 2 <= s.len()
            &&& s[i] == '.'
            &&& s[j] == '.'
            &&& forall|k: int| 0 <= k < s.len() && s[k] == '.' ==> k == i || k == j
        }
}

/// A credential of the shape the gateway accepts: after leading `"Bot "`
/// markers are removed, three non-empty dot-separated parts remain.
pub open spec fn spec_valid_credential(s: Seq<char>) -> bool {
    spec_token_shape(spec_strip_bot(s))
}

/// Relies on `serenity::utils::token::validate`: it trims every leading
/// `"Bot "` from the credential, splits the rest on `'.'`, and accepts
/// exactly three non-empty parts.
#[verifier::external_body]
fn credential_accepted(credential: &str) -> (r: bool)
    ensures
        r == spec_valid_credential(credential@),
{
    serenity::utils::token::validate(credential).is_ok()
}

/// The startup gate of a worker: passes exactly the credentials the
/// gateway client accepts, and fails with the fatal, worker-local
/// [`Error::InvalidToken`] carrying the rejected credential.  No session
/// is ever attempted for a worker that fails here.
pub fn check_credential(config: &ServerConfig) -> (r: Result<(), Error>)
    ensures
        r is Ok <==> spec_valid_credential(config.credential@),
        r matches Err(e) ==> (e matches Error::InvalidToken(t) && t@ == config.credential@),
{
    if credential_accepted(config.credential.as_str()) {
        Ok(())
    } else {
        Err(Error::InvalidToken(config.credential.clone()))
    }
}

/// Lifecycle phase of a worker that passed the credential gate.
#[derive(Clone, Copy, Debug, PartialEq, Eq, Structural)]
pub enum WorkerPhase {
    /// Session-run loop and watchdog are up.
    Running,
    /// The worker acknowledged cancellation and is done.
    Stopped,
}

/// What a worker task observes while it runs.
#[derive(Clone, Copy, Debug, PartialEq, Eq, Structural)]
pub enum WorkerEvent {
    /// The gateway session ended — network drop, auth revocation,
    /// server-side disconnect, or even a clean return.
    SessionEnded,
    /// The supervisor requested cancellation.
    CancelRequested,
}

/// What the worker task must do after an event.
#[derive(Clone, Copy, Debug, PartialEq, Eq, Structural)]
pub enum WorkerDirective {
    /// Start the gateway session again at once: no backoff, no retry
    /// limit — the intent is to stay connected forever.
    RestartSession,
    /// Tear session and watchdog down; the worker is finished.
    TearDown,
}

/// The worker's reaction to one event: a running worker restarts its
/// session on every session end and stops only on cancellation; a
/// stopped worker stays stopped.
pub open spec fn spec_worker_step(phase: WorkerPhase, event: WorkerEvent) -> (
    WorkerPhase,
    WorkerDirective,
) {
    match (phase, event) {
        (WorkerPhase::Running, WorkerEvent::SessionEnded) => (
            WorkerPhase::Running,
            WorkerDirective::RestartSession,
        ),
        (WorkerPhase::Running, WorkerEvent::CancelRequested) => (
            WorkerPhase::Stopped,
            WorkerDirective::TearDown,
        ),
        (WorkerPhase::Stopped, _) => (WorkerPhase::Stopped, WorkerDirective::TearDown),
    }
}

/// One decision of the worker's loop.
pub fn worker_step(phase: WorkerPhase, event: WorkerEvent) -> (r: (WorkerPhase, WorkerDirective))
    ensures
        r == spec_worker_step(phase, event),
{
    match (phase, event) {
        (WorkerPhase::Running, WorkerEvent::SessionEnded) => (
            WorkerPhase::Running,
            WorkerDirective::RestartSession,
        ),
        (WorkerPhase::Running, WorkerEvent::CancelRequested) => (
            WorkerPhase::Stopped,
            WorkerDirective::TearDown,
        ),
        (WorkerPhase::Stopped, _) => (WorkerPhase::Stopped, WorkerDirective::TearDown),
    }
}

/// The phase a launched worker is in after seeing `events` in order.
pub open spec fn spec_phase_after(events: Seq<WorkerEvent>) -> WorkerPhase
    decreases events.len(),
{
    if events.len() == 0 {
        WorkerPhase::Running
    } else {
        spec_worker_step(spec_phase_after(events.drop_last()), events.last()).0
    }
}

/// How many sessions a launched worker has started after seeing `events`:
/// one at launch, one more for every session end seen while running.
pub open spec fn spec_sessions_started(events: Seq<WorkerEvent>) -> nat
    decreases events.len(),
{
    if events.len() == 0 {
        1
    } else {
        spec_sessions_started(events.drop_last()) + if spec_phase_after(events.drop_last())
            is Running && events.last() is SessionEnded {
            1nat
        } else {
            0nat
        }
    }
}

/// A worker whose sessions always end immediately retries without bound:
/// after any number of session ends it is still running, and it has
/// started one session more than the number of ends.  It never
/// terminates on its own.
pub proof fn lemma_retry_without_bound(events: Seq<WorkerEvent>)
    requires
        forall|k: int| 0 <= k < events.len() ==> (#[trigger] events[k]) is SessionEnded,
    ensures
        spec_phase_after(events) is Running,
        spec_sessions_started(events) == events.len() + 1,
    decreases events.len(),
{
    if events.len() > 0 {
        lemma_retry_without_bound(events.drop_last());
    }
}

/// A worker terminates only cooperatively: if it has stopped, some event
/// was a cancellation request.
pub proof fn lemma_stop_needs_cancellation(events: Seq<WorkerEvent>)
    requires
        spec_phase_after(events) is Stopped,
    ensures
        exists|k: int| 0 <= k < events.len() && (#[trigger] events[k]) is CancelRequested,
    decreases events.len(),
{
    if events.last() is CancelRequested {
        assert(events[events.len() - 1] is CancelRequested);
    } else {
        lemma_stop_needs_cancellation(events.drop_last());
        let k = choose|k: int|
            0 <= k < events.len() - 1 && (#[trigger] events.drop_last()[k]) is CancelRequested;
        assert(events[k] is CancelRequested);
    }
}

} // verus!
