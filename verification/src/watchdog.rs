//! The activity watchdog: a two-state machine that keeps the displayed
//! status fresh and breaks sessions out of a wedged reconnect.
//!
//! Each tick the surrounding task reads the session's connection stage —
//! a short-lived read, with no lock held across a probe or a sleep — and
//! hands it to [`Watchdog::observe`].  The returned [`TickAction`] tells
//! the task what this tick does: probe and push, re-check the stage at
//! once, or shut the session down and reinitialize it.

use vstd::prelude::*;

use crate::stage::ConnectionStage;

verus! {

/// The watchdog's state between ticks.
#[derive(Clone, Copy, Debug, PartialEq, Eq, Structural)]
pub enum WatchdogMode {
    /// The session looked healthy at the last tick.
    Normal,
    /// The last tick saw the `Connecting` stage; the next observation
    /// decides whether the session is wedged.
    StuckSuspected,
}

/// What one tick of the watchdog does.
#[derive(Clone, Copy, Debug, PartialEq, Eq, Structural)]
pub enum TickAction {
    /// Probe the game server, push the derived activity to the session,
    /// then sleep for the refresh interval.
    ProbeAndPush,
    /// First sighting of `Connecting`: no probe, no push, no sleep —
    /// re-check the stage at the next scheduling opportunity.
    HoldAndRecheck,
    /// Confirmed stuck: shut the session's run state down and ask the
    /// handle to reinitialize, then sleep; no probe, no push this tick.
    RestartSession,
}

impl TickAction {
    /// Only a healthy tick probes the game server and pushes activity.
    pub fn probes(&self) -> (r: bool)
        ensures
            r == (*self is ProbeAndPush),
    {
        matches!(self, TickAction::ProbeAndPush)
    }

    /// A first `Connecting` sighting is re-checked without sleeping; every
    /// other tick ends with the refresh-interval sleep.
    pub fn sleeps(&self) -> (r: bool)
        ensures
            r == (*self !is HoldAndRecheck),
    {
        !matches!(self, TickAction::HoldAndRecheck)
    }

    /// Whether this tick shuts the session down and reinitializes it.
    pub fn restarts(&self) -> (r: bool)
        ensures
            r == (*self is RestartSession),
    {
        matches!(self, TickAction::RestartSession)
    }
}

/// One tick of the watchdog: the next mode and this tick's action, from
/// the mode before the tick and the stage just observed.
///
/// Only the `Connecting` stage is ever acted on.  A first sighting makes
/// the stuck state suspected and holds the probe; a second, confirming
/// sighting triggers one restart and returns to normal — whatever the
/// restart call reports, since a failed restart shows up as `Connecting`
/// again on a later tick.  Any other stage means a normal poll cycle.
pub open spec fn spec_tick(mode: WatchdogMode, stage: ConnectionStage) -> (WatchdogMode, TickAction) {
    match mode {
        WatchdogMode::Normal => if stage is Connecting {
            (WatchdogMode::StuckSuspected, TickAction::HoldAndRecheck)
        } else {
            (WatchdogMode::Normal, TickAction::ProbeAndPush)
        },
        WatchdogMode::StuckSuspected => if stage is Connecting {
            (WatchdogMode::Normal, TickAction::RestartSession)
        } else {
            (WatchdogMode::Normal, TickAction::ProbeAndPush)
        },
    }
}

/// The watchdog driving one worker's session; exactly one per session
/// handle, started with the worker and never restarted per reconnect.
#[derive(Clone, Copy, Debug, PartialEq, Eq, Structural)]
pub struct Watchdog {
    pub mode: WatchdogMode,
}

impl Watchdog {
    /// A fresh watchdog suspects nothing.
    pub fn new() -> (w: Self)
        ensures
            w.mode is Normal,
    {
        Watchdog { mode: WatchdogMode::Normal }
    }

    /// Feed one stage observation into the watchdog and learn what this
    /// tick does.  The stage must be read without holding any session
    /// lock, and the action performed only after the read lock is gone.
    pub fn observe(&mut self, stage: ConnectionStage) -> (action: TickAction)
        ensures
            (final(self).mode, action) == spec_tick(old(self).mode, stage),
            action is RestartSession ==> old(self).mode is StuckSuspected && stage is Connecting,
            stage !is Connecting ==> action is ProbeAndPush && final(self).mode is Normal,
    {
        match self.mode {
            WatchdogMode::Normal => {
                if stage.is_connecting() {
                    self.mode = WatchdogMode::StuckSuspected;
                    TickAction::HoldAndRecheck
                } else {
                    TickAction::ProbeAndPush
                }
            },
            WatchdogMode::StuckSuspected => {
                self.mode = WatchdogMode::Normal;
                if stage.is_connecting() {
                    TickAction::RestartSession
                } else {
                    TickAction::ProbeAndPush
                }
            },
        }
    }
}

/// The mode a fresh watchdog is in after observing `stages` in order.
pub open spec fn spec_mode_after(stages: Seq<ConnectionStage>) -> WatchdogMode
    decreases stages.len(),
{
    if stages.len() == 0 {
        WatchdogMode::Normal
    } else {
        spec_tick(spec_mode_after(stages.drop_last()), stages.last()).0
    }
}

/// The action a fresh watchdog takes at tick `i` of the observations
/// `stages`.
pub open spec fn spec_action_at(stages: Seq<ConnectionStage>, i: int) -> TickAction
    recommends
        0 <= i < stages.len(),
{
    spec_tick(spec_mode_after(stages.take(i)), stages[i]).1
}

/// The stuck state is only ever suspected right after a `Connecting`
/// observation.
pub proof fn lemma_suspicion_needs_connecting(stages: Seq<ConnectionStage>)
    ensures
        spec_mode_after(stages) is StuckSuspected ==> stages.len() > 0 && stages.last() is Connecting,
{
}

/// Restarts need confirmation: no tick that observes a stage other than
/// `Connecting` restarts the session, and neither does one whose previous
/// tick's observation was not `Connecting`.  Repeated sightings of any
/// non-`Connecting` stage therefore never trigger a restart.
pub proof fn lemma_restart_only_when_confirmed(stages: Seq<ConnectionStage>, i: int)
    requires
        0 <= i < stages.len(),
    ensures
        stages[i] !is Connecting ==> spec_action_at(stages, i) !is RestartSession,
        i == 0 ==> spec_action_at(stages, i) !is RestartSession,
        i > 0 && stages[i - 1] !is Connecting ==> spec_action_at(stages, i) !is RestartSession,
{
    lemma_suspicion_needs_connecting(stages.take(i));
    if i > 0 {
        assert(stages.take(i).last() == stages[i - 1]);
    }
}

/// A tick that sees `Connecting` from the normal mode holds the probe and
/// the push; the next tick, if it confirms the sighting, issues exactly
/// one restart and the watchdog is normal again.
pub proof fn lemma_confirmed_stuck_restarts_once(stages: Seq<ConnectionStage>, i: int)
    requires
        0 <= i,
        i + 1 < stages.len(),
        spec_mode_after(stages.take(i)) is Normal,
        stages[i] is Connecting,
        stages[i + 1] is Connecting,
    ensures
        spec_action_at(stages, i) is HoldAndRecheck,
        spec_action_at(stages, i + 1) is RestartSession,
        spec_mode_after(stages.take(i + 2)) is Normal,
{
    assert(stages.take(i + 1).drop_last() =~= stages.take(i));
    assert(stages.take(i + 2).drop_last() =~= stages.take(i + 1));
}

/// Replay a whole run of stage observations on a fresh watchdog and
/// collect the action of every tick.
pub fn run_ticks(stages: &Vec<ConnectionStage>) -> (actions: Vec<TickAction>)
    ensures
        actions@.len() == stages@.len(),
        forall|i: int| 0 <= i < stages@.len() ==> actions@[i] == spec_action_at(stages@, i),
{
    let mut watchdog = Watchdog::new();
    let mut actions: Vec<TickAction> = Vec::new();
    let mut k: usize = 0;
    proof {
        assert(stages@.take(0) =~= Seq::<ConnectionStage>::empty());
    }
    while k < stages.len()
        invariant
            k <= stages@.len(),
            actions@.len() == k,
            watchdog.mode == spec_mode_after(stages@.take(k as int)),
            forall|i: int| 0 <= i < k ==> actions@[i] == spec_action_at(stages@, i),
        decreases stages@.len() - k,
    {
        let action = watchdog.observe(stages[k]);
        actions.push(action);
        k = k + 1;
        proof {
            assert(stages@.take(k as int).drop_last() =~= stages@.take(k as int - 1));
            assert(stages@.take(k as int).last() == stages@[k as int - 1]);
        }
    }
    actions
}

/// How many of the collected actions restart the session.
pub open spec fn spec_restart_count(actions: Seq<TickAction>) -> nat
    decreases actions.len(),
{
    if actions.len() == 0 {
        0
    } else {
        spec_restart_count(actions.drop_last()) + if actions.last() is RestartSession {
            1nat
        } else {
            0nat
        }
    }
}

/// Count the restart actions of a replayed run.
pub fn count_restarts(actions: &Vec<TickAction>) -> (n: usize)
    ensures
        n == spec_restart_count(actions@),
{
    let mut n: usize = 0;
    let mut k: usize = 0;
    proof {
        assert(actions@.take(0) =~= Seq::<TickAction>::empty());
    }
    while k < actions.len()
        invariant
            k <= actions@.len(),
            n <= k,
            n == spec_restart_count(actions@.take(k as int)),
        decreases actions@.len() - k,
    {
        if actions[k].restarts() {
            n = n + 1;
        }
        k = k + 1;
        proof {
            assert(actions@.take(k as int).drop_last() =~= actions@.take(k as int - 1));
            assert(actions@.take(k as int).last() == actions@[k as int - 1]);
        }
    }
    proof {
        assert(actions@.take(actions@.len() as int) =~= actions@);
    }
    n
}

} // verus!
