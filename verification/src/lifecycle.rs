//! The render-state lifecycle: a draw tick either spawns the one
//! asynchronous initialization task, skips the frame while that task is
//! in flight, or draws on the published state.

use vstd::prelude::*;

verus! {

/// Where the shared render state stands between draw ticks.
#[derive(Clone, Copy, PartialEq, Eq, Structural, Debug)]
pub enum Phase {
    /// No state exists and no initialization task is in flight.
    Uninitialized,
    /// Exactly one initialization task has been spawned and has not
    /// completed yet.
    Initializing,
    /// The state has been published; every later tick draws on it.
    Ready,
}

/// What the host must do for the tick that just arrived.
#[derive(Clone, Copy, PartialEq, Eq, Structural, Debug)]
pub enum TickAction {
    /// Spawn the asynchronous initialization task; the frame is skipped.
    SpawnInit,
    /// Initialization is still in flight: drop this frame.
    SkipFrame,
    /// The state is ready: apply pending input and issue one render pass.
    Draw,
}

/// The action a draw tick takes in phase `p`.
pub open spec fn tick_action(p: Phase) -> TickAction {
    match p {
        Phase::Uninitialized => TickAction::SpawnInit,
        Phase::Initializing => TickAction::SkipFrame,
        Phase::Ready => TickAction::Draw,
    }
}

/// The phase after a draw tick in phase `p`: only the first tick moves
/// the lifecycle, into `Initializing`.
pub open spec fn tick_next(p: Phase) -> Phase {
    match p {
        Phase::Uninitialized => Phase::Initializing,
        Phase::Initializing => Phase::Initializing,
        Phase::Ready => Phase::Ready,
    }
}

/// How many initialization tasks `n` consecutive ticks spawn from
/// phase `p`, when no initialization completes in between.
pub open spec fn spawns_in_ticks(p: Phase, n: nat) -> nat
    decreases n,
{
    if n == 0 {
        0
    } else {
        (if tick_action(p) == TickAction::SpawnInit {
            1nat
        } else {
            0nat
        }) + spawns_in_ticks(tick_next(p), (n - 1) as nat)
    }
}

/// Tracks the phase across ticks and completion events.  The host holds
/// one `Lifecycle` per canvas next to its single-assignment state cell.
pub struct Lifecycle {
    phase: Phase,
}

impl Lifecycle {
    /// The current phase, for contracts.
    pub closed spec fn phase(&self) -> Phase {
        self.phase
    }

    /// A fresh lifecycle: nothing spawned, nothing published.
    pub fn new() -> (s: Self)
        ensures
            s.phase() == Phase::Uninitialized,
    {
        Lifecycle { phase: Phase::Uninitialized }
    }

    /// The current phase, for the host.
    pub fn current_phase(&self) -> (p: Phase)
        ensures
            p == self.phase(),
    {
        self.phase
    }

    /// One draw tick.  The returned action is the one the host must
    /// perform; the phase advances only on the tick that spawns.
    pub fn on_tick(&mut self) -> (a: TickAction)
        ensures
            a == tick_action(old(self).phase()),
            final(self).phase() == tick_next(old(self).phase()),
    {
        match self.phase {
            Phase::Uninitialized => {
                self.phase = Phase::Initializing;
                TickAction::SpawnInit
            },
            Phase::Initializing => TickAction::SkipFrame,
            Phase::Ready => TickAction::Draw,
        }
    }

    /// The initialization task finished and published the state.  The
    /// state is published exactly once: only the single in-flight task
    /// can report completion.
    pub fn on_init_success(&mut self)
        requires
            old(self).phase() == Phase::Initializing,
        ensures
            final(self).phase() == Phase::Ready,
    {
        self.phase = Phase::Ready;
    }

    /// The initialization task failed (no compatible adapter or device).
    /// Nothing was published, so a later tick may attempt again.
    pub fn on_init_failure(&mut self)
        requires
            old(self).phase() == Phase::Initializing,
        ensures
            final(self).phase() == Phase::Uninitialized,
    {
        self.phase = Phase::Uninitialized;
    }
}

/// Law: ticks that arrive while initialization has not completed spawn
/// no second task.  From a fresh lifecycle, any positive number of
/// consecutive ticks — in particular two — spawns exactly one
/// initialization task.
pub proof fn lemma_ticks_spawn_at_most_once(n: nat)
    ensures
        spawns_in_ticks(Phase::Uninitialized, n) == if n == 0 {
            0nat
        } else {
            1nat
        },
    decreases n,
{
    if n > 0 {
        lemma_initializing_spawns_nothing((n - 1) as nat);
    }
}

/// Law: while the single initialization task is in flight, every tick
/// skips its frame and spawns nothing.
pub proof fn lemma_initializing_spawns_nothing(n: nat)
    ensures
        spawns_in_ticks(Phase::Initializing, n) == 0,
    decreases n,
{
    if n > 0 {
        lemma_initializing_spawns_nothing((n - 1) as nat);
    }
}

} // verus!
