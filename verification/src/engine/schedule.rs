use vstd::prelude::*;

verus! {

/// Phases of a frame in which systems run, in execution order.
#[derive(Debug, Clone, Copy, PartialEq, Eq, Hash, Structural)]
pub enum Stage {
    Startup,
    PreUpdate,
    Update,
    FixedUpdate,
    LateUpdate,
    PreRender,
    Render,
    PostRender,
}

/// Request to switch (or reload) the active scene, consumed at the start of
/// the next frame. Holds the scene file path.
#[derive(Debug, Clone, Default)]
pub struct SceneChangeRequest(pub Option<String>);

/// Set by the pause menu's quit button; polled by the event loop.
#[derive(Debug, Default, Clone, Copy)]
pub struct QuitRequest(pub bool);

/// Path of the scene currently loaded (for the menu's "reset" action).
#[derive(Debug, Clone)]
pub struct CurrentScenePath(pub String);

/// Fixed-update ticks a frame may run before the backlog is dropped; a long
/// frame cannot start an unbounded catch-up spiral.
pub const MAX_FIXED_STEPS_PER_FRAME: u32 = 8;

/// What the frame does next in its fixed-update phase.
#[derive(Debug, Clone, Copy, PartialEq, Eq, Structural)]
pub enum FixedStep {
    /// Run one fixed-update tick.
    Tick,
    /// No tick is due: the phase ends.
    Stop,
    /// The per-frame budget is spent: drop the remaining backlog and end.
    StopAndDiscardBacklog,
}

/// The next fixed-update step after `taken` ticks this frame; `due` (whether
/// a tick is due) is consulted only while the budget lasts.
pub open spec fn spec_next_fixed_step(taken: u32, due: bool) -> FixedStep {
    if taken >= MAX_FIXED_STEPS_PER_FRAME {
        FixedStep::StopAndDiscardBacklog
    } else if due {
        FixedStep::Tick
    } else {
        FixedStep::Stop
    }
}

pub fn next_fixed_step(taken: u32, due: bool) -> (s: FixedStep)
    ensures
        s == spec_next_fixed_step(taken, due),
{
    if taken >= MAX_FIXED_STEPS_PER_FRAME {
        FixedStep::StopAndDiscardBacklog
    } else if due {
        FixedStep::Tick
    } else {
        FixedStep::Stop
    }
}

} // verus!
