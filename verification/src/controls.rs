use vstd::prelude::*;

verus! {

/// The two switches that the user flips from outside the render loop: whether the
/// simulation is paused, and whether a restart has been asked for and not yet
/// carried out.
#[derive(Clone, Copy, Debug, PartialEq, Eq, Structural)]
pub struct SimControls {
    pub paused: bool,
    pub restart_pending: bool,
}

/// The switches with the pause flipped.
pub open spec fn paused_toggled(c: SimControls) -> SimControls {
    SimControls { paused: !c.paused, ..c }
}

/// The switches with a restart asked for.
pub open spec fn restart_requested(c: SimControls) -> SimControls {
    SimControls { restart_pending: true, ..c }
}

/// The switches once a pending restart has been taken up.
pub open spec fn restart_taken(c: SimControls) -> SimControls {
    SimControls { restart_pending: false, ..c }
}

impl SimControls {
    /// Running, with no restart pending.
    pub fn new() -> (c: SimControls)
        ensures
            c == (SimControls { paused: false, restart_pending: false }),
    {
        SimControls { paused: false, restart_pending: false }
    }

    /// Reports whether a restart is pending and clears it, so that each request is
    /// carried out once.
    pub fn take_restart(&mut self) -> (pending: bool)
        ensures
            pending == old(self).restart_pending,
            *final(self) == restart_taken(*old(self)),
            !final(self).restart_pending,
            final(self).paused == old(self).paused,
    {
        let pending = self.restart_pending;
        self.restart_pending = false;
        pending
    }
}

/// Pauses a running simulation, or resumes a paused one.
pub fn toggle_pause(controls: &mut SimControls)
    ensures
        *final(controls) == paused_toggled(*old(controls)),
        final(controls).paused != old(controls).paused,
        final(controls).restart_pending == old(controls).restart_pending,
{
    controls.paused = !controls.paused;
}

/// Asks for the simulation to start over at the next frame.
pub fn restart_simulation(controls: &mut SimControls)
    ensures
        *final(controls) == restart_requested(*old(controls)),
        final(controls).restart_pending,
        final(controls).paused == old(controls).paused,
{
    controls.restart_pending = true;
}

/// Pausing twice gives back the switches as they were.
pub proof fn lemma_toggle_pause_twice(c: SimControls)
    ensures
        paused_toggled(paused_toggled(c)) == c,
{
}

/// A requested restart is taken up exactly once, and neither step touches the pause.
pub proof fn lemma_restart_taken_once(c: SimControls)
    ensures
        restart_requested(c).restart_pending,
        !restart_taken(restart_requested(c)).restart_pending,
        restart_taken(restart_requested(c)).paused == c.paused,
        restart_taken(restart_taken(restart_requested(c))) == restart_taken(restart_requested(c)),
{
}

/// Pausing flips the pause and nothing else; a restart request sets the pending
/// flag and nothing else; taking it up clears the flag and nothing else.
pub proof fn lemma_switches_independent(c: SimControls)
    ensures
        paused_toggled(c).paused != c.paused,
        paused_toggled(c).restart_pending == c.restart_pending,
        restart_requested(c).restart_pending,
        restart_requested(c).paused == c.paused,
        !restart_taken(c).restart_pending,
        restart_taken(c).paused == c.paused,
{
}

} // verus!
