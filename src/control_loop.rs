use vstd::prelude::*;

verus! {

/// A transition observed on the input line.
#[derive(Clone, Copy, Debug, PartialEq, Eq, Structural)]
pub enum Edge {
    Rising,
    Falling,
}

/// Which edge the control loop is waiting for.
#[derive(Clone, Copy, Debug, PartialEq, Eq, Structural)]
pub enum LoopPhase {
    AwaitRising,
    AwaitFalling,
}

/// What the control loop asks to be done after an edge.
#[derive(Clone, Copy, Debug, PartialEq, Eq, Structural)]
pub enum LoopCommand {
    /// Spawn one new activity.
    Spawn,
    /// Raise the stop request.
    RaiseCancel,
}

/// Why the controller could not carry out a command.
#[derive(Clone, Copy, Debug, PartialEq, Eq, Structural)]
pub enum ControlError {
    /// The scheduler had no room for another activity.
    SpawnRefused,
}

/// Pairs each rising edge with the next falling edge: a rising edge starts an
/// activity, the matching falling edge stops it. An edge that arrives while
/// the loop waits for the other kind is not observed.
pub struct ControlLoop {
    phase: LoopPhase,
}

impl ControlLoop {
    /// The phase the loop is in.
    pub closed spec fn phase(&self) -> LoopPhase {
        self.phase
    }

    /// A loop waiting for the first rising edge.
    pub fn new() -> (r: Self)
        ensures
            r.phase() == LoopPhase::AwaitRising,
    {
        ControlLoop { phase: LoopPhase::AwaitRising }
    }

    /// The phase the loop is in.
    pub fn current_phase(&self) -> (r: LoopPhase)
        ensures
            r == self.phase(),
    {
        self.phase
    }

    /// Reacts to one edge.
    pub fn on_edge(&mut self, edge: Edge) -> (r: Option<LoopCommand>)
        ensures
            match (old(self).phase(), edge) {
                (LoopPhase::AwaitRising, Edge::Rising) => r == Some(LoopCommand::Spawn)
                    && final(self).phase() == LoopPhase::AwaitFalling,
                (LoopPhase::AwaitFalling, Edge::Falling) => r == Some(LoopCommand::RaiseCancel)
                    && final(self).phase() == LoopPhase::AwaitRising,
                _ => r == None::<LoopCommand> && final(self).phase() == old(self).phase(),
            },
    {
        match (self.phase, edge) {
            (LoopPhase::AwaitRising, Edge::Rising) => {
                self.phase = LoopPhase::AwaitFalling;
                Some(LoopCommand::Spawn)
            },
            (LoopPhase::AwaitFalling, Edge::Falling) => {
                self.phase = LoopPhase::AwaitRising;
                Some(LoopCommand::RaiseCancel)
            },
            _ => None,
        }
    }
}

} // verus!
