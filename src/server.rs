use vstd::prelude::*;
use crate::attributes::VariableAttributes;
use crate::node_id::{NodeId, QualifiedName};
use crate::status::{Error, StatusCode, GOOD};

verus! {

/// Attributes of an object node: none beyond what every node has.
#[derive(Clone, Copy, Debug, PartialEq, Eq, Structural)]
pub struct ObjectAttributes {}

impl ObjectAttributes {
    /// Default object attributes.
    pub fn new() -> (r: ObjectAttributes)
        ensures
            r == (ObjectAttributes {}),
    {
        ObjectAttributes {}
    }
}

/// Request to create an object node.
pub struct ObjectNode {
    pub requested_new_node_id: NodeId,
    pub parent_node_id: NodeId,
    pub reference_type_id: NodeId,
    pub browse_name: QualifiedName,
    pub type_definition: NodeId,
    pub attributes: ObjectAttributes,
}

/// Request to create a variable node, backed by static storage or by a data source.
pub struct VariableNode {
    pub requested_new_node_id: NodeId,
    pub parent_node_id: NodeId,
    pub reference_type_id: NodeId,
    pub browse_name: QualifiedName,
    pub type_definition: NodeId,
    pub attributes: VariableAttributes,
}

/// The outcome of a node operation, from the status that the native call reported.
pub open spec fn spec_status_result(status: StatusCode) -> Result<(), Error> {
    if status.code == GOOD {
        Ok(())
    } else {
        Err(Error { status })
    }
}

/// Resolves the status that a native node operation (add, delete) reported: success
/// exactly when it is good, else an error carrying that status.
pub fn status_result(status: StatusCode) -> (r: Result<(), Error>)
    ensures
        r == spec_status_result(status),
{
    if status.is_good() {
        Ok(())
    } else {
        Err(Error::new(status))
    }
}

/// Phase of the runner that owns the blocking event loop.
#[derive(Clone, Copy, Debug, PartialEq, Eq, Structural)]
pub enum RunnerPhase {
    /// Not started yet.
    Idle,
    /// Processing network events.
    Running,
    /// Shut down in order; the loop has returned.
    Stopped,
}

/// What the caller that drives the native server performs next.
#[derive(Clone, Copy, Debug, PartialEq, Eq, Structural)]
pub enum RunnerAction {
    /// Start the native server.
    Startup,
    /// Process one round of network events.
    Iterate,
    /// Shut the native server down and return from the loop.
    Shutdown,
    /// Nothing more: the loop has returned.
    Done,
}

/// The runner's next phase and action, given its phase and whether a stop was requested
/// since the last round.
pub open spec fn spec_runner_step(phase: RunnerPhase, stop_requested: bool) -> (
    RunnerPhase,
    RunnerAction,
) {
    match phase {
        RunnerPhase::Idle => (RunnerPhase::Running, RunnerAction::Startup),
        RunnerPhase::Running => if stop_requested {
            (RunnerPhase::Stopped, RunnerAction::Shutdown)
        } else {
            (RunnerPhase::Running, RunnerAction::Iterate)
        },
        RunnerPhase::Stopped => (RunnerPhase::Stopped, RunnerAction::Done),
    }
}

/// Decisions of the runner's event loop. The stop condition is checked between rounds,
/// never inside one.
pub struct Runner {
    phase: RunnerPhase,
}

impl Runner {
    pub closed spec fn spec_phase(&self) -> RunnerPhase {
        self.phase
    }

    /// A runner that has not started.
    pub fn new() -> (r: Runner)
        ensures
            r.spec_phase() == RunnerPhase::Idle,
    {
        Runner { phase: RunnerPhase::Idle }
    }

    /// Returns the runner's phase.
    pub fn phase(&self) -> (r: RunnerPhase)
        ensures
            r == self.spec_phase(),
    {
        self.phase
    }

    /// Takes one decision of the loop: the action to perform next.
    pub fn step(&mut self, stop_requested: bool) -> (r: RunnerAction)
        ensures
            (final(self).spec_phase(), r) == spec_runner_step(old(self).spec_phase(), stop_requested),
    {
        let (phase, action) = match self.phase {
            RunnerPhase::Idle => (RunnerPhase::Running, RunnerAction::Startup),
            RunnerPhase::Running => {
                if stop_requested {
                    (RunnerPhase::Stopped, RunnerAction::Shutdown)
                } else {
                    (RunnerPhase::Running, RunnerAction::Iterate)
                }
            },
            RunnerPhase::Stopped => (RunnerPhase::Stopped, RunnerAction::Done),
        };
        self.phase = phase;
        action
    }
}

/// Once stopped, the runner stays stopped and performs nothing more; while running
/// without a stop request it keeps iterating, and a stop request always ends the loop.
pub proof fn runner_stops_once(phase: RunnerPhase, stop_requested: bool)
    ensures
        phase == RunnerPhase::Stopped ==> spec_runner_step(phase, stop_requested) == (
        RunnerPhase::Stopped,
        RunnerAction::Done,
        ),
        phase == RunnerPhase::Running && stop_requested ==> spec_runner_step(
            phase,
            stop_requested,
        ).1 == RunnerAction::Shutdown,
        spec_runner_step(phase, stop_requested).1 == RunnerAction::Shutdown ==> spec_runner_step(
            spec_runner_step(phase, stop_requested).0,
            false,
        ).1 == RunnerAction::Done,
{
}

impl Default for ObjectAttributes {
    fn default() -> (r: ObjectAttributes)
        ensures
            r == (ObjectAttributes {}),
    {
        ObjectAttributes::new()
    }
}

} // verus!
