//! What the agent asks of the local container runtime, and the listing it
//! reports back.
use bollard_stubs::models::ContainerSummary as RuntimeContainer;
use crate::text::texts_model;
use vstd::prelude::*;

verus! {

#[verifier::external_type_specification]
#[verifier::external_body]
pub struct ExRuntimeContainer(RuntimeContainer);

/// The containers the runtime listed, as reported to the control plane.
pub struct ContainerSummary {
    pub containers: Vec<RuntimeContainer>,
}

impl ContainerSummary {
    /// Wraps a fresh listing.
    pub fn new(containers: Vec<RuntimeContainer>) -> (r: ContainerSummary)
        ensures
            r.containers@ == containers@,
    {
        ContainerSummary { containers }
    }

    /// A listing with no containers, reported when the runtime could not be
    /// reached once the agent is running.
    pub fn empty() -> (r: ContainerSummary)
        ensures
            r.containers@.len() == 0,
    {
        ContainerSummary { containers: Vec::new() }
    }

    /// How many containers were listed.
    pub fn len(&self) -> (r: usize)
        ensures
            r == self.containers@.len(),
    {
        self.containers.len()
    }
}

/// The filter key under which the runtime selects containers by state.
pub open spec fn status_key() -> Seq<char> {
    "status"@
}

/// The lifecycle states a listing asks for: every state but restarting.
pub open spec fn listed_states() -> Seq<Seq<char>> {
    seq!["exited"@, "running"@, "created"@, "removing"@, "paused"@, "dead"@]
}

/// The state filter of a container listing: its key and the states it admits.
/// The listing always asks for all containers, stopped ones included, and lets
/// the runtime apply this filter.
pub fn status_filter() -> (r: (String, Vec<String>))
    ensures
        r.0@ == status_key(),
        texts_model(r.1@) == listed_states(),
{
    let mut states: Vec<String> = Vec::new();
    states.push(String::from_str("exited"));
    states.push(String::from_str("running"));
    states.push(String::from_str("created"));
    states.push(String::from_str("removing"));
    states.push(String::from_str("paused"));
    states.push(String::from_str("dead"));
    assert(texts_model(states@) =~= listed_states());
    (String::from_str("status"), states)
}

/// When the agent meets a failure.
#[derive(Clone, Copy, Debug, PartialEq, Eq, Structural)]
pub enum Phase {
    /// Before the dispatch loop starts.
    Startup,
    /// While the dispatch loop runs.
    SteadyState,
}

/// Whether an unreachable runtime ends the agent: only at startup, where it
/// means the agent can do no useful work; later the listing comes back empty.
pub fn runtime_unavailable_is_fatal(phase: Phase) -> (r: bool)
    ensures
        r == (phase == Phase::Startup),
{
    match phase {
        Phase::Startup => true,
        Phase::SteadyState => false,
    }
}

} // verus!
