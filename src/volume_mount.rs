//! The pod state in which a runtime mounts the pod's volumes before it runs
//! the pod's containers.

use vstd::prelude::*;

verus! {

/// The phase a pod reports while in a state.
#[derive(Debug, Clone, Copy, PartialEq, Eq)]
pub enum Phase {
    Pending,
    Running,
    Failed,
}

/// Where the pod goes after mounting its volumes: on to running with the
/// mounted volumes, or to the error state with the reason.
#[derive(Debug, Clone, PartialEq, Eq)]
pub enum MountTransition<V> {
    Run(V),
    Error(String),
}

/// Kubelet is mounting the pod's volumes.
#[derive(Debug, Clone, Copy, PartialEq, Eq, Default)]
pub struct VolumeMount {}

impl VolumeMount {
    /// The state, entered anew.
    pub fn new() -> (r: Self) {
        VolumeMount {}
    }

    /// The next state, from the outcome of looking up the pod's volumes.
    pub fn next<V>(self, volumes: Result<V, String>) -> (r: MountTransition<V>)
        ensures
            volumes matches Ok(v) ==> r == MountTransition::<V>::Run(v),
            volumes matches Err(e) ==> r == MountTransition::<V>::Error(e),
    {
        match volumes {
            Ok(v) => MountTransition::Run(v),
            Err(e) => MountTransition::Error(e),
        }
    }

    /// The phase and message that the pod reports in this state.
    pub fn json_status(&self) -> (r: (Phase, String))
        ensures
            r.0 == Phase::Pending,
            r.1@ == "VolumeMount"@,
    {
        (Phase::Pending, String::from_str("VolumeMount"))
    }
}

} // verus!
