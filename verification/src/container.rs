use vstd::prelude::*;

use crate::queued_container::QueuedContainer;

verus! {

/// What this crate reads of a running instance as the external runtime
/// reports it: each field is plain display text, absent when the runtime did
/// not supply it.
#[derive(Debug)]
pub struct ContainerSummary {
    pub id: Option<String>,
    pub image: Option<String>,
    pub command: Option<String>,
    pub created: Option<String>,
    pub names: Option<Vec<String>>,
}

/// A running instance: one this queue launched into its slot (managed), or one started
/// outside it.
#[derive(Debug)]
pub enum RunningContainer {
    Managed(ContainerSummary),
    External(ContainerSummary),
}

impl RunningContainer {
    /// The runtime's summary of the instance, however it is tagged.
    pub open spec fn summary_spec(&self) -> ContainerSummary {
        match self {
            RunningContainer::Managed(s) => *s,
            RunningContainer::External(s) => *s,
        }
    }
}

/// One entry of a listing: a live running instance, or a pending request
/// with its `Queued` or `Paused` status.
#[derive(Debug)]
pub enum Container {
    Running(RunningContainer),
    Queued(QueuedContainer),
}

} // verus!
