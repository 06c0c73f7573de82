use vstd::prelude::*;

use crate::container::{Container, RunningContainer};
use crate::queued_container::{QueuedContainer, QueuedContainerStatus};
use crate::running_container_id::RunningContainerId;

verus! {

// The queue store: the ordered pending requests plus the single optional
// running slot, the only shared mutable state of the system. A surrounding
// program keeps one `State` behind a lock; every method here is one critical
// section, so the compound check-and-pop below is atomic by construction.

/// The mathematical content of the store: the pending queue in promotion
/// order and the slot's occupant, if any.
pub struct StateView {
    pub queue: Seq<QueuedContainer>,
    pub running: Option<RunningContainerId>,
}

/// The shared queue-and-slot state.
pub struct State {
    queued_containers: Vec<QueuedContainer>,
    running_container: Option<RunningContainerId>,
}

impl View for State {
    type V = StateView;

    closed spec fn view(&self) -> StateView {
        StateView { queue: self.queued_containers@, running: self.running_container }
    }
}

/// Appending a request leaves everything else untouched.
pub open spec fn submit_spec(s: StateView, c: QueuedContainer) -> StateView {
    StateView { queue: s.queue.push(c), running: s.running }
}

/// A promotion can happen exactly when the slot is empty and a request is
/// pending.
pub open spec fn pop_ready(s: StateView) -> bool {
    s.running is None && s.queue.len() > 0
}

/// The state after a promotion attempt: the head leaves the queue when the
/// attempt is ready, nothing changes otherwise.
pub open spec fn pop_spec(s: StateView) -> StateView {
    if pop_ready(s) {
        StateView { queue: s.queue.skip(1), running: s.running }
    } else {
        s
    }
}

/// What a promotion attempt hands to the launcher: the queue head, exactly
/// when the attempt is ready.
pub open spec fn popped_spec(s: StateView) -> Option<QueuedContainer> {
    if pop_ready(s) {
        Some(s.queue[0])
    } else {
        None
    }
}

/// Recording a successful launch fills the slot and touches nothing else.
pub open spec fn record_launch_spec(s: StateView, id: RunningContainerId) -> StateView {
    StateView { queue: s.queue, running: Some(id) }
}

/// A completion report empties the slot and touches nothing else.
pub open spec fn clear_running_spec(s: StateView) -> StateView {
    StateView { queue: s.queue, running: None }
}

/// The listing a query returns: the live running entries first, then the
/// queue snapshot in promotion order.
pub open spec fn containers_view(
    running: Seq<RunningContainer>,
    queue: Seq<QueuedContainer>,
) -> Seq<Container> {
    running.map_values(|rc: RunningContainer| Container::Running(rc)) + queue.map_values(
        |qc: QueuedContainer| Container::Queued(qc),
    )
}

impl State {
    /// A store with no pending requests and an empty slot.
    pub fn new() -> (s: Self)
        ensures
            s@.queue == Seq::<QueuedContainer>::empty(),
            s@.running is None,
    {
        State { queued_containers: Vec::new(), running_container: None }
    }

    /// Append a request to the queue tail; the result says whether the
    /// submitter should wake the coordinator, which is exactly when the
    /// request arrived with `Queued` status.
    pub fn submit(&mut self, container: QueuedContainer) -> (check_run: bool)
        ensures
            final(self)@ == submit_spec(old(self)@, container),
            check_run == (container.status_spec() == QueuedContainerStatus::Queued),
    {
        let check_run = container.is_queued();
        self.queued_containers.push(container);
        check_run
    }

    /// The atomic compound promotion step: under one exclusive access, check
    /// that the slot is empty and the queue is not, and only then remove and
    /// return the head. Never split into a separate check and pop.
    pub fn try_pop_head_if_slot_empty(&mut self) -> (r: Option<QueuedContainer>)
        ensures
            final(self)@ == pop_spec(old(self)@),
            r == popped_spec(old(self)@),
    {
        if self.running_container.is_none() && self.queued_containers.len() > 0 {
            let head = self.queued_containers.remove(0);
            proof {
                assert(old(self)@.queue.remove(0) =~= old(self)@.queue.skip(1));
            }
            Some(head)
        } else {
            None
        }
    }

    /// Record the instance a successful launch produced as the slot's
    /// occupant.
    pub fn record_launch(&mut self, id: RunningContainerId)
        ensures
            final(self)@ == record_launch_spec(old(self)@, id),
    {
        self.running_container = Some(id);
    }

    /// Empty the slot after its occupant finished.
    pub fn clear_running(&mut self)
        ensures
            final(self)@ == clear_running_spec(old(self)@),
    {
        self.running_container = None;
    }

    /// Whether the slot is occupied.
    pub fn is_running(&self) -> (r: bool)
        ensures
            r == (self@.running is Some),
    {
        self.running_container.is_some()
    }

    /// The slot's occupant, if any: a pure read, identical across repeated
    /// calls on an unchanged state.
    pub fn get_running_container(&self) -> (r: Option<RunningContainerId>)
        ensures
            r == self@.running,
    {
        match &self.running_container {
            Some(id) => Some(id.clone()),
            None => None,
        }
    }

    /// The full listing: the given live running entries first, then a
    /// snapshot of the queue in promotion order. A pure read of the store,
    /// identical across repeated calls on an unchanged state and runtime
    /// report.
    pub fn get_containers(&self, running: Vec<RunningContainer>) -> (r: Vec<Container>)
        ensures
            r@ == containers_view(running@, self@.queue),
    {
        let ghost orig = running@;
        let mut running = running;
        let mut r: Vec<Container> = Vec::new();
        proof {
            assert(orig.take(0).map_values(|rc: RunningContainer| Container::Running(rc))
                =~= Seq::<Container>::empty());
        }
        while running.len() > 0
            invariant
                running@.len() <= orig.len(),
                running@ =~= orig.skip(orig.len() - running@.len()),
                r@ =~= orig.take(orig.len() - running@.len()).map_values(
                    |rc: RunningContainer| Container::Running(rc),
                ),
            decreases running@.len(),
        {
            let ghost k = orig.len() - running@.len();
            let ghost before = running@;
            let rc = running.remove(0);
            proof {
                assert(0 <= k < orig.len());
                assert(rc == before[0]);
                assert(before[0] == orig.skip(k)[0]);
                assert(orig.skip(k)[0] == orig[k]);
                assert(before.remove(0) =~= orig.skip(k + 1));
                assert(orig.take(k + 1) =~= orig.take(k).push(orig[k]));
                assert(orig.take(k + 1).map_values(|rc: RunningContainer| Container::Running(rc))
                    =~= orig.take(k).map_values(|rc: RunningContainer| Container::Running(rc)).push(
                    Container::Running(orig[k]),
                ));
            }
            r.push(Container::Running(rc));
        }
        proof {
            assert(orig.take(orig.len() as int) =~= orig);
        }
        let mut i: usize = 0;
        let ghost qs = self@.queue;
        while i < self.queued_containers.len()
            invariant
                i <= qs.len(),
                qs == self@.queue,
                self.queued_containers@ == qs,
                r@ =~= orig.map_values(|rc: RunningContainer| Container::Running(rc)) + qs.take(
                    i as int,
                ).map_values(|qc: QueuedContainer| Container::Queued(qc)),
            decreases qs.len() - i,
        {
            let c = self.queued_containers[i].clone();
            proof {
                assert(c == qs[i as int]);
                assert(qs.take(i + 1) =~= qs.take(i as int).push(qs[i as int]));
                assert(qs.take(i + 1).map_values(|qc: QueuedContainer| Container::Queued(qc))
                    =~= qs.take(i as int).map_values(|qc: QueuedContainer| Container::Queued(
                    qc,
                )).push(Container::Queued(qs[i as int])));
            }
            r.push(Container::Queued(c));
            i += 1;
        }
        proof {
            assert(qs.take(qs.len() as int) =~= qs);
        }
        r
    }
}

/// The server's failure surface: what it reports to a caller when handling a
/// request fails.
#[derive(Debug)]
pub enum ServerError {
    UnexpectedError(String),
}

impl ServerError {
    /// The message the server reports for this error.
    pub fn message(&self) -> (r: &str)
        ensures
            self matches ServerError::UnexpectedError(m) && r@ == m@,
    {
        match self {
            ServerError::UnexpectedError(m) => m.as_str(),
        }
    }
}

} // verus!
