//! A queue for containerized workloads that runs them one at a time:
//! submitters append validated launch requests, a single coordinator promotes
//! the queue head into the one running slot, and a completion report frees the
//! slot for the next request.
pub mod client_view;
pub mod container;
pub mod launcher;
pub mod laws;
pub mod queued_container;
pub mod running_container_id;
pub mod state;
pub mod text;
