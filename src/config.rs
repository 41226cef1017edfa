use vstd::prelude::*;

verus! {

/// The service's settings.
#[derive(Clone)]
pub struct Config {
    /// Where the message broker listens.
    pub queue_cluster_url: String,
    /// The durable queue from which job-start events are consumed.
    pub incoming_queue_name: String,
}

} // verus!
