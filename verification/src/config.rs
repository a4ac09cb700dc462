//! The settings of a worker process.

use vstd::prelude::*;

verus! {

/// Where the worker listens, how many workers it runs, and where the
/// database and the two processors are.
#[derive(Debug, Clone)]
pub struct WorkerConfig {
    pub listen_path: String,
    pub num_workers: usize,
    pub postgres_url: String,
    pub default_processor_url: String,
    pub fallback_processor_url: String,
}

} // verus!
