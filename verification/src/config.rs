use vstd::prelude::*;

verus! {

/// The run-scoped settings the driver hands the engine.  Parsing and
/// validating them from the command line happens outside the library.
#[derive(Debug)]
pub struct Config {
    /// Which workload variant to run.
    pub workload_name: String,
    /// Value for the target's mutation-checker session flag.
    pub mutation_checker: String,
    /// Value for the target's assertion-level session setting.
    pub assertion: String,
    /// Upper bound on the number of tables to exercise; zero means no
    /// bound.
    pub limit: u32,
    /// Database connection URI.
    pub uri: String,
    /// Address of the target's fault-injection status endpoint.
    pub status_addr: String,
    /// Where the run's log goes.
    pub log_path: String,
}

} // verus!
