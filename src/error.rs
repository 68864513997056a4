use vstd::prelude::*;

verus! {

/// Why a measurement step, a merge or a historical build failed.
#[derive(Clone, Debug, PartialEq, Eq)]
pub enum CollectError {
    /// A file or process could not be read, written or started.
    Io { context: String },
    /// An external tool exited with a failure status.
    Execution { command: String, status: String },
    /// A document, lockfile or timestamp is malformed.
    Parse { what: String },
    /// A required file or field is missing.
    Configuration { what: String },
    /// The benchmark name is not one of the known benchmarks.
    UnknownBenchmark { name: String },
}

} // verus!
