use vstd::prelude::*;

verus! {

/// A fact about what produced a measurement.
#[derive(Clone, Debug, PartialEq, Eq)]
pub enum Input {
    /// Dependency lockfile contents, normalised as a JSON document.
    CargoLock { contents: String },
    /// Source repository and resolved commit.
    Git { url: String, rev: String },
    /// Commit hash of the compiler toolchain.
    Rustc { rev: String },
    /// Raw contents of the JavaScript lockfile.
    PackageJsonLock { contents: String },
    /// Version line of the packaging tool.
    WasmPack { version: String },
}

/// One measured artifact: its size in bytes and a descriptive label.
#[derive(Clone, Debug, PartialEq, Eq)]
pub struct Output {
    pub bytes: u64,
    pub name: String,
}

/// One measured project: its name, its provenance in the order the steps
/// recorded it, and the sizes of what it produced.
#[derive(Clone, Debug, PartialEq, Eq)]
pub struct Benchmark {
    pub name: String,
    pub inputs: Vec<Input>,
    pub outputs: Vec<Output>,
}

/// One dated snapshot of benchmarks.
#[derive(Clone, Debug, PartialEq, Eq)]
pub struct Build {
    pub date: String,
    pub data: Vec<Benchmark>,
}

impl Benchmark {
    /// A benchmark with the given name and nothing recorded yet.
    pub fn new(name: &str) -> (r: Benchmark)
        ensures
            r.name@ == name@,
            r.inputs@.len() == 0,
            r.outputs@.len() == 0,
    {
        Benchmark { name: name.to_string(), inputs: Vec::new(), outputs: Vec::new() }
    }
}

} // verus!
