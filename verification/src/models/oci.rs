use vstd::prelude::*;

verus! {

/// The process that a container runs: its arguments.
pub struct Process {
    pub args: Vec<String>,
}

/// The root filesystem of a container, relative to its bundle.
pub struct Root {
    pub path: String,
}

/// The part of a bundle's `config.json` that the runtime reads.
pub struct Config {
    pub root: Root,
    pub process: Process,
}

} // verus!
