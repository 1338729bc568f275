use vstd::prelude::*;

verus! {

/// What the `create` command hands to the container's init process.
pub struct Parameter {
    pub container_id: String,
    pub root_path: String,
    pub args: Vec<String>,
    pub bundle: String,
    pub pid_file: String,
    pub runtime_dir: String,
    pub container_rt_dir: String,
}

} // verus!
