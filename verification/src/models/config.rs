use vstd::prelude::*;

verus! {

/// The root filesystem entry of an OCI configuration.
pub struct OCIRoot {
    path: String,
}

/// An OCI configuration reduced to its root filesystem.
pub struct OCIConfig {
    root: OCIRoot,
}

} // verus!
