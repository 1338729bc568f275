use crate::container::{oci_config_path, oci_config_path_in};
use crate::models::oci;
use crate::utils::{last_must_separator, with_trailing_separator};
use vstd::prelude::*;
use vstd::string::*;

verus! {

/// The `spec` command: it writes a new `config.json` into a bundle.
pub struct Command {
    bundle: String,
}

impl Command {
    /// The bundle the command writes to.
    pub closed spec fn bundle_view(&self) -> Seq<char> {
        self.bundle@
    }

    /// The command that writes into the bundle at `bundle`.
    pub fn new(bundle: String) -> (cmd: Command)
        requires
            bundle@.len() == 0 || string_is_ascii(&bundle),
        ensures
            cmd.bundle_view() == with_trailing_separator(bundle@),
    {
        Command { bundle: last_must_separator(bundle) }
    }

    /// The file the command writes: the bundle's `config.json`.
    pub fn config_path(&self) -> (path: String)
        ensures
            path@ == oci_config_path_in(self.bundle_view()),
    {
        oci_config_path(self.bundle.as_str())
    }
}

/// The configuration a new specification starts from: an empty root path
/// and no arguments.
pub fn default_config() -> (config: oci::Config)
    ensures
        config.root.path@.len() == 0,
        config.process.args@.len() == 0,
{
    oci::Config { root: oci::Root { path: String::new() }, process: oci::Process { args: Vec::new() } }
}

} // verus!
