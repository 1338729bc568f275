use vstd::prelude::*;

verus! {

/// The `delete` command.
pub struct Command {
    pub container_id: String,
    pub force: bool,
}

impl Command {
    /// The command that deletes container `container_id`, in force mode when
    /// `force` is set.
    pub fn new(container_id: String, force: bool) -> (cmd: Command)
        ensures
            cmd.container_id == container_id,
            cmd.force == force,
    {
        Command { container_id, force }
    }
}

} // verus!
