use crate::commands::{Context, container_dir_in};
use crate::container::Container;
use vstd::prelude::*;

verus! {

/// The `start` command.
pub struct Command {
    container: Container,
}

impl Command {
    /// The container the command starts.
    pub closed spec fn container_view(&self) -> Container {
        self.container
    }

    /// The command that starts container `container_id` of `ctx`.
    pub fn new(container_id: &String, ctx: Context) -> (cmd: Command)
        ensures
            cmd.container_view().id_view() == container_id@,
            cmd.container_view().context() == ctx,
            cmd.container_view().crt_dir_view() == container_dir_in(ctx.runtime_dir@, container_id@),
    {
        Command { container: Container::new(container_id, Box::new(ctx)) }
    }

    /// Returns the container the command starts.
    pub fn container(&self) -> (c: &Container)
        ensures
            *c == self.container_view(),
    {
        &self.container
    }
}

} // verus!
