use crate::commands::{Context, container_dir_in};
use crate::container::{Container, Status};
use crate::models::state::{State, annotation_labels, bundle_of};
use vstd::prelude::*;

verus! {

/// What the `state` command shows of a container.
pub struct Output {
    pub id: String,
    pub pid: u32,
    pub status: String,
    pub bundle: String,
    pub rootfs: String,
    pub created: String,
    pub annotations: Vec<String>,
}

/// The `state` command.
pub struct Command {
    container: Container,
}

impl Command {
    /// The container whose state is shown.
    pub closed spec fn container_view(&self) -> Container {
        self.container
    }

    /// The command that shows the state of container `container_id` of `ctx`.
    pub fn new(container_id: &String, ctx: Context) -> (cmd: Command)
        ensures
            cmd.container_view().id_view() == container_id@,
            cmd.container_view().context() == ctx,
            cmd.container_view().crt_dir_view() == container_dir_in(ctx.runtime_dir@, container_id@),
    {
        Command { container: Container::new(container_id, Box::new(ctx)) }
    }

    /// What is shown of the container, given its recorded `state` and its
    /// current `status`: its id, the pid of its init process, the name of
    /// the status, the bundle path and the annotations read from the labels,
    /// its root filesystem and its creation time.
    pub fn output(&self, state: &State, status: Status) -> (out: Output)
        ensures
            out.id@ == self.container_view().id_view(),
            out.pid == state.init_process_pid,
            out.status@ == status.text(),
            out.bundle@ == bundle_of(state.config.labels.deep_view()),
            out.rootfs == state.config.rootfs,
            out.created == state.created,
            out.annotations.deep_view() == annotation_labels(state.config.labels.deep_view()),
    {
        let (annotations, bundle) = state.annotations();
        Output {
            id: self.container.id().clone(),
            pid: state.init_process_pid,
            status: status.to_string(),
            bundle,
            rootfs: state.config.rootfs.clone(),
            created: state.created.clone(),
            annotations,
        }
    }

    /// Returns the container whose state is shown.
    pub fn container(&self) -> (c: &Container)
        ensures
            *c == self.container_view(),
    {
        &self.container
    }
}

} // verus!
