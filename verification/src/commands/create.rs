use crate::commands::{Context, container_dir_in};
use crate::models::{init, oci};
use crate::utils::{last_must_separator, with_trailing_separator};
use vstd::prelude::*;
use vstd::string::*;

verus! {

/// The `create` command: what it knows of the container to create.
pub struct Command {
    pub container_id: String,
    pub pid_file: String,
    pub bundle: String,
    pub runtime_dir: String,
    pub container_rt_dir: String,
}

impl Command {
    /// The command that creates container `container_id` from the bundle at
    /// the absolute path `bundle`, writing the container's pid to `pid_file`.
    pub fn new(container_id: String, pid_file: String, bundle: String, ctx: Context) -> (cmd: Command)
        requires
            bundle@.len() == 0 || string_is_ascii(&bundle),
        ensures
            cmd.container_id == container_id,
            cmd.pid_file == pid_file,
            cmd.bundle@ == with_trailing_separator(bundle@),
            cmd.runtime_dir == ctx.runtime_dir,
            cmd.container_rt_dir@ == container_dir_in(ctx.runtime_dir@, container_id@),
    {
        let bundle = last_must_separator(bundle);
        let container_rt_dir = ctx.container_rt_dir(container_id.as_str());
        Command {
            container_id,
            pid_file,
            bundle,
            runtime_dir: ctx.runtime_dir,
            container_rt_dir,
        }
    }

    /// What the init process of the container is given: the command's own
    /// fields, with the root path and the arguments of `oci_config`.
    pub fn make_init_param(&self, oci_config: oci::Config) -> (param: init::Parameter)
        ensures
            param.container_id == self.container_id,
            param.root_path == oci_config.root.path,
            param.args == oci_config.process.args,
            param.bundle == self.bundle,
            param.pid_file == self.pid_file,
            param.runtime_dir == self.runtime_dir,
            param.container_rt_dir == self.container_rt_dir,
    {
        init::Parameter {
            container_id: self.container_id.clone(),
            root_path: oci_config.root.path,
            args: oci_config.process.args,
            bundle: self.bundle.clone(),
            pid_file: self.pid_file.clone(),
            runtime_dir: self.runtime_dir.clone(),
            container_rt_dir: self.container_rt_dir.clone(),
        }
    }
}

} // verus!
