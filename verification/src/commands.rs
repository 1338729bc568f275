pub mod create;
pub mod delete;
pub mod init;
pub mod list;
pub mod spec;
pub mod start;
pub mod state;

use crate::utils::{join_path, joined, str_equal};
use vstd::prelude::*;

verus! {

/// Where the runtime keeps its files.
#[derive(Clone)]
pub struct Context {
    pub runtime_dir: String,
    pub containers_dir: String,
}

/// The runtime directory under a base directory: `<base>/illya`.
pub open spec fn runtime_dir_under(base: Seq<char>) -> Seq<char> {
    joined(base, "illya"@)
}

/// The directory of a container: `<runtime_dir>/containers/<id>`.
pub open spec fn container_dir_in(runtime_dir: Seq<char>, id: Seq<char>) -> Seq<char> {
    joined(joined(runtime_dir, "containers"@), id)
}

impl Context {
    /// The context whose runtime directory lies in `runtime_base` (the
    /// user's runtime directory): `<runtime_base>/illya`, with the containers
    /// kept in its `containers` directory.
    pub fn new(runtime_base: &str) -> (ctx: Context)
        ensures
            ctx.runtime_dir@ == runtime_dir_under(runtime_base@),
            ctx.containers_dir@ == joined(ctx.runtime_dir@, "containers"@),
    {
        let runtime_dir = join_path(runtime_base, "illya");
        let containers_dir = join_path(runtime_dir.as_str(), "containers");
        Context { runtime_dir, containers_dir }
    }

    /// The directory that holds the runtime files of container `id`.
    pub fn container_rt_dir(&self, id: &str) -> (dir: String)
        ensures
            dir@ == container_dir_in(self.runtime_dir@, id@),
    {
        let containers = join_path(self.runtime_dir.as_str(), "containers");
        join_path(containers.as_str(), id)
    }
}

/// In a context laid out as `Context::new` lays it out, the directory of a
/// container is the entry named by its id in the containers directory, the
/// directory that the `list` command reads.
pub proof fn lemma_container_dir_in_containers_dir(ctx: Context, id: Seq<char>)
    requires
        ctx.containers_dir@ == joined(ctx.runtime_dir@, "containers"@),
    ensures
        container_dir_in(ctx.runtime_dir@, id) == joined(ctx.containers_dir@, id),
{
}

/// The commands of the runtime.
#[derive(PartialEq, Eq, Structural, Debug, Clone, Copy)]
pub enum Subcommand {
    Delete,
    Create,
    Init,
    Start,
    Spec,
    State,
    List,
}

impl Subcommand {
    /// The name a command is invoked by.
    pub open spec fn name_view(self) -> Seq<char> {
        match self {
            Subcommand::Delete => "delete"@,
            Subcommand::Create => "create"@,
            Subcommand::Init => "init"@,
            Subcommand::Start => "start"@,
            Subcommand::Spec => "spec"@,
            Subcommand::State => "state"@,
            Subcommand::List => "list"@,
        }
    }

    /// The command invoked by `name`, if any.
    pub fn from_name(name: &str) -> (cmd: Option<Subcommand>)
        ensures
            cmd matches Some(c) ==> c.name_view() == name@,
            cmd is None ==> forall|c: Subcommand| #[trigger] c.name_view() != name@,
    {
        if str_equal(name, "delete") {
            Some(Subcommand::Delete)
        } else if str_equal(name, "create") {
            Some(Subcommand::Create)
        } else if str_equal(name, "init") {
            Some(Subcommand::Init)
        } else if str_equal(name, "start") {
            Some(Subcommand::Start)
        } else if str_equal(name, "spec") {
            Some(Subcommand::Spec)
        } else if str_equal(name, "state") {
            Some(Subcommand::State)
        } else if str_equal(name, "list") {
            Some(Subcommand::List)
        } else {
            proof {
                assert forall|c: Subcommand| #[trigger] c.name_view() != name@ by {
                    match c {
                        Subcommand::Delete => {},
                        Subcommand::Create => {},
                        Subcommand::Init => {},
                        Subcommand::Start => {},
                        Subcommand::Spec => {},
                        Subcommand::State => {},
                        Subcommand::List => {},
                    }
                }
            }
            None
        }
    }
}

/// Distinct commands are invoked by distinct names.
pub proof fn lemma_subcommand_names_distinct(a: Subcommand, b: Subcommand)
    ensures
        a.name_view() == b.name_view() ==> a == b,
{
    reveal_strlit("delete");
    reveal_strlit("create");
    reveal_strlit("init");
    reveal_strlit("start");
    reveal_strlit("spec");
    reveal_strlit("state");
    reveal_strlit("list");
    if a != b && a.name_view() == b.name_view() {
        assert(a.name_view()[0] == b.name_view()[0]);
        assert(a.name_view().len() == b.name_view().len());
        if a.name_view().len() > 2 {
            assert(a.name_view()[2] == b.name_view()[2]);
        }
        if a.name_view().len() > 4 {
            assert(a.name_view()[4] == b.name_view()[4]);
        }
    }
}

} // verus!
