use crate::commands::{Context, container_dir_in};
use crate::utils::{is_file, join_path, joined};
use vstd::prelude::*;

verus! {

/// The status of a container.
#[derive(PartialEq, Eq, Structural, Debug, Clone, Copy)]
pub enum Status {
    Loaded,
    Created,
    Running,
    Stopped,
}

impl Status {
    /// The name under which a status is shown.
    pub open spec fn text(self) -> Seq<char> {
        match self {
            Status::Loaded => "loaded"@,
            Status::Created => "created"@,
            Status::Running => "running"@,
            Status::Stopped => "stopped"@,
        }
    }

    /// Returns the name under which the status is shown.
    pub fn to_string(&self) -> (s: String)
        ensures
            s@ == self.text(),
    {
        match self {
            Status::Loaded => "loaded".to_owned(),
            Status::Created => "created".to_owned(),
            Status::Running => "running".to_owned(),
            Status::Stopped => "stopped".to_owned(),
        }
    }

    /// The status that the files of a container show: created while its exec
    /// fifo exists, running while only its state file exists, stopped when
    /// neither does.
    pub fn from_markers(fifo_present: bool, state_present: bool) -> (s: Status)
        ensures
            fifo_present ==> s == Status::Created,
            !fifo_present && state_present ==> s == Status::Running,
            !fifo_present && !state_present ==> s == Status::Stopped,
    {
        if fifo_present {
            Status::Created
        } else if state_present {
            Status::Running
        } else {
            Status::Stopped
        }
    }
}

/// Distinct statuses are shown under distinct names.
pub proof fn lemma_status_text_injective(a: Status, b: Status)
    ensures
        a.text() == b.text() ==> a == b,
{
    reveal_strlit("loaded");
    reveal_strlit("created");
    reveal_strlit("running");
    reveal_strlit("stopped");
    if a != b {
        assert(a.text()[0] != b.text()[0] || a.text().len() != b.text().len());
    }
}

/// The exec fifo and the state file of a container are distinct files, each
/// directly inside the container's directory.
pub proof fn lemma_container_files_distinct(crt_dir: Seq<char>)
    ensures
        fifo_path_in(crt_dir) != state_path_in(crt_dir),
        fifo_path_in(crt_dir).subrange(0, crt_dir.len() as int) == crt_dir,
        state_path_in(crt_dir).subrange(0, crt_dir.len() as int) == crt_dir,
{
    reveal_strlit("exec.fifo");
    reveal_strlit("state.json");
    assert(fifo_path_in(crt_dir).subrange(0, crt_dir.len() as int) =~= crt_dir);
    assert(state_path_in(crt_dir).subrange(0, crt_dir.len() as int) =~= crt_dir);
}

/// Whether `std::path::Path::is_file`, asked about the file at `path`, has
/// answered `present`. Nothing is known of which answer it gives: that rests
/// on the filesystem at the moment of the call.
pub closed spec fn reported_file(path: Seq<char>, present: bool) -> bool {
    exists|p: String| p@ == path && #[trigger] call_ensures(is_file, (&p,), present)
}

/// A container, known by its id, and the context it lives in.
pub struct Container {
    pub id: String,
    ctx: Box<Context>,
}

/// The exec fifo of a container whose directory is `crt_dir`.
pub open spec fn fifo_path_in(crt_dir: Seq<char>) -> Seq<char> {
    joined(crt_dir, "exec.fifo"@)
}

/// The state file of a container whose directory is `crt_dir`.
pub open spec fn state_path_in(crt_dir: Seq<char>) -> Seq<char> {
    joined(crt_dir, "state.json"@)
}

/// The `config.json` of a bundle whose path (ending with a separator) is
/// `bundle`.
pub open spec fn oci_config_path_in(bundle: Seq<char>) -> Seq<char> {
    bundle + "config.json"@
}

impl Container {
    /// The context the container lives in.
    pub closed spec fn context(&self) -> Context {
        *self.ctx
    }

    /// The container's id.
    pub closed spec fn id_view(&self) -> Seq<char> {
        self.id@
    }

    /// The directory that holds the container's runtime files.
    pub closed spec fn crt_dir_view(&self) -> Seq<char> {
        container_dir_in(self.context().runtime_dir@, self.id@)
    }

    pub fn new(container_id: &String, ctx: Box<Context>) -> (c: Self)
        ensures
            c.id_view() == container_id@,
            c.context() == *ctx,
            c.crt_dir_view() == container_dir_in(ctx.runtime_dir@, container_id@),
    {
        Container { id: container_id.clone(), ctx }
    }

    /// Returns the container's id.
    pub fn id(&self) -> (id: &String)
        ensures
            id@ == self.id_view(),
    {
        &self.id
    }

    /// `<runtime_dir>/containers/<id>`.
    pub fn crt_dir(&self) -> (dir: String)
        ensures
            dir@ == self.crt_dir_view(),
    {
        self.ctx.container_rt_dir(self.id.as_str())
    }

    /// `<crt_dir>/exec.fifo`.
    pub fn fifo_path(&self) -> (path: String)
        ensures
            path@ == fifo_path_in(self.crt_dir_view()),
    {
        let dir = self.crt_dir();
        join_path(dir.as_str(), "exec.fifo")
    }

    /// `<crt_dir>/state.json`.
    pub fn state_path(&self) -> (path: String)
        ensures
            path@ == state_path_in(self.crt_dir_view()),
    {
        let dir = self.crt_dir();
        join_path(dir.as_str(), "state.json")
    }

    /// The status of the container as `file_exists` reports on its files:
    /// created when its exec fifo is reported present, running when only its
    /// state file is, stopped when neither is. Each file is asked about once.
    pub fn status_with<F: Fn(&String) -> bool>(&self, file_exists: F) -> (s: Status)
        requires
            forall|p: &String| #[trigger] call_requires(file_exists, (p,)),
        ensures
            exists|fifo: String, state: String, fifo_present: bool, state_present: bool|
                #![trigger call_ensures(file_exists, (&fifo,), fifo_present), call_ensures(file_exists, (&state,), state_present)]
                {
                    &&& fifo@ == fifo_path_in(self.crt_dir_view())
                    &&& state@ == state_path_in(self.crt_dir_view())
                    &&& call_ensures(file_exists, (&fifo,), fifo_present)
                    &&& call_ensures(file_exists, (&state,), state_present)
                    &&& (fifo_present ==> s == Status::Created)
                    &&& (!fifo_present && state_present ==> s == Status::Running)
                    &&& (!fifo_present && !state_present ==> s == Status::Stopped)
                },
    {
        let fifo = self.fifo_path();
        let state = self.state_path();
        let fifo_present = file_exists(&fifo);
        let state_present = file_exists(&state);
        Status::from_markers(fifo_present, state_present)
    }

    /// The status that the container's files show at the moment of the call:
    /// created while its exec fifo is a file, running while only its state
    /// file is, stopped otherwise, as `status_with` decides from what
    /// `std::path::Path::is_file` reports.
    pub fn status(&self) -> (s: Status)
        ensures
            s == Status::Created || s == Status::Running || s == Status::Stopped,
            exists|fifo_present: bool, state_present: bool|
                #![trigger reported_file(fifo_path_in(self.crt_dir_view()), fifo_present), reported_file(state_path_in(self.crt_dir_view()), state_present)]
                {
                    &&& reported_file(fifo_path_in(self.crt_dir_view()), fifo_present)
                    &&& reported_file(state_path_in(self.crt_dir_view()), state_present)
                    &&& (fifo_present ==> s == Status::Created)
                    &&& (!fifo_present && state_present ==> s == Status::Running)
                    &&& (!fifo_present && !state_present ==> s == Status::Stopped)
                },
    {
        let s = self.status_with(is_file);
        proof {
            let (fifo, state, a, b) = choose|fifo: String, state: String, fifo_present: bool, state_present: bool|
                {
                    &&& fifo@ == fifo_path_in(self.crt_dir_view())
                    &&& state@ == state_path_in(self.crt_dir_view())
                    &&& call_ensures(is_file, (&fifo,), fifo_present)
                    &&& call_ensures(is_file, (&state,), state_present)
                    &&& (fifo_present ==> s == Status::Created)
                    &&& (!fifo_present && state_present ==> s == Status::Running)
                    &&& (!fifo_present && !state_present ==> s == Status::Stopped)
                };
            assert(reported_file(fifo_path_in(self.crt_dir_view()), a));
            assert(reported_file(state_path_in(self.crt_dir_view()), b));
        }
        s
    }
}

/// The path of the `config.json` of the bundle at `bundle`.
pub fn oci_config_path(bundle: &str) -> (path: String)
    ensures
        path@ == oci_config_path_in(bundle@),
{
    let mut path = bundle.to_owned();
    path.append("config.json");
    path
}

} // verus!
