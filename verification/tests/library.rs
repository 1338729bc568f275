use illya::commands::{create, delete, init, list, spec, start, state, Context, Subcommand};
use illya::commands::init::pipe_read_step;
use illya::container::{oci_config_path, Container, Status};
use illya::log::{format_record, new as new_logger};
use illya::models::{init::Parameter, oci, state::{new_labels, Config, State}};
use illya::utils::{abs_path, decimal_string, is_directory, is_exist, join_path, last_must_separator};

fn s(x: &str) -> String {
    x.to_string()
}

fn sample_state(labels: Vec<String>) -> State {
    State {
        id: s("c1"),
        init_process_pid: 42,
        created: s("2024"),
        config: Config { rootfs: s("/rootfs"), labels },
    }
}

#[test]
fn join_path_matches_std_path_join() {
    let cases = [
        ("/run/user/1000", "illya"),
        ("/run/user/1000/", "illya"),
        ("", "illya"),
        ("/run", "/abs"),
        ("/run", ""),
        ("rel", "x/y"),
        ("/", "containers"),
    ];
    for (base, part) in cases.iter() {
        let expected = std::path::Path::new(base).join(part);
        assert_eq!(join_path(base, part), expected.to_str().unwrap(), "{} + {}", base, part);
    }
}

#[test]
fn last_must_separator_cases() {
    assert_eq!(last_must_separator(s("")), "/");
    assert_eq!(last_must_separator(s("/")), "/");
    assert_eq!(last_must_separator(s("/tmp/bundle")), "/tmp/bundle/");
    assert_eq!(last_must_separator(s("/tmp/bundle/")), "/tmp/bundle/");
}

#[test]
fn last_must_separator_is_idempotent() {
    let once = last_must_separator(s("a/b"));
    assert_eq!(last_must_separator(once.clone()), once);
}

#[test]
fn abs_path_cases() {
    assert_eq!(abs_path("/home/me", "/etc"), Ok(s("/etc")));
    assert_eq!(abs_path("/home/me", "bundle"), Ok(s("/home/me/bundle")));
    assert_eq!(abs_path("/home/me", "."), Ok(s("/home/me/.")));
    assert_eq!(abs_path("/home/me", ""), Err("path must not be empty"));
}

#[test]
fn decimal_string_matches_display() {
    for n in [0u32, 7, 10, 42, 1000, 65535, 4294967295] {
        assert_eq!(decimal_string(n), n.to_string());
    }
}

#[test]
fn status_names() {
    assert_eq!(Status::Loaded.to_string(), "loaded");
    assert_eq!(Status::Created.to_string(), "created");
    assert_eq!(Status::Running.to_string(), "running");
    assert_eq!(Status::Stopped.to_string(), "stopped");
}

#[test]
fn status_from_markers() {
    assert_eq!(Status::from_markers(true, true), Status::Created);
    assert_eq!(Status::from_markers(true, false), Status::Created);
    assert_eq!(Status::from_markers(false, true), Status::Running);
    assert_eq!(Status::from_markers(false, false), Status::Stopped);
}

#[test]
fn context_layout() {
    let ctx = Context::new("/run/user/1000");
    assert_eq!(ctx.runtime_dir, "/run/user/1000/illya");
    assert_eq!(ctx.containers_dir, "/run/user/1000/illya/containers");
    assert_eq!(ctx.container_rt_dir("c1"), "/run/user/1000/illya/containers/c1");
}

#[test]
fn container_paths() {
    let ctx = Context::new("/run/user/1000");
    let c = Container::new(&s("c1"), Box::new(ctx));
    assert_eq!(c.id(), "c1");
    assert_eq!(c.crt_dir(), "/run/user/1000/illya/containers/c1");
    assert_eq!(c.fifo_path(), "/run/user/1000/illya/containers/c1/exec.fifo");
    assert_eq!(c.state_path(), "/run/user/1000/illya/containers/c1/state.json");
}

#[test]
fn container_without_files_is_stopped() {
    let ctx = Context::new("/nonexistent-illya-test-root");
    let c = Container::new(&s("c1"), Box::new(ctx));
    assert_eq!(c.status(), Status::Stopped);
}

#[test]
fn filesystem_queries() {
    assert!(is_directory(&s("/")));
    assert!(is_exist(&s("/")));
    assert!(!is_directory(&s("/nonexistent-illya-test-root")));
    assert!(!is_exist(&s("/nonexistent-illya-test-root")));
}

#[test]
fn oci_config_path_appends_file_name() {
    assert_eq!(oci_config_path("/tmp/bundle/"), "/tmp/bundle/config.json");
}

#[test]
fn new_labels_writes_annotations_then_bundle() {
    let annos = vec![(s("a"), s("1")), (s("b"), s("x=y"))];
    let labels = new_labels(&annos, &s("/tmp/bundle/"));
    assert_eq!(labels, vec![s("a=1"), s("b=x=y"), s("bundle=/tmp/bundle/")]);
}

#[test]
fn annotations_split_labels() {
    let st = sample_state(vec![s("a=1"), s("bundle=/b1/"), s("bundlex=2"), s("bundle"), s("bundle=/b2/"), s("k=v")]);
    let (annos, bundle) = st.annotations();
    assert_eq!(annos, vec![s("a=1"), s("bundlex=2"), s("bundle"), s("k=v")]);
    assert_eq!(bundle, "/b2/");
}

#[test]
fn annotations_without_bundle() {
    let st = sample_state(vec![s("a=1")]);
    let (annos, bundle) = st.annotations();
    assert_eq!(annos, vec![s("a=1")]);
    assert_eq!(bundle, "");
}

#[test]
fn labels_round_trip() {
    let annos = vec![(s("owner"), s("me")), (s("bundle"), s("shadow"))];
    let st = sample_state(new_labels(&annos, &s("/real/")));
    let (read, bundle) = st.annotations();
    assert_eq!(bundle, "/real/");
    assert_eq!(read, vec![s("owner=me")]);
}

#[test]
fn subcommand_names() {
    assert_eq!(Subcommand::from_name("create"), Some(Subcommand::Create));
    assert_eq!(Subcommand::from_name("delete"), Some(Subcommand::Delete));
    assert_eq!(Subcommand::from_name("init"), Some(Subcommand::Init));
    assert_eq!(Subcommand::from_name("start"), Some(Subcommand::Start));
    assert_eq!(Subcommand::from_name("spec"), Some(Subcommand::Spec));
    assert_eq!(Subcommand::from_name("state"), Some(Subcommand::State));
    assert_eq!(Subcommand::from_name("list"), Some(Subcommand::List));
    assert_eq!(Subcommand::from_name("pause"), None);
    assert_eq!(Subcommand::from_name(""), None);
}

#[test]
fn logger_file_and_record_line() {
    let logger = new_logger();
    assert_eq!(logger.log_file(), "/home/yjn/illya_log");
    assert_eq!(format_record("INFO", "illya", "2024-01-02 03:04:05", "hello"), "INFO:illya:2024-01-02 03:04:05 - hello\n");
}

#[test]
fn create_command_and_init_param() {
    let ctx = Context::new("/run/user/1000");
    let cmd = create::Command::new(s("c1"), s("/tmp/pid"), s("/tmp/bundle"), ctx);
    assert_eq!(cmd.bundle, "/tmp/bundle/");
    assert_eq!(cmd.runtime_dir, "/run/user/1000/illya");
    assert_eq!(cmd.container_rt_dir, "/run/user/1000/illya/containers/c1");
    let config = oci::Config {
        root: oci::Root { path: s("rootfs") },
        process: oci::Process { args: vec![s("app.wasm")] },
    };
    let p: Parameter = cmd.make_init_param(config);
    assert_eq!(p.container_id, "c1");
    assert_eq!(p.root_path, "rootfs");
    assert_eq!(p.args, vec![s("app.wasm")]);
    assert_eq!(p.bundle, "/tmp/bundle/");
    assert_eq!(p.pid_file, "/tmp/pid");
    assert_eq!(p.runtime_dir, "/run/user/1000/illya");
    assert_eq!(p.container_rt_dir, "/run/user/1000/illya/containers/c1");
    let init_cmd = init::Command::new(p);
    assert_eq!(init_cmd.param().container_id, "c1");
}

#[test]
fn delete_command_records_force() {
    let cmd = delete::Command::new(s("c1"), false);
    assert_eq!(cmd.container_id, "c1");
    assert!(!cmd.force);
    let forced = delete::Command::new(s("c2"), true);
    assert_eq!(forced.container_id, "c2");
    assert!(forced.force);
}

#[test]
fn spec_command_paths_and_template() {
    let cmd = spec::Command::new(s("/tmp/bundle"));
    assert_eq!(cmd.config_path(), "/tmp/bundle/config.json");
    let config = spec::default_config();
    assert_eq!(config.root.path, "");
    assert!(config.process.args.is_empty());
}

#[test]
fn start_command_container() {
    let cmd = start::Command::new(&s("c1"), Context::new("/run"));
    assert_eq!(cmd.container().crt_dir(), "/run/illya/containers/c1");
    assert_eq!(cmd.container().fifo_path(), "/run/illya/containers/c1/exec.fifo");
}

#[test]
fn state_command_output() {
    let cmd = state::Command::new(&s("c1"), Context::new("/run"));
    let st = sample_state(vec![s("a=1"), s("bundle=/b/")]);
    let out = cmd.output(&st, Status::Running);
    assert_eq!(out.id, "c1");
    assert_eq!(out.pid, 42);
    assert_eq!(out.status, "running");
    assert_eq!(out.bundle, "/b/");
    assert_eq!(out.rootfs, "/rootfs");
    assert_eq!(out.created, "2024");
    assert_eq!(out.annotations, vec![s("a=1")]);
}

#[test]
fn list_rows_and_table() {
    let st = sample_state(vec![s("bundle=/b/")]);
    assert_eq!(list::row(&st, Status::Running), "c1\t42\trunning\t/b/\t2024\n");
    let entries = vec![(st, Status::Running)];
    assert_eq!(list::table(&entries), "ID\tPID\tSTATUS\tBUNDLE\tCREATED\nc1\t42\trunning\t/b/\t2024\n");
    assert_eq!(
        list::render(&entries),
        "ID  PID  STATUS   BUNDLE  CREATED\nc1  42   running  /b/     2024\n"
    );
    let cmd = list::Command::new(Context::new("/run"));
    assert_eq!(cmd.context().containers_dir, "/run/illya/containers");
}

#[test]
fn list_of_nothing_is_header_only() {
    let entries: Vec<(State, Status)> = vec![];
    assert_eq!(list::render(&entries), "ID  PID  STATUS  BUNDLE  CREATED\n");
}

#[test]
fn pipe_read_steps() {
    assert_eq!(pipe_read_step(Some(1024), 1024), (1024, true));
    assert_eq!(pipe_read_step(Some(10), 1024), (10, false));
    assert_eq!(pipe_read_step(Some(0), 1024), (0, false));
    assert_eq!(pipe_read_step(None, 1024), (0, false));
}
