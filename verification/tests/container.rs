use docker_test::container::{Container, Lifecycle, DOCKER_IMAGE};
use docker_test::error::Error;
use docker_test::path::{final_segment, install_path, BIN_DIR};
use docker_test::process::{ExitPolicy, ExitStatus, Output};

fn output(code: Option<i32>, stdout: &[u8], stderr: &[u8]) -> Output {
    Output { status: ExitStatus { code }, stdout: stdout.to_vec(), stderr: stderr.to_vec() }
}

fn running(id: &str) -> Container {
    Container::new(&output(Some(0), format!("{id}\n").as_bytes(), b"")).unwrap()
}

fn text(args: &[String]) -> Vec<&str> {
    args.iter().map(|a| a.as_str()).collect()
}

#[test]
fn launch_keeps_the_container_alive() {
    let run = Container::launch(DOCKER_IMAGE);
    assert_eq!(
        text(&run.args),
        ["run", "--detach", "docker.io/debian:bullseye-slim", "sleep", "15m"]
    );
    assert_eq!(run.policy, ExitPolicy::Propagate);
    let other = Container::launch("alpine:3");
    assert_eq!(text(&other.args), ["run", "--detach", "alpine:3", "sleep", "15m"]);
}

#[test]
fn identifier_is_the_trimmed_output() {
    let c = Container::new(&output(Some(0), b"  4c01db0b339c\r\n", b"pulling...")).unwrap();
    assert_eq!(c.id(), "4c01db0b339c");
    assert!(c.is_running());
    assert_eq!(c.state(), Lifecycle::Running);
}

#[test]
fn failed_launch_gives_no_container() {
    let out = output(Some(125), b"4c01db0b339c\n", b"no such image");
    assert_eq!(Container::new(&out).unwrap_err(), Error::Exit(out.clone()));
    let killed = output(None, b"4c01db0b339c\n", b"");
    assert_eq!(Container::new(&killed).unwrap_err(), Error::Exit(killed.clone()));
}

#[test]
fn output_without_identifier_is_malformed() {
    for stdout in [&b""[..], &b" \n\t"[..], &[0xff, 0xfe][..]] {
        let out = output(Some(0), stdout, b"");
        assert_eq!(Container::new(&out).unwrap_err(), Error::Malformed(out.clone()));
    }
}

#[test]
fn exec_runs_as_root_unless_told_otherwise() {
    let c = running("abc");
    let as_root = c.exec(vec!["id", "-u"]).unwrap();
    assert_eq!(text(&as_root.args), ["exec", "--user", "root", "-i", "abc", "id", "-u"]);
    assert_eq!(as_root.policy, ExitPolicy::Report);
    let as_nobody = c.exec_as("nobody", vec!["id", "-u"]).unwrap();
    assert_eq!(text(&as_nobody.args), ["exec", "--user", "nobody", "-i", "abc", "id", "-u"]);
    assert_eq!(as_nobody.policy, ExitPolicy::Report);
    let bare = c.exec_as("nobody", Vec::new()).unwrap();
    assert_eq!(text(&bare.args), ["exec", "--user", "nobody", "-i", "abc"]);
}

#[test]
fn password_is_piped_in_ahead_of_the_command() {
    let c = running("abc");
    let run = c.exec_w_pass("alice", "s3cret", vec!["su", "-c", "true"]).unwrap();
    assert_eq!(
        text(&run.args),
        ["exec", "--user", "alice", "-i", "abc", "echo", "s3cret", "|", "su", "-c", "true"]
    );
    assert_eq!(run.policy, ExitPolicy::Report);
}

#[test]
fn copy_names_the_container_and_the_destination() {
    let c = running("abc");
    let run = c.cp("/host/file", "/etc/file").unwrap();
    assert_eq!(text(&run.args), ["cp", "/host/file", "abc:/etc/file"]);
    assert_eq!(run.policy, ExitPolicy::Propagate);
}

#[test]
fn failed_copy_names_source_destination_and_container() {
    let c = running("abc");
    assert_eq!(c.copied("/host/file", "/etc/file", &output(Some(0), b"", b"")), Ok(()));
    let out = output(Some(1), b"", b"no such file");
    let e = c.copied("/host/file", "/etc/file", &out).unwrap_err();
    assert_eq!(
        e,
        Error::Copy {
            from: "/host/file".to_string(),
            to: "/etc/file".to_string(),
            id: "abc".to_string(),
            output: out.clone(),
        }
    );
    assert_eq!(e.message(), "Copy of /host/file to abc:/etc/file failed");
    assert!(!e.is_fatal());
}

#[test]
fn deployed_binary_goes_under_the_binary_directory() {
    let c = running("abc");
    assert_eq!(BIN_DIR, "/usr/local/bin");
    assert_eq!(c.binary_path("/host/path/myapp").unwrap(), "/usr/local/bin/myapp");
    assert_eq!(c.binary_path("myapp").unwrap(), "/usr/local/bin/myapp");
    assert_eq!(c.binary_path("target/release/myapp/").unwrap(), "/usr/local/bin/myapp");
    assert_eq!(c.binary_path("./a/./b/.").unwrap(), "/usr/local/bin/b");
    assert_eq!(install_path("/host/path/myapp"), Some("/usr/local/bin/myapp".to_string()));
}

#[test]
fn path_without_segment_has_no_place() {
    let c = running("abc");
    assert_eq!(c.binary_path("").unwrap_err(), Error::NoFileName { path: String::new() });
    assert_eq!(install_path(""), None);
    assert_eq!(final_segment(&Vec::new()), None);
    assert_eq!(
        final_segment(&vec!["a".to_string(), "b".to_string()]),
        Some("b".to_string())
    );
}

#[test]
fn deploy_copies_then_marks_executable() {
    let c = running("abc");
    let plan = c.copy_binary("/host/path/myapp").unwrap();
    assert_eq!(plan.source, "/host/path/myapp");
    assert_eq!(plan.dest, "/usr/local/bin/myapp");
    assert_eq!(text(&plan.copy.args), ["cp", "/host/path/myapp", "abc:/usr/local/bin/myapp"]);
    assert_eq!(plan.copy.policy, ExitPolicy::Propagate);
    assert_eq!(
        text(&plan.mark.args),
        ["exec", "--user", "root", "-i", "abc", "chmod", "755", "/usr/local/bin/myapp"]
    );
    assert_eq!(plan.mark.policy, ExitPolicy::Propagate);
    let help = c.exec(vec!["myapp", "--help"]).unwrap();
    assert_eq!(text(&help.args), ["exec", "--user", "root", "-i", "abc", "myapp", "--help"]);
    assert_eq!(
        c.copy_binary("").unwrap_err(),
        Error::NoFileName { path: String::new() }
    );
}

#[test]
fn teardown_removes_by_force_once() {
    let mut c = running("abc");
    let rm = c.kill().unwrap();
    assert_eq!(text(&rm.args), ["rm", "--force", "abc"]);
    assert_eq!(rm.policy, ExitPolicy::Abort);
    assert!(!c.is_running());
    assert_eq!(c.state(), Lifecycle::Terminated);
    assert_eq!(c.id(), "abc");
    assert_eq!(c.kill().unwrap_err(), Error::Terminated { id: "abc".to_string() });
    assert_eq!(c.release(), None);
}

#[test]
fn letting_go_removes_what_was_not_torn_down() {
    let mut c = running("abc");
    let rm = c.release().unwrap();
    assert_eq!(text(&rm.args), ["rm", "--force", "abc"]);
    assert_eq!(rm.policy, ExitPolicy::Abort);
    assert!(!c.is_running());
    assert_eq!(c.release(), None);
    assert_eq!(c.kill().unwrap_err(), Error::Terminated { id: "abc".to_string() });
}

#[test]
fn one_removal_whatever_the_owner_does() {
    for torn_down in [false, true] {
        let mut c = running("abc");
        let mut removals = 0;
        c.exec(vec!["true"]).unwrap();
        c.cp("/a", "/b").unwrap();
        if torn_down {
            removals += c.kill().is_ok() as u32;
            removals += c.kill().is_ok() as u32;
        }
        removals += c.release().is_some() as u32;
        removals += c.release().is_some() as u32;
        assert_eq!(removals, 1);
    }
}

#[test]
fn nothing_works_after_teardown() {
    let mut c = running("abc");
    c.kill().unwrap();
    let gone = Error::Terminated { id: "abc".to_string() };
    assert_eq!(c.exec(vec!["true"]).unwrap_err(), gone);
    assert_eq!(c.exec_as("nobody", vec!["true"]).unwrap_err(), gone);
    assert_eq!(c.exec_w_pass("a", "b", vec!["true"]).unwrap_err(), gone);
    assert_eq!(c.cp("/a", "/b").unwrap_err(), gone);
    assert_eq!(c.copy_binary("/host/path/myapp").unwrap_err(), gone);
    assert_eq!(gone.message(), "Container abc has been removed");
}

#[test]
fn failed_removal_is_fatal() {
    let mut c = running("abc");
    c.kill().unwrap();
    assert_eq!(c.removed(&output(Some(0), b"abc\n", b"")), Ok(()));
    let out = output(Some(1), b"", b"permission denied");
    let e = c.removed(&out).unwrap_err();
    assert_eq!(e, Error::Teardown { id: "abc".to_string(), output: out.clone() });
    assert!(e.is_fatal());
}
