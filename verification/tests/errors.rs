use docker_test::error::Error;
use docker_test::process::{ExitStatus, Output};

fn failed() -> Output {
    Output { status: ExitStatus { code: Some(125) }, stdout: b"so far".to_vec(), stderr: b"no such image".to_vec() }
}

fn every_error() -> Vec<Error> {
    vec![
        Error::Launch { reason: "not found".to_string() },
        Error::Exit(failed()),
        Error::Malformed(failed()),
        Error::CacheUnavailable,
        Error::Build(failed()),
        Error::NoFileName { path: "".to_string() },
        Error::Copy {
            from: "/host/a".to_string(),
            to: "/usr/local/bin/a".to_string(),
            id: "c0ffee".to_string(),
            output: failed(),
        },
        Error::Teardown { id: "c0ffee".to_string(), output: failed() },
        Error::Terminated { id: "c0ffee".to_string() },
    ]
}

#[test]
fn messages_name_what_failed() {
    let messages: Vec<String> = every_error().iter().map(|e| e.message()).collect();
    assert_eq!(
        messages,
        [
            "Could not start the container runtime: not found",
            "The container runtime exited with a failure",
            "Unexpected output from the container runtime",
            "Timed out waiting for a build in progress",
            "The build failed",
            "No file name in path ",
            "Copy of /host/a to c0ffee:/usr/local/bin/a failed",
            "Could not remove container c0ffee",
            "Container c0ffee has been removed",
        ]
    );
}

#[test]
fn only_a_failed_teardown_is_fatal() {
    let fatal: Vec<bool> = every_error().iter().map(|e| e.is_fatal()).collect();
    assert_eq!(fatal, [false, false, false, false, false, false, false, true, false]);
}

#[test]
fn runtime_output_travels_with_the_error() {
    let carried: Vec<bool> = every_error().iter().map(|e| e.output().is_some()).collect();
    assert_eq!(carried, [false, true, true, false, true, false, true, true, false]);
    for e in every_error() {
        if let Some(output) = e.output() {
            assert_eq!(output.stdout, b"so far");
            assert_eq!(output.stderr, b"no such image");
            assert_eq!(output.status.code, Some(125));
        }
    }
}

#[test]
fn copies_of_errors_are_equal() {
    for e in every_error() {
        assert_eq!(e.duplicate(), e);
    }
}

#[test]
fn timeout_is_no_build_failure() {
    assert_ne!(Error::CacheUnavailable, Error::Build(failed()));
}
