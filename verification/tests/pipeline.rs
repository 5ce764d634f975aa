//! Pipeline staging: descriptor, write and spawn outcomes, and the engine
//! invocations that the stages plan.

use rockerize::docker::{
    build_after_write, build_docker, build_with_descriptor, error_report, finish_build,
    finish_run, run_command_outcome, run_docker, run_failure_report, BuildJob, BuildType,
    DescriptorEvent, SpawnEvent, WriteEvent,
};
use rockerize::metadata::extract_bin_name;
use rockerize::dockerfile::gen_image_name;

fn job() -> BuildJob {
    BuildJob { exposed_ports: vec![80], add_files: vec!["a.txt".to_string()] }
}

#[test]
fn minimal_descriptor_yields_the_expected_image_name() {
    let content = "[package]\nname = \"app\"\n";
    let bin = extract_bin_name(content, "Cargo.toml").expect("descriptor is valid");
    assert_eq!(gen_image_name(&bin), "rockerized-app:latest");
}

#[test]
fn descriptor_content_plans_the_build() {
    let event = DescriptorEvent::Content {
        path: "/work/Cargo.toml".to_string(),
        content: "[package]\nname = \"app\"\n".to_string(),
    };
    let inv = build_with_descriptor(job(), event).expect("planning succeeds");
    assert_eq!(inv.definition_filename, "Dockerfile.rockerize");
    assert_eq!(inv.image_name, "rockerized-app:latest");
    assert!(inv.definition_content.contains("EXPOSE 80\n"));
    assert!(inv.definition_content.contains("COPY a.txt ./\n"));
    assert!(inv.definition_content.contains("ENTRYPOINT [\"/app\"]"));
}

#[test]
fn descriptor_failures_abort_with_their_messages() {
    let r = build_with_descriptor(job(), DescriptorEvent::NoWorkingDir("denied".to_string()));
    assert_eq!(r.expect_err("must fail"), "failed to get current directory: denied");
    let r = build_with_descriptor(
        job(),
        DescriptorEvent::Unreadable {
            path: "/work/Cargo.toml".to_string(),
            error: "permission denied".to_string(),
        },
    );
    assert_eq!(r.expect_err("must fail"), "failed to read '/work/Cargo.toml': permission denied");
    let r = build_with_descriptor(
        job(),
        DescriptorEvent::Content {
            path: "/work/Cargo.toml".to_string(),
            content: "[package]\n".to_string(),
        },
    );
    assert_eq!(r.expect_err("must fail"), "no `name` in \"/work/Cargo.toml\"");
}

#[test]
fn written_definition_plans_the_build_invocation() {
    let event = DescriptorEvent::Content {
        path: "Cargo.toml".to_string(),
        content: "[package]\nname = \"app\"\n".to_string(),
    };
    let inv = build_with_descriptor(job(), event).expect("planning succeeds");
    let cmd = build_after_write(&inv, WriteEvent::Written).expect("write succeeded");
    assert_eq!(cmd.program, "docker");
    assert_eq!(
        cmd.args,
        vec![
            "build".to_string(),
            "--rm".to_string(),
            "--force-rm".to_string(),
            "--tag".to_string(),
            "rockerized-app:latest".to_string(),
            "--file".to_string(),
            "Dockerfile.rockerize".to_string(),
            ".".to_string(),
        ]
    );
}

#[test]
fn write_failures_abort_with_their_messages() {
    let event = DescriptorEvent::Content {
        path: "Cargo.toml".to_string(),
        content: "[package]\nname = \"app\"\n".to_string(),
    };
    let inv = build_with_descriptor(job(), event).expect("planning succeeds");
    let r = build_after_write(&inv, WriteEvent::NoWorkingDir("gone".to_string()));
    assert_eq!(r.expect_err("must fail"), "failed to get current directory for dockerfile: gone");
    let r = build_after_write(&inv, WriteEvent::CreateFailed("read-only".to_string()));
    assert_eq!(r.expect_err("must fail"), "failed to create dockerfile: read-only");
    let r = build_after_write(&inv, WriteEvent::WriteFailed("disk full".to_string()));
    assert_eq!(r.expect_err("must fail"), "failed to write to dockerfile: disk full");
}

#[test]
fn spawn_failures_propagate_and_do_not_panic() {
    let spawn_error = "No such file or directory (os error 2)".to_string();
    let r = run_command_outcome(SpawnEvent::SpawnFailed(spawn_error.clone()));
    assert_eq!(r.expect_err("must fail"), spawn_error);
    let r = run_command_outcome(SpawnEvent::NoStdout);
    assert_eq!(r.expect_err("must fail"), "got no stdout from the child process");
    assert_eq!(run_command_outcome(SpawnEvent::Streamed), Ok(()));
}

#[test]
fn build_stage_wraps_runner_failures() {
    let image = "rockerized-app:latest".to_string();
    let r = finish_build(image.clone(), SpawnEvent::Streamed);
    assert_eq!(r, Ok(image.clone()));
    let r = finish_build(image.clone(), SpawnEvent::SpawnFailed("boom".to_string()));
    assert_eq!(r.expect_err("must fail"), "failed to build docker image: boom");
    let r = finish_build(image, SpawnEvent::NoStdout);
    assert_eq!(
        r.expect_err("must fail"),
        "failed to build docker image: got no stdout from the child process"
    );
}

#[test]
fn run_stage_wraps_runner_failures() {
    assert_eq!(finish_run(SpawnEvent::Streamed), Ok(()));
    let r = finish_run(SpawnEvent::SpawnFailed("boom".to_string()));
    assert_eq!(r.expect_err("must fail"), "failed to run docker image: boom");
}

#[test]
fn reports_are_rendered_exactly() {
    let image = "rockerized-app:latest".to_string();
    let err = "failed to run docker image: boom".to_string();
    assert_eq!(
        run_failure_report(&image, &err),
        "failed to run docker image: rockerized-app:latest (error: failed to run docker image: boom)"
    );
    assert_eq!(error_report(&"no `name` in \"x\"".to_string()), "error: no `name` in \"x\"");
}

#[test]
fn engine_probe_either_accepts_or_reports_unavailability() {
    match build_docker(BuildType::Locally, vec![80], vec!["a.txt".to_string()]) {
        Ok(job) => {
            assert_eq!(job.exposed_ports, vec![80]);
            assert_eq!(job.add_files, vec!["a.txt".to_string()]);
        }
        Err(m) => assert_eq!(
            m,
            "`docker` is not installed, not in $PATH, or not executable by this application."
        ),
    }
    match run_docker(&"rockerized-app:latest".to_string()) {
        Ok(cmd) => {
            assert_eq!(cmd.program, "docker");
            assert_eq!(
                cmd.args,
                vec!["run".to_string(), "-it".to_string(), "rockerized-app:latest".to_string()]
            );
        }
        Err(m) => assert_eq!(
            m,
            "`docker` is not installed, not in $PATH, or not executable by this application."
        ),
    }
}
