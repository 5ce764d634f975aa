//! The build/run pipeline: probing for the container engine, planning the
//! build from the descriptor, wrapping each stage's failure in its message,
//! and planning the engine invocations. The stages that need the
//! environment (reading the descriptor, writing the definition, spawning
//! the engine) take its answer as an argument, so every decision here is
//! checked for every possible answer.

use vstd::prelude::*;

use crate::dockerfile::{dockerfile_text, gen_dockerfile_from_local, gen_image_name,
    image_name_text};
use crate::metadata::{descriptor_name_found, extract_bin_name, extract_error_message,
    toml_package_name};

verus! {

/// Build types for building your application.
pub enum BuildType {
    /// Build from the sources in the working directory.
    Locally,
}

/// The name under which the container engine is looked up and invoked.
pub open spec fn engine_name() -> Seq<char> {
    "docker"@
}

/// The fixed name of the generated definition file.
pub open spec fn dockerfile_filename() -> Seq<char> {
    "Dockerfile.rockerize"@
}

/// The message reported when the engine cannot be found.
pub open spec fn engine_unavailable_message() -> Seq<char> {
    "`docker` is not installed, not in $PATH, or not executable by this application."@
}

/// Relies on which::which: resolves a binary name against the executable
/// search path, succeeding exactly when the name resolves. The outcome
/// depends on the machine's environment, so nothing is promised of it.
#[verifier::external_body]
fn engine_on_path(name: &str) -> bool {
    which::which(name).is_ok()
}

/// Probes for the container engine on the search path. Whether the probe
/// succeeds depends on the machine; when it fails, the result is exactly
/// the engine-unavailable message.
pub(crate) fn check_docker() -> (r: Result<(), String>)
    ensures
        r matches Err(m) ==> m@ == engine_unavailable_message(),
{
    if engine_on_path("docker") {
        Ok(())
    } else {
        Err(
            String::from_str(
                "`docker` is not installed, not in $PATH, or not executable by this application.",
            ),
        )
    }
}

/// A planned engine invocation: the program to spawn and its arguments.
#[derive(Debug)]
pub struct EngineInvocation {
    /// The program name.
    pub program: String,
    /// The arguments, in order.
    pub args: Vec<String>,
}

/// The arguments of the engine's build subcommand for `image`: remove
/// intermediate containers, force-remove on failure, tag with the image
/// name, use the generated definition file, build in the working directory.
pub open spec fn build_args_of(image: Seq<char>) -> Seq<Seq<char>> {
    seq![
        "build"@,
        "--rm"@,
        "--force-rm"@,
        "--tag"@,
        image,
        "--file"@,
        dockerfile_filename(),
        "."@,
    ]
}

/// The arguments of the engine's run subcommand for `image`, in
/// interactive-TTY mode.
pub open spec fn run_args_of(image: Seq<char>) -> Seq<Seq<char>> {
    seq!["run"@, "-it"@, image]
}

/// A build accepted for processing: the engine is available, and the
/// descriptor has still to be read.
#[derive(Debug)]
pub struct BuildJob {
    /// Ports to expose, in command-line order.
    pub exposed_ports: Vec<i32>,
    /// Files to copy into the image, in command-line order.
    pub add_files: Vec<String>,
}

/// Starts a build: probes for the engine and, if it is available, accepts
/// the request unchanged; otherwise reports the engine-unavailable message.
pub fn build_docker(build_type: BuildType, exposed_ports: Vec<i32>, add_files: Vec<String>) -> (r:
    Result<BuildJob, String>)
    ensures
        r matches Err(m) ==> m@ == engine_unavailable_message(),
        r matches Ok(job) ==> (job.exposed_ports@ == exposed_ports@ && job.add_files.deep_view()
            == add_files.deep_view()),
{
    match check_docker() {
        Ok(()) => match build_type {
            BuildType::Locally => Ok(BuildJob { exposed_ports, add_files }),
        },
        Err(m) => Err(m),
    }
}

/// What the environment reports when asked for the project descriptor.
pub enum DescriptorEvent {
    /// The working directory could not be resolved; the underlying error.
    NoWorkingDir(String),
    /// The descriptor file could not be read: its path and the error.
    Unreadable {
        /// The path that was read.
        path: String,
        /// The underlying error text.
        error: String,
    },
    /// The descriptor was read: its path and its text.
    Content {
        /// The path that was read.
        path: String,
        /// The text of the descriptor.
        content: String,
    },
}

/// The message reported when the working directory cannot be resolved for
/// the descriptor.
pub open spec fn cwd_error_message(err: Seq<char>) -> Seq<char> {
    "failed to get current directory: "@ + err
}

/// The message reported when the descriptor cannot be read.
pub open spec fn read_error_message(path: Seq<char>, err: Seq<char>) -> Seq<char> {
    "failed to read '"@ + path + "': "@ + err
}

/// A fully planned build: the definition to write, and the names derived
/// from the descriptor.
#[derive(Debug)]
pub struct BuildInvocation {
    /// The fixed name of the definition file to write.
    pub definition_filename: String,
    /// The rendered definition text.
    pub definition_content: String,
    /// The image name to tag the build with and to run afterwards.
    pub image_name: String,
}

/// Continues a build once the environment has answered for the descriptor:
/// a failure to resolve the directory or read the file aborts with its
/// message; otherwise the binary name is extracted and the definition and
/// image name are derived from it, exactly as rendered by
/// [`gen_dockerfile_from_local`] and [`gen_image_name`].
pub fn build_with_descriptor(job: BuildJob, event: DescriptorEvent) -> (r: Result<
    BuildInvocation,
    String,
>)
    ensures
        event matches DescriptorEvent::NoWorkingDir(e) ==> (r matches Err(m) && m@
            == cwd_error_message(e@)),
        event matches DescriptorEvent::Unreadable { path, error } ==> (r matches Err(m) && m@
            == read_error_message(path@, error@)),
        event matches DescriptorEvent::Content { path, content } ==> {
            &&& (r is Ok <==> descriptor_name_found(content@))
            &&& (r matches Ok(inv) ==> (toml_package_name(content@) matches Some(name) && {
                &&& inv.definition_filename@ == dockerfile_filename()
                &&& inv.definition_content@ == dockerfile_text(
                    name,
                    job.exposed_ports@,
                    job.add_files.deep_view(),
                )
                &&& inv.image_name@ == image_name_text(name)
            }))
            &&& (r matches Err(m) ==> m@ == extract_error_message(content@, path@))
        },
{
    match event {
        DescriptorEvent::NoWorkingDir(e) => {
            let mut s = String::from_str("failed to get current directory: ");
            s.append(e.as_str());
            proof {
                assert(s@ =~= cwd_error_message(e@));
            }
            Err(s)
        },
        DescriptorEvent::Unreadable { path, error } => {
            let mut s = String::from_str("failed to read '");
            s.append(path.as_str());
            s.append("': ");
            s.append(error.as_str());
            proof {
                assert(s@ =~= read_error_message(path@, error@));
            }
            Err(s)
        },
        DescriptorEvent::Content { path, content } => {
            match extract_bin_name(content.as_str(), path.as_str()) {
                Ok(bin_name) => {
                    let definition_content = gen_dockerfile_from_local(
                        &bin_name,
                        job.exposed_ports,
                        job.add_files,
                    );
                    let image_name = gen_image_name(&bin_name);
                    Ok(
                        BuildInvocation {
                            definition_filename: String::from_str("Dockerfile.rockerize"),
                            definition_content,
                            image_name,
                        },
                    )
                },
                Err(m) => Err(m),
            }
        },
    }
}

/// What the environment reports after being asked to write the definition.
pub enum WriteEvent {
    /// The working directory could not be resolved; the underlying error.
    NoWorkingDir(String),
    /// The definition file could not be created; the underlying error.
    CreateFailed(String),
    /// The definition could not be written; the underlying error.
    WriteFailed(String),
    /// The definition was written.
    Written,
}

/// The message reported when the working directory cannot be resolved for
/// the definition file.
pub open spec fn cwd_for_dockerfile_message(err: Seq<char>) -> Seq<char> {
    "failed to get current directory for dockerfile: "@ + err
}

/// The message reported when the definition file cannot be created.
pub open spec fn create_error_message(err: Seq<char>) -> Seq<char> {
    "failed to create dockerfile: "@ + err
}

/// The message reported when the definition cannot be written.
pub open spec fn write_error_message(err: Seq<char>) -> Seq<char> {
    "failed to write to dockerfile: "@ + err
}

/// Continues a build once the environment has answered for the definition
/// write: a failure aborts with its message; success yields the engine's
/// build invocation for the planned image.
pub fn build_after_write(inv: &BuildInvocation, event: WriteEvent) -> (r: Result<
    EngineInvocation,
    String,
>)
    ensures
        event matches WriteEvent::NoWorkingDir(e) ==> (r matches Err(m) && m@
            == cwd_for_dockerfile_message(e@)),
        event matches WriteEvent::CreateFailed(e) ==> (r matches Err(m) && m@
            == create_error_message(e@)),
        event matches WriteEvent::WriteFailed(e) ==> (r matches Err(m) && m@
            == write_error_message(e@)),
        event is Written ==> (r matches Ok(cmd) && cmd.program@ == engine_name()
            && cmd.args.deep_view() == build_args_of(inv.image_name@)),
{
    match event {
        WriteEvent::NoWorkingDir(e) => {
            let mut s = String::from_str("failed to get current directory for dockerfile: ");
            s.append(e.as_str());
            proof {
                assert(s@ =~= cwd_for_dockerfile_message(e@));
            }
            Err(s)
        },
        WriteEvent::CreateFailed(e) => {
            let mut s = String::from_str("failed to create dockerfile: ");
            s.append(e.as_str());
            proof {
                assert(s@ =~= create_error_message(e@));
            }
            Err(s)
        },
        WriteEvent::WriteFailed(e) => {
            let mut s = String::from_str("failed to write to dockerfile: ");
            s.append(e.as_str());
            proof {
                assert(s@ =~= write_error_message(e@));
            }
            Err(s)
        },
        WriteEvent::Written => {
            let mut args: Vec<String> = Vec::new();
            args.push(String::from_str("build"));
            args.push(String::from_str("--rm"));
            args.push(String::from_str("--force-rm"));
            args.push(String::from_str("--tag"));
            args.push(inv.image_name.clone());
            args.push(String::from_str("--file"));
            args.push(String::from_str("Dockerfile.rockerize"));
            args.push(String::from_str("."));
            proof {
                assert(args.deep_view() =~= build_args_of(inv.image_name@));
            }
            Ok(EngineInvocation { program: String::from_str("docker"), args })
        },
    }
}

/// How spawning the engine went, as the environment reports it.
pub enum SpawnEvent {
    /// The process could not be spawned; the underlying error.
    SpawnFailed(String),
    /// The spawned process exposed no standard-output stream.
    NoStdout,
    /// The process was spawned and its output was streamed. Its exit status
    /// is not inspected.
    Streamed,
}

/// The message reported when a spawned process has no stdout stream.
pub open spec fn no_stdout_message() -> Seq<char> {
    "got no stdout from the child process"@
}

/// How the process runner concludes: a spawn failure propagates its own error
/// text, a missing stdout stream is an error, and a process whose output
/// streamed is a success -- its exit status is not inspected.
pub fn run_command_outcome(event: SpawnEvent) -> (r: Result<(), String>)
    ensures
        r is Ok <==> event is Streamed,
        event matches SpawnEvent::SpawnFailed(e) ==> (r matches Err(m) && m@ == e@),
        event is NoStdout ==> (r matches Err(m) && m@ == no_stdout_message()),
{
    match event {
        SpawnEvent::SpawnFailed(e) => Err(e),
        SpawnEvent::NoStdout => Err(String::from_str("got no stdout from the child process")),
        SpawnEvent::Streamed => Ok(()),
    }
}

/// The message wrapped around a build-stage spawn failure.
pub open spec fn build_failed_message(err: Seq<char>) -> Seq<char> {
    "failed to build docker image: "@ + err
}

/// Concludes the build once the environment has answered for the engine's
/// build invocation: success yields the image name; a failure of the runner
/// is wrapped in the build-failure message.
pub fn finish_build(image_name: String, event: SpawnEvent) -> (r: Result<String, String>)
    ensures
        r is Ok <==> event is Streamed,
        r matches Ok(img) ==> img@ == image_name@,
        event matches SpawnEvent::SpawnFailed(e) ==> (r matches Err(m) && m@
            == build_failed_message(e@)),
        event is NoStdout ==> (r matches Err(m) && m@ == build_failed_message(
            no_stdout_message(),
        )),
{
    match run_command_outcome(event) {
        Ok(()) => Ok(image_name),
        Err(e) => {
            let mut s = String::from_str("failed to build docker image: ");
            s.append(e.as_str());
            proof {
                assert(s@ =~= build_failed_message(e@));
            }
            Err(s)
        },
    }
}

/// Plans the run of `image_name`: probes for the engine, then yields the
/// engine's run invocation in interactive mode.
pub fn run_docker(image_name: &String) -> (r: Result<EngineInvocation, String>)
    ensures
        r matches Err(m) ==> m@ == engine_unavailable_message(),
        r matches Ok(cmd) ==> (cmd.program@ == engine_name() && cmd.args.deep_view()
            == run_args_of(image_name@)),
{
    match check_docker() {
        Ok(()) => {
            let mut args: Vec<String> = Vec::new();
            args.push(String::from_str("run"));
            args.push(String::from_str("-it"));
            args.push(image_name.clone());
            proof {
                assert(args.deep_view() =~= run_args_of(image_name@));
            }
            Ok(EngineInvocation { program: String::from_str("docker"), args })
        },
        Err(m) => Err(m),
    }
}

/// The message wrapped around a run-stage spawn failure.
pub open spec fn run_failed_message(err: Seq<char>) -> Seq<char> {
    "failed to run docker image: "@ + err
}

/// Concludes the run once the environment has answered for the engine's run
/// invocation: a failure of the runner is wrapped in the run-failure
/// message. A run failure is reported, not escalated: the caller prints it
/// and terminates cleanly.
pub fn finish_run(event: SpawnEvent) -> (r: Result<(), String>)
    ensures
        r is Ok <==> event is Streamed,
        event matches SpawnEvent::SpawnFailed(e) ==> (r matches Err(m) && m@ == run_failed_message(
            e@,
        )),
        event is NoStdout ==> (r matches Err(m) && m@ == run_failed_message(no_stdout_message())),
{
    match run_command_outcome(event) {
        Ok(()) => Ok(()),
        Err(e) => {
            let mut s = String::from_str("failed to run docker image: ");
            s.append(e.as_str());
            proof {
                assert(s@ =~= run_failed_message(e@));
            }
            Err(s)
        },
    }
}

/// The console report for a run failure after a successful build: the image
/// name and the error, on one line.
pub open spec fn run_failure_report_text(image: Seq<char>, err: Seq<char>) -> Seq<char> {
    "failed to run docker image: "@ + image + " (error: "@ + err + ")"@
}

/// Renders the console report for a run failure after a successful build.
pub fn run_failure_report(image_name: &String, error: &String) -> (r: String)
    ensures
        r@ == run_failure_report_text(image_name@, error@),
{
    let mut s = String::from_str("failed to run docker image: ");
    s.append(image_name.as_str());
    s.append(" (error: ");
    s.append(error.as_str());
    s.append(")");
    proof {
        assert(s@ =~= run_failure_report_text(image_name@, error@));
    }
    s
}

/// The console report for a pipeline error.
pub open spec fn error_report_text(err: Seq<char>) -> Seq<char> {
    "error: "@ + err
}

/// Renders the console report for a pipeline error.
pub fn error_report(error: &String) -> (r: String)
    ensures
        r@ == error_report_text(error@),
{
    let mut s = String::from_str("error: ");
    s.append(error.as_str());
    proof {
        assert(s@ =~= error_report_text(error@));
    }
    s
}

} // verus!
