//! Running code: from a language and an entry point to a request for the
//! execution engine.

use vstd::prelude::*;
use vstd::utf8::is_ascii_chars;
use crate::docker::container::{ascii_name_slice, has_name_slice};
use crate::docker::engine::EngineAction;
use crate::docker::manager::DockerManager;
use crate::docker::model::{stop_plan, StopPlan};
use crate::docker::registry::is_snapshot;
use crate::docker::types::{ContainerInfo, ExecutionRequest};
use crate::error::ShellError;
use crate::text::{lowercase, same_text, text_pairs, texts, to_lowercase};

verus! {

/// What the user interface sends to have code run.
#[derive(Debug, Clone)]
pub struct RunCodeRequest {
    /// Language of the code.
    pub language: String,
    /// The code itself.
    pub code: String,
    /// Directory of the project on the host.
    pub project_path: String,
    /// File to start with; `main` where none is named.
    pub entry_point: Option<String>,
    /// Standard input for the program. Accepted and not passed on.
    pub stdin: Option<String>,
    pub env: Option<Vec<(String, String)>>,
    pub step_mode: Option<bool>,
    pub trace_io: Option<bool>,
    /// Timeout in seconds.
    pub timeout: Option<u64>,
}

/// What is running at the moment.
#[derive(Debug, Clone)]
pub struct ExecutionStatus {
    pub running: bool,
    pub containers: Vec<ContainerInfo>,
}

/// The image for a language, named in lower case; none for a language that
/// is not supported.
pub open spec fn image_of(language: Seq<char>) -> Option<Seq<char>> {
    if language == "python"@ || language == "py"@ {
        Some("python:3.12-slim"@)
    } else if language == "javascript"@ || language == "js"@ || language == "node"@ {
        Some("node:20-slim"@)
    } else if language == "typescript"@ || language == "ts"@ {
        Some("node:20-slim"@)
    } else if language == "rust"@ || language == "rs"@ {
        Some("rust:1.75-slim"@)
    } else if language == "go"@ || language == "golang"@ {
        Some("golang:1.21-alpine"@)
    } else if language == "java"@ {
        Some("eclipse-temurin:21-jdk"@)
    } else if language == "c"@ || language == "cpp"@ || language == "c++"@ {
        Some("gcc:13"@)
    } else if language == "ruby"@ || language == "rb"@ {
        Some("ruby:3.3-slim"@)
    } else {
        None
    }
}

/// The command that runs an entry point in a language, named in lower case;
/// none for a language that is not supported.
pub open spec fn command_of(language: Seq<char>, entry_point: Seq<char>) -> Option<
    Seq<Seq<char>>,
> {
    if language == "python"@ || language == "py"@ {
        Some(seq!["python"@, entry_point])
    } else if language == "javascript"@ || language == "js"@ || language == "node"@ {
        Some(seq!["node"@, entry_point])
    } else if language == "typescript"@ || language == "ts"@ {
        Some(seq!["npx"@, "tsx"@, entry_point])
    } else if language == "rust"@ || language == "rs"@ {
        Some(seq!["cargo"@, "run"@])
    } else if language == "go"@ || language == "golang"@ {
        Some(seq!["go"@, "run"@, entry_point])
    } else if language == "java"@ {
        Some(seq!["java"@, entry_point])
    } else if language == "c"@ {
        Some(seq!["sh"@, "-c"@, "gcc "@ + entry_point + " -o /tmp/a.out && /tmp/a.out"@])
    } else if language == "cpp"@ || language == "c++"@ {
        Some(seq!["sh"@, "-c"@, "g++ "@ + entry_point + " -o /tmp/a.out && /tmp/a.out"@])
    } else if language == "ruby"@ || language == "rb"@ {
        Some(seq!["ruby"@, entry_point])
    } else {
        None
    }
}

/// The text of the error for a language that is not supported.
pub open spec fn unsupported(language: Seq<char>) -> Seq<char> {
    "Unsupported language: "@ + language
}

/// The error for a language that is not supported.
fn unsupported_language(language: &str) -> (error: ShellError)
    ensures
        error matches ShellError::Execution(text) && text@ == unsupported(language@),
{
    let mut text = "Unsupported language: ".to_owned();
    text.append(language);
    ShellError::Execution(text)
}

/// The image for a language named in lower case.
pub fn language_image(language: &str) -> (image: Option<String>)
    ensures
        match image {
            Some(name) => image_of(language@) == Some(name@),
            None => image_of(language@) is None,
        },
{
    if same_text(language, "python") || same_text(language, "py") {
        Some("python:3.12-slim".to_owned())
    } else if same_text(language, "javascript") || same_text(language, "js") || same_text(
        language,
        "node",
    ) {
        Some("node:20-slim".to_owned())
    } else if same_text(language, "typescript") || same_text(language, "ts") {
        Some("node:20-slim".to_owned())
    } else if same_text(language, "rust") || same_text(language, "rs") {
        Some("rust:1.75-slim".to_owned())
    } else if same_text(language, "go") || same_text(language, "golang") {
        Some("golang:1.21-alpine".to_owned())
    } else if same_text(language, "java") {
        Some("eclipse-temurin:21-jdk".to_owned())
    } else if same_text(language, "c") || same_text(language, "cpp") || same_text(
        language,
        "c++",
    ) {
        Some("gcc:13".to_owned())
    } else if same_text(language, "ruby") || same_text(language, "rb") {
        Some("ruby:3.3-slim".to_owned())
    } else {
        None
    }
}

/// The image for a language, whatever the case it is written in.
pub fn get_language_image(language: &str) -> (result: Result<String, ShellError>)
    ensures
        match image_of(lowercase(language@)) {
            Some(image) => result matches Ok(name) && name@ == image,
            None => result matches Err(ShellError::Execution(text)) && text@ == unsupported(
                language@,
            ),
        },
{
    let lowered = to_lowercase(language);
    match language_image(lowered.as_str()) {
        Some(image) => Ok(image),
        None => Err(unsupported_language(language)),
    }
}

/// A list of two texts.
fn two(a: &str, b: &str) -> (list: Vec<String>)
    ensures
        texts(list@) == seq![a@, b@],
{
    let mut list: Vec<String> = Vec::new();
    list.push(a.to_owned());
    list.push(b.to_owned());
    assert(texts(list@) =~= seq![a@, b@]);
    list
}

/// A list of three texts.
fn three(a: &str, b: &str, c: &str) -> (list: Vec<String>)
    ensures
        texts(list@) == seq![a@, b@, c@],
{
    let mut list: Vec<String> = Vec::new();
    list.push(a.to_owned());
    list.push(b.to_owned());
    list.push(c.to_owned());
    assert(texts(list@) =~= seq![a@, b@, c@]);
    list
}

/// A shell command that compiles an entry point and runs what comes out.
fn compile_and_run(compiler: &str, entry_point: &str) -> (script: String)
    ensures
        script@ == compiler@ + entry_point@ + " -o /tmp/a.out && /tmp/a.out"@,
{
    let mut script = compiler.to_owned();
    script.append(entry_point);
    script.append(" -o /tmp/a.out && /tmp/a.out");
    script
}

/// The command that runs an entry point in a language named in lower case.
pub fn run_command(language: &str, entry_point: &str) -> (command: Option<Vec<String>>)
    ensures
        match command {
            Some(list) => command_of(language@, entry_point@) == Some(texts(list@)),
            None => command_of(language@, entry_point@) is None,
        },
{
    if same_text(language, "python") || same_text(language, "py") {
        Some(two("python", entry_point))
    } else if same_text(language, "javascript") || same_text(language, "js") || same_text(
        language,
        "node",
    ) {
        Some(two("node", entry_point))
    } else if same_text(language, "typescript") || same_text(language, "ts") {
        Some(three("npx", "tsx", entry_point))
    } else if same_text(language, "rust") || same_text(language, "rs") {
        Some(two("cargo", "run"))
    } else if same_text(language, "go") || same_text(language, "golang") {
        Some(three("go", "run", entry_point))
    } else if same_text(language, "java") {
        Some(two("java", entry_point))
    } else if same_text(language, "c") {
        let script = compile_and_run("gcc ", entry_point);
        Some(three("sh", "-c", script.as_str()))
    } else if same_text(language, "cpp") || same_text(language, "c++") {
        let script = compile_and_run("g++ ", entry_point);
        Some(three("sh", "-c", script.as_str()))
    } else if same_text(language, "ruby") || same_text(language, "rb") {
        Some(two("ruby", entry_point))
    } else {
        None
    }
}

/// The command that runs an entry point in a language, whatever the case the
/// language is written in.
pub fn get_run_command(language: &str, entry_point: &str) -> (result: Result<
    Vec<String>,
    ShellError,
>)
    ensures
        match command_of(lowercase(language@), entry_point@) {
            Some(command) => result matches Ok(list) && texts(list@) == command,
            None => result matches Err(ShellError::Execution(text)) && text@ == unsupported(
                language@,
            ),
        },
{
    let lowered = to_lowercase(language);
    match run_command(lowered.as_str(), entry_point) {
        Some(command) => Ok(command),
        None => Err(unsupported_language(language)),
    }
}

/// `uuid::Uuid::new_v4` and its `to_string`: a fresh random identifier in
/// the hyphenated form, thirty-six ASCII characters. Nothing else is claimed
/// of it: it is random.
#[verifier::external_body]
pub(crate) fn new_execution_id() -> (id: String)
    ensures
        id@.len() == 36,
        is_ascii_chars(id@),
{
    uuid::Uuid::new_v4().to_string()
}

/// The entry point of a request: the one it names, or `main`.
pub open spec fn entry_point_of(request: RunCodeRequest) -> Seq<char> {
    match request.entry_point {
        Some(entry) => entry@,
        None => "main"@,
    }
}

/// The environment of a request: the one it brings, or none.
pub open spec fn env_of(request: RunCodeRequest) -> Seq<(Seq<char>, Seq<char>)> {
    match request.env {
        Some(env) => text_pairs(env@),
        None => Seq::empty(),
    }
}

/// Whether an execution request is the one that a request to run code calls
/// for under an identifier: the image and the command of the language, the
/// project mounted as the source, `/workspace` as the working directory, no
/// limits of its own, no step mode unless asked for, and traced output
/// unless declined.
pub open spec fn is_request_for(
    execution: ExecutionRequest,
    request: RunCodeRequest,
    id: Seq<char>,
) -> bool {
    &&& execution.id@ == id
    &&& image_of(lowercase(request.language@)) == Some(execution.image@)
    &&& command_of(lowercase(request.language@), entry_point_of(request)) == Some(
        texts(execution.command@),
    )
    &&& execution.working_dir@ == "/workspace"@
    &&& execution.source_path@ == request.project_path@
    &&& text_pairs(execution.env@) == env_of(request)
    &&& execution.memory_limit is None
    &&& execution.cpu_quota is None
    &&& execution.timeout == request.timeout
    &&& execution.step_mode == (request.step_mode == Some(true))
    &&& execution.trace_io == (request.trace_io != Some(false))
}

/// Whether a request to run code can be turned into an execution: the
/// engine is available and the language is supported.
pub open spec fn can_run(request: RunCodeRequest, available: bool) -> bool {
    available && image_of(lowercase(request.language@)) is Some
}

/// The error that a request to run code meets where it cannot be turned into
/// an execution.
pub open spec fn refusal(request: RunCodeRequest, available: bool, error: ShellError) -> bool {
    if !available {
        error matches ShellError::Docker(text) && text@
            == "Docker is not available. Please install and start Docker."@
    } else {
        error matches ShellError::Execution(text) && text@ == unsupported(request.language@)
    }
}

/// A language with an image has a command, and the other way round.
pub proof fn image_and_command_agree(language: Seq<char>, entry_point: Seq<char>)
    ensures
        image_of(language) is Some <==> command_of(language, entry_point) is Some,
{
}

/// Turns a request to run code into a request for the execution engine
/// under the identifier given, or says why it cannot be run.
pub fn execution_request(request: RunCodeRequest, available: bool, id: String) -> (result: Result<
    ExecutionRequest,
    ShellError,
>)
    ensures
        match result {
            Ok(execution) => can_run(request, available) && is_request_for(
                execution,
                request,
                id@,
            ),
            Err(error) => !can_run(request, available) && refusal(request, available, error),
        },
{
    if !available {
        return Err(
            ShellError::Docker(
                "Docker is not available. Please install and start Docker.".to_owned(),
            ),
        );
    }
    let image = match get_language_image(request.language.as_str()) {
        Ok(image) => image,
        Err(error) => {
            return Err(error);
        },
    };
    let command = match &request.entry_point {
        Some(entry) => get_run_command(request.language.as_str(), entry.as_str()),
        None => get_run_command(request.language.as_str(), "main"),
    };
    let command = match command {
        Ok(command) => command,
        Err(error) => {
            proof {
                image_and_command_agree(lowercase(request.language@), entry_point_of(request));
            }
            return Err(error);
        },
    };
    let env: Vec<(String, String)> = match request.env {
        Some(env) => env,
        None => Vec::new(),
    };
    let step_mode = match request.step_mode {
        Some(on) => on,
        None => false,
    };
    let trace_io = match request.trace_io {
        Some(on) => on,
        None => true,
    };
    let execution = ExecutionRequest {
        id,
        image,
        command,
        working_dir: "/workspace".to_owned(),
        source_path: request.project_path,
        env,
        memory_limit: None,
        cpu_quota: None,
        timeout: request.timeout,
        step_mode,
        trace_io,
    };
    assert(text_pairs(execution.env@) =~= env_of(request));
    Ok(execution)
}

/// Turns a request to run code into a request for the execution engine
/// under a fresh random identifier, or says why it cannot be run. The
/// identifier always has the slice that the container's name is made from.
pub fn run_code(request: RunCodeRequest, available: bool) -> (result: Result<
    ExecutionRequest,
    ShellError,
>)
    ensures
        match result {
            Ok(execution) => can_run(request, available) && is_request_for(
                execution,
                request,
                execution.id@,
            ) && has_name_slice(execution.id@),
            Err(error) => !can_run(request, available) && refusal(request, available, error),
        },
{
    let id = new_execution_id();
    proof {
        ascii_name_slice(id@);
    }
    execution_request(request, available, id)
}

/// What to do to stop an execution: see `DockerManager::stop`.
pub fn stop_execution(execution_id: &str, docker: &DockerManager) -> (plan: Result<
    Option<EngineAction>,
    ShellError,
>)
    requires
        docker.well_formed(),
    ensures
        match stop_plan(docker@, execution_id@) {
            StopPlan::Nothing => plan matches Ok(None),
            StopPlan::Kill { container_id } => plan matches Ok(
                Some(EngineAction::Kill { container_id: killed }),
            ) && killed@ == container_id,
            StopPlan::NotConnected => plan matches Err(ShellError::Docker(text)) && text@
                == "Docker not connected"@,
        },
{
    docker.stop(execution_id)
}

/// What is running at the moment: the live containers, and whether there is
/// any.
pub fn get_execution_status(docker: &DockerManager) -> (result: Result<
    ExecutionStatus,
    ShellError,
>)
    requires
        docker.well_formed(),
    ensures
        result matches Ok(status) && status.running == (status.containers@.len() > 0)
            && is_snapshot(status.containers@, docker@.running) && status.containers@.len()
            == docker.running_count(),
{
    let containers = docker.get_running();
    Ok(ExecutionStatus { running: containers.len() > 0, containers })
}

} // verus!
