//! Making a local model server ready: finding it, starting it, waiting for it and pulling the
//! model.
#[allow(unused_imports)]
use crate::text::{
    cat2, cat3, contains, contains_line, from_utf8_lossy, has_line, lossy_text, occurs, opt_str,
    same, texts, trim, trim_end_matches, trim_end_of, trimmed,
};
use vstd::prelude::*;
#[allow(unused_imports)]
use vstd::utf8::{decode_utf8, valid_utf8};

verus! {

/// The container that the server runs in.
pub const DOCKER_CONTAINER: &'static str = "wezterm-ollama";

/// The image that the container is made from.
pub const DOCKER_IMAGE: &'static str = "ollama/ollama";

/// The model that is pulled where none is configured.
pub const DEFAULT_PULL_MODEL: &'static str = "qwen2.5-coder:7b";

/// How often the server is asked whether it is up.
pub const PROBES: u32 = 16;

/// How long, in seconds, an answer may take.
pub const PROBE_TIMEOUT: u64 = 2;

/// Whether a server address is one of this machine.
pub open spec fn is_local(base_url: Seq<char>) -> bool {
    ||| occurs(base_url, "localhost"@)
    ||| occurs(base_url, "127.0.0.1"@)
    ||| occurs(base_url, "0.0.0.0"@)
}

/// Whether a server address is one of this machine.
pub fn is_local_base_url(base_url: &str) -> (r: bool)
    ensures
        r == is_local(base_url@),
{
    contains(base_url, "localhost") || contains(base_url, "127.0.0.1") || contains(
        base_url,
        "0.0.0.0",
    )
}

/// What went wrong.
#[derive(Clone, Copy, Debug, PartialEq, Eq, Structural)]
pub enum OllamaFailure {
    /// No request could be made.
    HttpClient,
    /// There is no server, and it is not one that can be started here.
    Unavailable,
    /// The server was started and does not answer.
    NotReady,
    /// The server's program could not be started.
    ServeNotStarted,
    /// The pull could not be run.
    PullNotRun,
    /// The pull failed.
    PullFailed,
    /// Docker could not be asked for.
    DockerNotChecked,
    /// Docker is not there.
    DockerUnavailable,
    /// The state of the container could not be asked for.
    InspectNotRun,
    /// The containers could not be listed.
    ListNotRun,
    /// The container could not be started.
    StartNotRun,
    /// The container could not be made.
    RunNotRun,
    /// The pull in the container could not be run.
    DockerPullNotRun,
    /// The pull in the container failed.
    DockerPullFailed,
}

/// What is to be done next.
#[derive(Clone, Copy, Debug, PartialEq, Eq, Structural)]
pub enum OllamaStage {
    /// Ask the server for its models.
    CheckFirst,
    /// See whether the server's program is installed.
    QueryCli,
    /// Start the server's program.
    StartServe,
    /// Ask the server, after so many attempts, whether it is up.
    Probe { docker: bool, attempt: u32 },
    /// Wait after the attempt.
    Sleep { docker: bool, attempt: u32 },
    /// See whether Docker is there.
    DockerVersion,
    /// See whether the container runs.
    DockerInspect,
    /// See whether the container exists.
    DockerList,
    /// Start the container.
    DockerStart,
    /// Make and start the container.
    DockerRun,
    /// See whether the server's program is installed, to pull with it.
    QueryPullCli,
    /// Pull the model.
    Pull,
    /// Pull the model in the container.
    DockerPull,
    /// Nothing: the server is ready.
    Done,
    /// Nothing: it cannot be made ready.
    Failed(OllamaFailure),
}

/// How it went.
#[derive(Clone, Copy, Debug, PartialEq, Eq, Structural)]
pub enum Outcome {
    /// The server answered well, or the program ended well.
    Success,
    /// The server did not answer well, or the program ended in failure.
    Failure,
    /// It could not be done at all.
    Broken,
}

/// What the user is told on the way.
#[derive(Clone, Copy, Debug, PartialEq, Eq, Structural)]
pub enum OllamaStatus {
    Checking,
    StartingService,
    StartingDocker,
    Waiting,
    Ready,
    SkippingPull,
    Pulling,
    PullingInDocker,
}

/// What follows a stage. `printed` is what the program printed.
pub open spec fn next_stage(
    stage: OllamaStage,
    local: bool,
    outcome: Outcome,
    printed: Seq<char>,
) -> OllamaStage {
    match stage {
        OllamaStage::CheckFirst => match outcome {
            Outcome::Success => OllamaStage::QueryPullCli,
            Outcome::Failure => if local {
                OllamaStage::QueryCli
            } else {
                OllamaStage::Failed(OllamaFailure::Unavailable)
            },
            Outcome::Broken => OllamaStage::Failed(OllamaFailure::HttpClient),
        },
        OllamaStage::QueryCli => if outcome == Outcome::Success {
            OllamaStage::StartServe
        } else {
            OllamaStage::DockerVersion
        },
        OllamaStage::StartServe => if outcome == Outcome::Broken {
            OllamaStage::Failed(OllamaFailure::ServeNotStarted)
        } else {
            OllamaStage::Probe { docker: false, attempt: 0 }
        },
        OllamaStage::Probe { docker, attempt } => match outcome {
            Outcome::Success => if docker {
                OllamaStage::DockerPull
            } else {
                OllamaStage::QueryPullCli
            },
            Outcome::Failure => OllamaStage::Sleep { docker, attempt },
            Outcome::Broken => OllamaStage::Failed(OllamaFailure::HttpClient),
        },
        OllamaStage::Sleep { docker, attempt } => if attempt + 1 < PROBES {
            OllamaStage::Probe { docker, attempt: (attempt + 1) as u32 }
        } else {
            OllamaStage::Failed(OllamaFailure::NotReady)
        },
        OllamaStage::DockerVersion => match outcome {
            Outcome::Success => OllamaStage::DockerInspect,
            Outcome::Failure => OllamaStage::Failed(OllamaFailure::DockerUnavailable),
            Outcome::Broken => OllamaStage::Failed(OllamaFailure::DockerNotChecked),
        },
        OllamaStage::DockerInspect => if outcome == Outcome::Broken {
            OllamaStage::Failed(OllamaFailure::InspectNotRun)
        } else if outcome == Outcome::Success && trimmed(printed) == "true"@ {
            OllamaStage::Probe { docker: true, attempt: 0 }
        } else {
            OllamaStage::DockerList
        },
        OllamaStage::DockerList => if outcome == Outcome::Broken {
            OllamaStage::Failed(OllamaFailure::ListNotRun)
        } else if outcome == Outcome::Success && has_line(printed, DOCKER_CONTAINER@) {
            OllamaStage::DockerStart
        } else {
            OllamaStage::DockerRun
        },
        OllamaStage::DockerStart => if outcome == Outcome::Broken {
            OllamaStage::Failed(OllamaFailure::StartNotRun)
        } else {
            OllamaStage::Probe { docker: true, attempt: 0 }
        },
        OllamaStage::DockerRun => if outcome == Outcome::Broken {
            OllamaStage::Failed(OllamaFailure::RunNotRun)
        } else {
            OllamaStage::Probe { docker: true, attempt: 0 }
        },
        OllamaStage::QueryPullCli => if outcome == Outcome::Success {
            OllamaStage::Pull
        } else {
            OllamaStage::Done
        },
        OllamaStage::Pull => match outcome {
            Outcome::Success => OllamaStage::Done,
            Outcome::Failure => OllamaStage::Failed(OllamaFailure::PullFailed),
            Outcome::Broken => OllamaStage::Failed(OllamaFailure::PullNotRun),
        },
        OllamaStage::DockerPull => match outcome {
            Outcome::Success => OllamaStage::Done,
            Outcome::Failure => OllamaStage::Failed(OllamaFailure::DockerPullFailed),
            Outcome::Broken => OllamaStage::Failed(OllamaFailure::DockerPullNotRun),
        },
        OllamaStage::Done => OllamaStage::Done,
        OllamaStage::Failed(failure) => OllamaStage::Failed(failure),
    }
}

/// What the user is told between two stages.
pub open spec fn said(stage: OllamaStage, next: OllamaStage) -> Seq<OllamaStatus> {
    match (stage, next) {
        (_, OllamaStage::StartServe) => seq![OllamaStatus::StartingService],
        (_, OllamaStage::DockerVersion) => seq![OllamaStatus::StartingDocker],
        (_, OllamaStage::Sleep { docker: _, attempt: _ }) => seq![OllamaStatus::Waiting],
        (
            OllamaStage::Probe { docker: _, attempt: _ },
            OllamaStage::QueryPullCli,
        ) => seq![OllamaStatus::Ready],
        (_, OllamaStage::DockerPull) => seq![OllamaStatus::Ready, OllamaStatus::PullingInDocker],
        (_, OllamaStage::Pull) => seq![OllamaStatus::Pulling],
        (OllamaStage::QueryPullCli, OllamaStage::Done) => seq![OllamaStatus::SkippingPull],
        _ => Seq::empty(),
    }
}

/// The way to a ready server.
#[derive(Debug)]
pub struct OllamaSetup {
    pub base_url: String,
    pub model: String,
    pub stage: OllamaStage,
}

/// The server's address, without the slashes at its end.
pub open spec fn server_of(base_url: Seq<char>) -> Seq<char> {
    trim_end_of(base_url, '/')
}

/// Where a server lists its models.
pub open spec fn models_of(server: Seq<char>) -> Seq<char> {
    server + "/models"@
}

/// The model that is pulled: the configured one, else the default one.
pub open spec fn model_pulled(model: Option<Seq<char>>) -> Seq<char> {
    match model {
        Some(model) => model,
        None => DEFAULT_PULL_MODEL@,
    }
}

/// Begins to make the server ready, and says what the user is told first.
pub fn ensure_ollama_ready(base_url: &str, model: Option<&str>) -> (r: (OllamaSetup, OllamaStatus))
    ensures
        r.0.base_url@ == trim_end_of(base_url@, '/'),
        r.0.base_url@ == server_of(base_url@),
        r.0.model@ == match model {
            Some(model) => model@,
            None => DEFAULT_PULL_MODEL@,
        },
        r.0.model@ == model_pulled(opt_str(model)),
        r.0.stage == OllamaStage::CheckFirst,
        r.1 == OllamaStatus::Checking,
{
    let setup = OllamaSetup {
        base_url: trim_end_matches(base_url, '/'),
        model: match model {
            Some(model) => model.to_owned(),
            None => DEFAULT_PULL_MODEL.to_owned(),
        },
        stage: OllamaStage::CheckFirst,
    };
    (setup, OllamaStatus::Checking)
}

impl OllamaSetup {
    /// Takes the outcome of the stage, with the bytes that the program printed, moves on to the
    /// next stage and returns what the user is told.
    pub fn step(&mut self, outcome: Outcome, stdout: &[u8]) -> (r: Vec<OllamaStatus>)
        ensures
            final(self).base_url == old(self).base_url,
            final(self).model == old(self).model,
            final(self).stage == next_stage(
                old(self).stage,
                is_local(old(self).base_url@),
                outcome,
                lossy_text(stdout@),
            ),
            valid_utf8(stdout@) ==> lossy_text(stdout@) == decode_utf8(stdout@),
            r@ == said(old(self).stage, final(self).stage),
    {
        let printed = from_utf8_lossy(stdout);
        self.advance(outcome, printed.as_str())
    }

    /// Takes the outcome of the stage, with what the program printed, moves on to the next stage
    /// and returns what the user is told.
    pub fn advance(&mut self, outcome: Outcome, printed: &str) -> (r: Vec<OllamaStatus>)
        ensures
            final(self).base_url == old(self).base_url,
            final(self).model == old(self).model,
            final(self).stage == next_stage(
                old(self).stage,
                is_local(old(self).base_url@),
                outcome,
                printed@,
            ),
            r@ == said(old(self).stage, final(self).stage),
    {
        let stage = self.stage;
        let next = self.next(outcome, printed);
        self.stage = next;
        let mut told: Vec<OllamaStatus> = Vec::new();
        match next {
            OllamaStage::StartServe => told.push(OllamaStatus::StartingService),
            OllamaStage::DockerVersion => told.push(OllamaStatus::StartingDocker),
            OllamaStage::Sleep { docker: _, attempt: _ } => told.push(OllamaStatus::Waiting),
            OllamaStage::QueryPullCli => match stage {
                OllamaStage::Probe { docker: _, attempt: _ } => told.push(OllamaStatus::Ready),
                _ => {},
            },
            OllamaStage::DockerPull => {
                told.push(OllamaStatus::Ready);
                told.push(OllamaStatus::PullingInDocker);
            },
            OllamaStage::Pull => told.push(OllamaStatus::Pulling),
            OllamaStage::Done => match stage {
                OllamaStage::QueryPullCli => told.push(OllamaStatus::SkippingPull),
                _ => {},
            },
            _ => {},
        }
        told
    }

    /// The stage that follows an outcome.
    fn next(&self, outcome: Outcome, printed: &str) -> (r: OllamaStage)
        ensures
            r == next_stage(self.stage, is_local(self.base_url@), outcome, printed@),
    {
        match self.stage {
            OllamaStage::CheckFirst => match outcome {
                Outcome::Success => OllamaStage::QueryPullCli,
                Outcome::Failure => if is_local_base_url(self.base_url.as_str()) {
                    OllamaStage::QueryCli
                } else {
                    OllamaStage::Failed(OllamaFailure::Unavailable)
                },
                Outcome::Broken => OllamaStage::Failed(OllamaFailure::HttpClient),
            },
            OllamaStage::QueryCli => match outcome {
                Outcome::Success => OllamaStage::StartServe,
                _ => OllamaStage::DockerVersion,
            },
            OllamaStage::StartServe => match outcome {
                Outcome::Broken => OllamaStage::Failed(OllamaFailure::ServeNotStarted),
                _ => OllamaStage::Probe { docker: false, attempt: 0 },
            },
            OllamaStage::Probe { docker, attempt } => match outcome {
                Outcome::Success => if docker {
                    OllamaStage::DockerPull
                } else {
                    OllamaStage::QueryPullCli
                },
                Outcome::Failure => OllamaStage::Sleep { docker, attempt },
                Outcome::Broken => OllamaStage::Failed(OllamaFailure::HttpClient),
            },
            OllamaStage::Sleep { docker, attempt } => if attempt < PROBES - 1 {
                OllamaStage::Probe { docker, attempt: attempt + 1 }
            } else {
                OllamaStage::Failed(OllamaFailure::NotReady)
            },
            OllamaStage::DockerVersion => match outcome {
                Outcome::Success => OllamaStage::DockerInspect,
                Outcome::Failure => OllamaStage::Failed(OllamaFailure::DockerUnavailable),
                Outcome::Broken => OllamaStage::Failed(OllamaFailure::DockerNotChecked),
            },
            OllamaStage::DockerInspect => match outcome {
                Outcome::Broken => OllamaStage::Failed(OllamaFailure::InspectNotRun),
                _ => if docker_container_running(outcome == Outcome::Success, printed) {
                    OllamaStage::Probe { docker: true, attempt: 0 }
                } else {
                    OllamaStage::DockerList
                },
            },
            OllamaStage::DockerList => match outcome {
                Outcome::Broken => OllamaStage::Failed(OllamaFailure::ListNotRun),
                _ => if docker_container_exists(outcome == Outcome::Success, printed) {
                    OllamaStage::DockerStart
                } else {
                    OllamaStage::DockerRun
                },
            },
            OllamaStage::DockerStart => match outcome {
                Outcome::Broken => OllamaStage::Failed(OllamaFailure::StartNotRun),
                _ => OllamaStage::Probe { docker: true, attempt: 0 },
            },
            OllamaStage::DockerRun => match outcome {
                Outcome::Broken => OllamaStage::Failed(OllamaFailure::RunNotRun),
                _ => OllamaStage::Probe { docker: true, attempt: 0 },
            },
            OllamaStage::QueryPullCli => match outcome {
                Outcome::Success => OllamaStage::Pull,
                _ => OllamaStage::Done,
            },
            OllamaStage::Pull => match outcome {
                Outcome::Success => OllamaStage::Done,
                Outcome::Failure => OllamaStage::Failed(OllamaFailure::PullFailed),
                Outcome::Broken => OllamaStage::Failed(OllamaFailure::PullNotRun),
            },
            OllamaStage::DockerPull => match outcome {
                Outcome::Success => OllamaStage::Done,
                Outcome::Failure => OllamaStage::Failed(OllamaFailure::DockerPullFailed),
                Outcome::Broken => OllamaStage::Failed(OllamaFailure::DockerPullNotRun),
            },
            OllamaStage::Done => OllamaStage::Done,
            OllamaStage::Failed(failure) => OllamaStage::Failed(failure),
        }
    }

    /// Where the server lists its models.
    pub fn models_url(&self) -> (r: String)
        ensures
            r@ == self.base_url@ + "/models"@,
            r@ == models_of(self.base_url@),
    {
        cat2(self.base_url.as_str(), "/models")
    }

    /// The program that the stage runs, followed by its arguments; nothing for a stage that runs
    /// none.
    pub fn command(&self) -> (r: Vec<String>)
        ensures
            texts(r@) == command_of_stage(self.stage, self.model@),
    {
        let model = self.model.as_str();
        let mut words: Vec<String> = Vec::new();
        match self.stage {
            OllamaStage::QueryCli | OllamaStage::QueryPullCli => {
                words.push("ollama".to_owned());
                words.push("--version".to_owned());
            },
            OllamaStage::StartServe => {
                words.push("ollama".to_owned());
                words.push("serve".to_owned());
            },
            OllamaStage::DockerVersion => {
                words.push("docker".to_owned());
                words.push("version".to_owned());
            },
            OllamaStage::DockerInspect => {
                words.push("docker".to_owned());
                words.push("inspect".to_owned());
                words.push("-f".to_owned());
                words.push("{{.State.Running}}".to_owned());
                words.push(DOCKER_CONTAINER.to_owned());
            },
            OllamaStage::DockerList => {
                words.push("docker".to_owned());
                words.push("ps".to_owned());
                words.push("-a".to_owned());
                words.push("--filter".to_owned());
                words.push(cat2("name=", DOCKER_CONTAINER));
                words.push("--format".to_owned());
                words.push("{{.Names}}".to_owned());
            },
            OllamaStage::DockerStart => {
                words.push("docker".to_owned());
                words.push("start".to_owned());
                words.push(DOCKER_CONTAINER.to_owned());
            },
            OllamaStage::DockerRun => {
                words.push("docker".to_owned());
                words.push("run".to_owned());
                words.push("-d".to_owned());
                words.push("--name".to_owned());
                words.push(DOCKER_CONTAINER.to_owned());
                words.push("-p".to_owned());
                words.push("11434:11434".to_owned());
                words.push(DOCKER_IMAGE.to_owned());
            },
            OllamaStage::Pull => {
                words.push("ollama".to_owned());
                words.push("pull".to_owned());
                words.push(model.to_owned());
            },
            OllamaStage::DockerPull => {
                words.push("docker".to_owned());
                words.push("exec".to_owned());
                words.push(DOCKER_CONTAINER.to_owned());
                words.push("ollama".to_owned());
                words.push("pull".to_owned());
                words.push(model.to_owned());
            },
            _ => {},
        }
        assert(texts(words@) =~= command_of_stage(self.stage, self.model@));
        words
    }

    /// What the user is told by a status.
    pub fn status_text(&self, status: OllamaStatus) -> (r: String)
        ensures
            r@ == text_of_status(status, self.model@),
    {
        match status {
            OllamaStatus::Checking => "Checking Ollama availability...".to_owned(),
            OllamaStatus::StartingService => "Starting Ollama service...".to_owned(),
            OllamaStatus::StartingDocker => "Starting Ollama via Docker...".to_owned(),
            OllamaStatus::Waiting => "Waiting for Ollama to start...".to_owned(),
            OllamaStatus::Ready => "Ollama is ready.".to_owned(),
            OllamaStatus::SkippingPull => "Ollama CLI not available; skipping model pull."
                .to_owned(),
            OllamaStatus::Pulling => cat3(
                "Pulling model ",
                self.model.as_str(),
                " with Ollama...",
            ),
            OllamaStatus::PullingInDocker => cat3(
                "Pulling model ",
                self.model.as_str(),
                " in Docker...",
            ),
        }
    }

    /// What the user is told of a failure. `cause` is why it could not be done, and `stderr` the
    /// bytes that the program printed as errors.
    pub fn failure_text(&self, failure: OllamaFailure, cause: &str, stderr: &[u8]) -> (r: String)
        ensures
            r@ == text_of_failure(failure, self.base_url@, cause@, lossy_text(stderr@)),
            valid_utf8(stderr@) ==> lossy_text(stderr@) == decode_utf8(stderr@),
    {
        self.failure_message(failure, cause, from_utf8_lossy(stderr).as_str())
    }

    /// What the user is told of a failure. `cause` is why it could not be done, and `stderr` what
    /// the program printed as errors.
    pub fn failure_message(&self, failure: OllamaFailure, cause: &str, stderr: &str) -> (r: String)
        ensures
            r@ == text_of_failure(failure, self.base_url@, cause@, stderr@),
    {
        match failure {
            OllamaFailure::HttpClient => cat2("building HTTP client: ", cause),
            OllamaFailure::Unavailable => cat3(
                "Ollama is not available at ",
                self.base_url.as_str(),
                ". Ensure Ollama is running or update ai_ollama_base_url.",
            ),
            OllamaFailure::NotReady => cat3(
                "Ollama did not become ready at ",
                self.base_url.as_str(),
                ". Please check the service.",
            ),
            OllamaFailure::ServeNotStarted => cat2("starting ollama serve: ", cause),
            OllamaFailure::PullNotRun => cat2("running ollama pull: ", cause),
            OllamaFailure::PullFailed => cat2("ollama pull failed: ", stderr),
            OllamaFailure::DockerNotChecked => cat2("checking docker availability: ", cause),
            OllamaFailure::DockerUnavailable => "Docker is not available or not running".to_owned(),
            OllamaFailure::InspectNotRun => cat2("checking docker container state: ", cause),
            OllamaFailure::ListNotRun => cat2("checking docker container existence: ", cause),
            OllamaFailure::StartNotRun => cat2("starting Ollama docker container: ", cause),
            OllamaFailure::RunNotRun => cat2("running Ollama docker container: ", cause),
            OllamaFailure::DockerPullNotRun => cat2("pulling model in docker: ", cause),
            OllamaFailure::DockerPullFailed => cat2("docker ollama pull failed: ", stderr),
        }
    }
}

/// Whether the container runs, by what Docker prints of its state.
pub fn docker_container_running(success: bool, printed: &str) -> (r: bool)
    ensures
        r == (success && trimmed(printed@) == "true"@),
{
    success && same(trim(printed).as_str(), "true")
}

/// Whether the container exists, by the names that Docker prints.
pub fn docker_container_exists(success: bool, printed: &str) -> (r: bool)
    ensures
        r == (success && has_line(printed@, DOCKER_CONTAINER@)),
{
    success && contains_line(printed, DOCKER_CONTAINER)
}

/// The program that a stage runs, followed by its arguments.
pub open spec fn command_of_stage(stage: OllamaStage, model: Seq<char>) -> Seq<Seq<char>> {
    match stage {
        OllamaStage::QueryCli | OllamaStage::QueryPullCli => seq!["ollama"@, "--version"@],
        OllamaStage::StartServe => seq!["ollama"@, "serve"@],
        OllamaStage::DockerVersion => seq!["docker"@, "version"@],
        OllamaStage::DockerInspect => seq![
            "docker"@,
            "inspect"@,
            "-f"@,
            "{{.State.Running}}"@,
            DOCKER_CONTAINER@,
        ],
        OllamaStage::DockerList => seq![
            "docker"@,
            "ps"@,
            "-a"@,
            "--filter"@,
            "name="@ + DOCKER_CONTAINER@,
            "--format"@,
            "{{.Names}}"@,
        ],
        OllamaStage::DockerStart => seq!["docker"@, "start"@, DOCKER_CONTAINER@],
        OllamaStage::DockerRun => seq![
            "docker"@,
            "run"@,
            "-d"@,
            "--name"@,
            DOCKER_CONTAINER@,
            "-p"@,
            "11434:11434"@,
            DOCKER_IMAGE@,
        ],
        OllamaStage::Pull => seq!["ollama"@, "pull"@, model],
        OllamaStage::DockerPull => seq![
            "docker"@,
            "exec"@,
            DOCKER_CONTAINER@,
            "ollama"@,
            "pull"@,
            model,
        ],
        _ => Seq::empty(),
    }
}

/// What the user is told by a status.
pub open spec fn text_of_status(status: OllamaStatus, model: Seq<char>) -> Seq<char> {
    match status {
        OllamaStatus::Checking => "Checking Ollama availability..."@,
        OllamaStatus::StartingService => "Starting Ollama service..."@,
        OllamaStatus::StartingDocker => "Starting Ollama via Docker..."@,
        OllamaStatus::Waiting => "Waiting for Ollama to start..."@,
        OllamaStatus::Ready => "Ollama is ready."@,
        OllamaStatus::SkippingPull => "Ollama CLI not available; skipping model pull."@,
        OllamaStatus::Pulling => "Pulling model "@ + model + " with Ollama..."@,
        OllamaStatus::PullingInDocker => "Pulling model "@ + model + " in Docker..."@,
    }
}

/// What the user is told of a failure.
pub open spec fn text_of_failure(
    failure: OllamaFailure,
    base_url: Seq<char>,
    cause: Seq<char>,
    stderr: Seq<char>,
) -> Seq<char> {
    match failure {
        OllamaFailure::HttpClient => "building HTTP client: "@ + cause,
        OllamaFailure::Unavailable => "Ollama is not available at "@ + base_url
            + ". Ensure Ollama is running or update ai_ollama_base_url."@,
        OllamaFailure::NotReady => "Ollama did not become ready at "@ + base_url
            + ". Please check the service."@,
        OllamaFailure::ServeNotStarted => "starting ollama serve: "@ + cause,
        OllamaFailure::PullNotRun => "running ollama pull: "@ + cause,
        OllamaFailure::PullFailed => "ollama pull failed: "@ + stderr,
        OllamaFailure::DockerNotChecked => "checking docker availability: "@ + cause,
        OllamaFailure::DockerUnavailable => "Docker is not available or not running"@,
        OllamaFailure::InspectNotRun => "checking docker container state: "@ + cause,
        OllamaFailure::ListNotRun => "checking docker container existence: "@ + cause,
        OllamaFailure::StartNotRun => "starting Ollama docker container: "@ + cause,
        OllamaFailure::RunNotRun => "running Ollama docker container: "@ + cause,
        OllamaFailure::DockerPullNotRun => "pulling model in docker: "@ + cause,
        OllamaFailure::DockerPullFailed => "docker ollama pull failed: "@ + stderr,
    }
}

/// How long, in milliseconds, to wait after an attempt: a quarter of a second at first, twice as
/// long each time, four seconds at most.
pub open spec fn delay_after(attempt: nat) -> nat
    decreases attempt,
{
    if attempt == 0 {
        250
    } else {
        let twice = 2 * delay_after((attempt - 1) as nat);
        if twice < 4000 {
            twice
        } else {
            4000
        }
    }
}

/// How long, in milliseconds, to wait after an attempt.
pub fn wait_delay(attempt: u32) -> (r: u64)
    ensures
        r == delay_after(attempt as nat),
{
    let mut delay: u64 = 250;
    let mut i: u32 = 0;
    while i < attempt
        invariant
            i <= attempt,
            delay == delay_after(i as nat),
            delay <= 4000,
        decreases attempt - i,
    {
        delay = if delay * 2 < 4000 {
            delay * 2
        } else {
            4000
        };
        i += 1;
    }
    delay
}

/// The waits after the first `n` attempts, in all.
pub open spec fn waited(n: nat) -> nat
    decreases n,
{
    if n == 0 {
        0
    } else {
        waited((n - 1) as nat) + delay_after((n - 1) as nat)
    }
}

/// No wait is shorter than the one before it, and none is longer than four seconds.
pub proof fn law_waits_grow(attempt: nat)
    ensures
        250 <= delay_after(attempt) <= delay_after(attempt + 1) <= 4000,
    decreases attempt,
{
    if attempt > 0 {
        law_waits_grow((attempt - 1) as nat);
    }
}

/// A server that never answers is given up after 51.75 seconds of waiting.
pub proof fn law_total_wait()
    ensures
        waited(PROBES as nat) == 51750,
{
    reveal_with_fuel(waited, 17);
    reveal_with_fuel(delay_after, 17);
}

/// The number of stages that can still follow, at most.
pub open spec fn stages_left(stage: OllamaStage) -> nat {
    match stage {
        OllamaStage::CheckFirst => 46,
        OllamaStage::QueryCli => 45,
        OllamaStage::StartServe => 40,
        OllamaStage::DockerVersion => 44,
        OllamaStage::DockerInspect => 43,
        OllamaStage::DockerList => 42,
        OllamaStage::DockerStart => 41,
        OllamaStage::DockerRun => 41,
        OllamaStage::Probe { docker: _, attempt } => if attempt < PROBES {
            (3 + 2 * (PROBES - attempt)) as nat
        } else {
            4
        },
        OllamaStage::Sleep { docker: _, attempt } => if attempt < PROBES {
            (2 + 2 * (PROBES - attempt)) as nat
        } else {
            3
        },
        OllamaStage::QueryPullCli => 2,
        OllamaStage::Pull => 1,
        OllamaStage::DockerPull => 1,
        OllamaStage::Done => 0,
        OllamaStage::Failed(_) => 0,
    }
}

/// Whatever happens, every stage brings the end nearer, so the way to a ready server ends, and a
/// way that has ended stays where it is.
pub proof fn law_setup_ends(stage: OllamaStage, local: bool, outcome: Outcome, printed: Seq<char>)
    ensures
        stages_left(stage) > 0 ==> stages_left(next_stage(stage, local, outcome, printed))
            < stages_left(stage),
        stages_left(stage) == 0 ==> next_stage(stage, local, outcome, printed) == stage,
        stages_left(stage) == 0 <==> (stage == OllamaStage::Done || stage is Failed),
{
}

/// The stages that can be reached when the server is another machine's.
pub open spec fn leaves_alone(stage: OllamaStage) -> bool {
    match stage {
        OllamaStage::CheckFirst => true,
        OllamaStage::QueryPullCli => true,
        OllamaStage::Pull => true,
        OllamaStage::Done => true,
        OllamaStage::Failed(_) => true,
        _ => false,
    }
}

/// For a server on another machine no server and no container is started here.
pub proof fn law_remote_is_left_alone(stage: OllamaStage, outcome: Outcome, printed: Seq<char>)
    requires
        leaves_alone(stage),
    ensures
        leaves_alone(OllamaStage::CheckFirst),
        leaves_alone(next_stage(stage, false, outcome, printed)),
{
}

} // verus!
