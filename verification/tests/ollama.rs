use wezterm_ai::ollama::{
    docker_container_exists, docker_container_running, ensure_ollama_ready, is_local_base_url,
    wait_delay, OllamaFailure, OllamaSetup, OllamaStage, OllamaStatus, Outcome, PROBES,
};

fn local() -> OllamaSetup {
    ensure_ollama_ready("http://localhost:11434/v1/", None).0
}

fn at(stage: OllamaStage) -> OllamaSetup {
    let mut setup = local();
    setup.stage = stage;
    setup
}

#[test]
fn addresses_of_this_machine() {
    for url in ["http://localhost:1", "http://127.0.0.1/v1", "0.0.0.0", "http://localhost.example"]
    {
        assert!(is_local_base_url(url), "{url}");
    }
    for url in ["http://gpu:11434/v1", "", "http://127.0.0.2", "LOCALHOST"] {
        assert!(!is_local_base_url(url), "{url}");
    }
}

#[test]
fn the_address_loses_its_slashes() {
    let (setup, status) = ensure_ollama_ready("http://h/v1//", Some("m"));
    assert_eq!(setup.base_url, "http://h/v1");
    assert_eq!(setup.model, "m");
    assert_eq!(setup.models_url(), "http://h/v1/models");
    assert_eq!(setup.stage, OllamaStage::CheckFirst);
    assert_eq!(status, OllamaStatus::Checking);
    assert_eq!(setup.status_text(status), "Checking Ollama availability...");
    assert_eq!(local().model, "qwen2.5-coder:7b");
}

#[test]
fn a_running_server_gets_the_model_pulled() {
    let mut setup = local();
    assert_eq!(setup.step(Outcome::Success, b""), vec![]);
    assert_eq!(setup.stage, OllamaStage::QueryPullCli);
    assert_eq!(setup.command(), vec!["ollama", "--version"]);
    assert_eq!(setup.step(Outcome::Success, b""), vec![OllamaStatus::Pulling]);
    assert_eq!(
        setup.status_text(OllamaStatus::Pulling),
        "Pulling model qwen2.5-coder:7b with Ollama..."
    );
    assert_eq!(setup.command(), vec!["ollama", "pull", "qwen2.5-coder:7b"]);
    assert_eq!(setup.step(Outcome::Success, b""), vec![]);
    assert_eq!(setup.stage, OllamaStage::Done);
    assert_eq!(setup.command(), Vec::<String>::new());
}

#[test]
fn without_its_program_nothing_is_pulled() {
    let mut setup = local();
    setup.step(Outcome::Success, b"");
    assert_eq!(setup.step(Outcome::Broken, b""), vec![OllamaStatus::SkippingPull]);
    assert_eq!(
        setup.status_text(OllamaStatus::SkippingPull),
        "Ollama CLI not available; skipping model pull."
    );
    assert_eq!(setup.stage, OllamaStage::Done);
}

#[test]
fn the_service_is_started_where_it_is_installed() {
    let mut setup = local();
    assert_eq!(setup.step(Outcome::Failure, b""), vec![]);
    assert_eq!(setup.stage, OllamaStage::QueryCli);
    assert_eq!(setup.step(Outcome::Success, b""), vec![OllamaStatus::StartingService]);
    assert_eq!(setup.command(), vec!["ollama", "serve"]);
    assert_eq!(setup.step(Outcome::Success, b""), vec![]);
    assert_eq!(setup.stage, OllamaStage::Probe { docker: false, attempt: 0 });
    assert_eq!(setup.step(Outcome::Failure, b""), vec![OllamaStatus::Waiting]);
    assert_eq!(setup.stage, OllamaStage::Sleep { docker: false, attempt: 0 });
    setup.step(Outcome::Success, b"");
    assert_eq!(setup.stage, OllamaStage::Probe { docker: false, attempt: 1 });
    assert_eq!(setup.step(Outcome::Success, b""), vec![OllamaStatus::Ready]);
    assert_eq!(setup.stage, OllamaStage::QueryPullCli);
}

#[test]
fn docker_is_used_where_the_service_is_not_installed() {
    let mut setup = local();
    setup.step(Outcome::Failure, b"");
    assert_eq!(setup.step(Outcome::Failure, b""), vec![OllamaStatus::StartingDocker]);
    assert_eq!(setup.command(), vec!["docker", "version"]);
    setup.step(Outcome::Success, b"");
    assert_eq!(
        setup.command(),
        vec!["docker", "inspect", "-f", "{{.State.Running}}", "wezterm-ollama"]
    );
    setup.step(Outcome::Failure, b"true\n");
    assert_eq!(
        setup.command(),
        vec!["docker", "ps", "-a", "--filter", "name=wezterm-ollama", "--format", "{{.Names}}"]
    );
    setup.step(Outcome::Success, b"other\nwezterm-ollama-2\n");
    assert_eq!(setup.stage, OllamaStage::DockerRun);
    assert_eq!(
        setup.command(),
        vec![
            "docker", "run", "-d", "--name", "wezterm-ollama", "-p", "11434:11434",
            "ollama/ollama"
        ]
    );
    setup.step(Outcome::Failure, b"");
    assert_eq!(setup.stage, OllamaStage::Probe { docker: true, attempt: 0 });
    assert_eq!(
        setup.step(Outcome::Success, b""),
        vec![OllamaStatus::Ready, OllamaStatus::PullingInDocker]
    );
    assert_eq!(
        setup.command(),
        vec!["docker", "exec", "wezterm-ollama", "ollama", "pull", "qwen2.5-coder:7b"]
    );
    setup.step(Outcome::Success, b"");
    assert_eq!(setup.stage, OllamaStage::Done);
}

#[test]
fn a_container_is_used_as_it_is_found() {
    let mut setup = at(OllamaStage::DockerInspect);
    setup.step(Outcome::Success, b" true\n");
    assert_eq!(setup.stage, OllamaStage::Probe { docker: true, attempt: 0 });
    let mut setup = at(OllamaStage::DockerInspect);
    setup.step(Outcome::Success, b"false\n");
    assert_eq!(setup.stage, OllamaStage::DockerList);
    setup.step(Outcome::Success, b"wezterm-ollama\r\n");
    assert_eq!(setup.stage, OllamaStage::DockerStart);
    assert_eq!(setup.command(), vec!["docker", "start", "wezterm-ollama"]);
    setup.step(Outcome::Failure, b"");
    assert_eq!(setup.stage, OllamaStage::Probe { docker: true, attempt: 0 });
    let mut setup = at(OllamaStage::DockerInspect);
    setup.step(Outcome::Success, b"tr\xffue");
    assert_eq!(setup.stage, OllamaStage::DockerList);
}

#[test]
fn every_failure_has_its_stage_and_text() {
    let cases: [(OllamaStage, Outcome, OllamaFailure, &str); 13] = [
        (
            OllamaStage::CheckFirst,
            Outcome::Broken,
            OllamaFailure::HttpClient,
            "building HTTP client: why",
        ),
        (
            OllamaStage::Probe { docker: true, attempt: 3 },
            Outcome::Broken,
            OllamaFailure::HttpClient,
            "building HTTP client: why",
        ),
        (
            OllamaStage::Sleep { docker: false, attempt: 15 },
            Outcome::Success,
            OllamaFailure::NotReady,
            "Ollama did not become ready at http://localhost:11434/v1. Please check the service.",
        ),
        (
            OllamaStage::StartServe,
            Outcome::Broken,
            OllamaFailure::ServeNotStarted,
            "starting ollama serve: why",
        ),
        (OllamaStage::Pull, Outcome::Broken, OllamaFailure::PullNotRun, "running ollama pull: why"),
        (
            OllamaStage::Pull,
            Outcome::Failure,
            OllamaFailure::PullFailed,
            "ollama pull failed: no \u{fffd} room",
        ),
        (
            OllamaStage::DockerVersion,
            Outcome::Broken,
            OllamaFailure::DockerNotChecked,
            "checking docker availability: why",
        ),
        (
            OllamaStage::DockerVersion,
            Outcome::Failure,
            OllamaFailure::DockerUnavailable,
            "Docker is not available or not running",
        ),
        (
            OllamaStage::DockerInspect,
            Outcome::Broken,
            OllamaFailure::InspectNotRun,
            "checking docker container state: why",
        ),
        (
            OllamaStage::DockerList,
            Outcome::Broken,
            OllamaFailure::ListNotRun,
            "checking docker container existence: why",
        ),
        (
            OllamaStage::DockerStart,
            Outcome::Broken,
            OllamaFailure::StartNotRun,
            "starting Ollama docker container: why",
        ),
        (
            OllamaStage::DockerRun,
            Outcome::Broken,
            OllamaFailure::RunNotRun,
            "running Ollama docker container: why",
        ),
        (
            OllamaStage::DockerPull,
            Outcome::Failure,
            OllamaFailure::DockerPullFailed,
            "docker ollama pull failed: no \u{fffd} room",
        ),
    ];
    for (stage, outcome, failure, text) in cases {
        let mut setup = at(stage);
        assert_eq!(setup.step(outcome, b"true"), vec![]);
        assert_eq!(setup.stage, OllamaStage::Failed(failure));
        assert_eq!(setup.failure_text(failure, "why", b"no \xff room"), text);
        assert_eq!(setup.failure_message(failure, "why", "no \u{fffd} room"), text);
        setup.step(Outcome::Success, b"");
        assert_eq!(setup.stage, OllamaStage::Failed(failure));
    }
    let mut setup = at(OllamaStage::DockerPull);
    setup.step(Outcome::Broken, b"");
    assert_eq!(setup.stage, OllamaStage::Failed(OllamaFailure::DockerPullNotRun));
    assert_eq!(
        setup.failure_text(OllamaFailure::DockerPullNotRun, "why", b""),
        "pulling model in docker: why"
    );
}

#[test]
fn a_server_elsewhere_is_left_alone() {
    let (mut setup, _) = ensure_ollama_ready("http://gpu:11434/v1/", None);
    assert_eq!(setup.advance(Outcome::Failure, ""), vec![]);
    assert_eq!(setup.stage, OllamaStage::Failed(OllamaFailure::Unavailable));
    setup.stage = OllamaStage::CheckFirst;
    setup.step(Outcome::Failure, b"");
    assert_eq!(setup.stage, OllamaStage::Failed(OllamaFailure::Unavailable));
    assert_eq!(
        setup.failure_text(OllamaFailure::Unavailable, "", b""),
        "Ollama is not available at http://gpu:11434/v1. Ensure Ollama is running or update \
         ai_ollama_base_url."
    );
}

#[test]
fn a_server_that_never_answers_is_given_up() {
    let mut setup = at(OllamaStage::StartServe);
    setup.step(Outcome::Success, b"");
    let mut waits = 0;
    let mut total = 0;
    loop {
        match setup.stage {
            OllamaStage::Probe { .. } => {
                setup.step(Outcome::Failure, b"");
            }
            OllamaStage::Sleep { attempt, .. } => {
                waits += 1;
                total += wait_delay(attempt);
                setup.step(Outcome::Success, b"");
            }
            _ => break,
        }
    }
    assert_eq!(waits, PROBES);
    assert_eq!(total, 51750);
    assert_eq!(setup.stage, OllamaStage::Failed(OllamaFailure::NotReady));
}

#[test]
fn waits_double_up_to_four_seconds() {
    let waits: Vec<u64> = (0..7).map(wait_delay).collect();
    assert_eq!(waits, vec![250, 500, 1000, 2000, 4000, 4000, 4000]);
    assert_eq!(wait_delay(100), 4000);
}

#[test]
fn states_of_the_container_are_read() {
    assert!(docker_container_running(true, "true\n"));
    assert!(!docker_container_running(false, "true\n"));
    assert!(!docker_container_running(true, "True"));
    assert!(docker_container_exists(true, "a\n wezterm-ollama \n"));
    assert!(!docker_container_exists(false, "wezterm-ollama"));
    assert!(!docker_container_exists(true, "wezterm-ollama-x"));
}

#[test]
fn statuses_have_their_texts() {
    let (setup, _) = ensure_ollama_ready("http://h", Some("m"));
    let texts = [
        (OllamaStatus::StartingService, "Starting Ollama service..."),
        (OllamaStatus::StartingDocker, "Starting Ollama via Docker..."),
        (OllamaStatus::Waiting, "Waiting for Ollama to start..."),
        (OllamaStatus::Ready, "Ollama is ready."),
        (OllamaStatus::Pulling, "Pulling model m with Ollama..."),
        (OllamaStatus::PullingInDocker, "Pulling model m in Docker..."),
    ];
    for (status, text) in texts {
        assert_eq!(setup.status_text(status), text);
    }
}
