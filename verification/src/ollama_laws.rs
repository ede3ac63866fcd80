//! What holds of every way to a ready server.
#[allow(unused_imports)]
use crate::ollama::{
    command_of_stage, delay_after, is_local, model_pulled, models_of, next_stage, said, server_of,
    text_of_failure, text_of_status, OllamaFailure, OllamaStage, OllamaStatus, Outcome,
    DOCKER_CONTAINER, DOCKER_IMAGE, PROBES,
};
#[allow(unused_imports)]
use crate::text::{has_line, occurs, trim_end_of, trimmed};
#[allow(unused_imports)]
use crate::text_laws::{law_occurs_between, law_trim_end_of_cuts_a_run};
use vstd::prelude::*;

verus! {

/// While the server is waited for, the way it was started in is not forgotten: a failed probe is
/// followed by a wait and the next probe of the same way, up to sixteen of them, and a probe that
/// succeeds is followed by the pull of that way.
pub proof fn law_probes_keep_their_way(
    docker: bool,
    attempt: u32,
    local: bool,
    outcome: Outcome,
    printed: Seq<char>,
)
    ensures
        next_stage(OllamaStage::Probe { docker, attempt }, local, Outcome::Success, printed)
            == if docker {
            OllamaStage::DockerPull
        } else {
            OllamaStage::QueryPullCli
        },
        next_stage(OllamaStage::Probe { docker, attempt }, local, Outcome::Failure, printed) == (
        OllamaStage::Sleep { docker, attempt }),
        next_stage(
            OllamaStage::Probe { docker, attempt },
            local,
            Outcome::Broken,
            printed,
        ) is Failed,
        attempt < 15 ==> next_stage(
            OllamaStage::Sleep { docker, attempt },
            local,
            outcome,
            printed,
        ) == (OllamaStage::Probe { docker, attempt: (attempt + 1) as u32 }),
        attempt >= 15 ==> next_stage(
            OllamaStage::Sleep { docker, attempt },
            local,
            outcome,
            printed,
        ) == OllamaStage::Failed(OllamaFailure::NotReady),
{
}

/// The stages of the way through Docker.
pub open spec fn in_docker(stage: OllamaStage) -> bool {
    match stage {
        OllamaStage::DockerVersion => true,
        OllamaStage::DockerInspect => true,
        OllamaStage::DockerList => true,
        OllamaStage::DockerStart => true,
        OllamaStage::DockerRun => true,
        OllamaStage::Probe { docker, attempt: _ } => docker,
        OllamaStage::Sleep { docker, attempt: _ } => docker,
        OllamaStage::DockerPull => true,
        _ => false,
    }
}

/// The stages of the way through the installed program, or past a server that was already up.
pub open spec fn in_service(stage: OllamaStage) -> bool {
    match stage {
        OllamaStage::StartServe => true,
        OllamaStage::Probe { docker, attempt: _ } => !docker,
        OllamaStage::Sleep { docker, attempt: _ } => !docker,
        OllamaStage::QueryPullCli => true,
        OllamaStage::Pull => true,
        _ => false,
    }
}

/// A way through Docker ends in Docker: it stays there until the model has been pulled in the
/// container, or something failed.
pub proof fn law_docker_pulls_in_docker(
    stage: OllamaStage,
    local: bool,
    outcome: Outcome,
    printed: Seq<char>,
)
    requires
        in_docker(stage),
    ensures
        ({
            let next = next_stage(stage, local, outcome, printed);
            &&& in_docker(next) || next is Failed || next == OllamaStage::Done
            &&& next == OllamaStage::Done <==> stage == OllamaStage::DockerPull && outcome
                == Outcome::Success
        }),
{
}

/// A way without Docker never starts a container: it stays where it is until the model has been
/// pulled, or there is no program to pull with, or something failed.
pub proof fn law_service_pulls_with_its_program(
    stage: OllamaStage,
    local: bool,
    outcome: Outcome,
    printed: Seq<char>,
)
    requires
        in_service(stage),
    ensures
        ({
            let next = next_stage(stage, local, outcome, printed);
            &&& in_service(next) || next is Failed || next == OllamaStage::Done
            &&& next == OllamaStage::Done <==> {
                ||| stage == OllamaStage::Pull && outcome == Outcome::Success
                ||| stage == OllamaStage::QueryPullCli && outcome != Outcome::Success
            }
            &&& next == OllamaStage::Pull <==> stage == OllamaStage::QueryPullCli && outcome
                == Outcome::Success
        }),
{
}

/// The stage after a run of outcomes, each with what was printed.
pub open spec fn stage_after(
    start: OllamaStage,
    local: bool,
    events: Seq<(Outcome, Seq<char>)>,
) -> OllamaStage
    decreases events.len(),
{
    if events.len() == 0 {
        start
    } else {
        next_stage(
            stage_after(start, local, events.drop_last()),
            local,
            events.last().0,
            events.last().1,
        )
    }
}

proof fn lemma_docker_run(start: OllamaStage, local: bool, events: Seq<(Outcome, Seq<char>)>)
    requires
        in_docker(start),
    ensures
        ({
            let end = stage_after(start, local, events);
            &&& in_docker(end) || end is Failed || end == OllamaStage::Done
            &&& end == OllamaStage::Done ==> exists|i: int|
                0 <= i < events.len() && events[i].0 == Outcome::Success && stage_after(
                    start,
                    local,
                    #[trigger] events.take(i),
                ) == OllamaStage::DockerPull
        }),
    decreases events.len(),
{
    if events.len() > 0 {
        let before = events.drop_last();
        let n = events.len() - 1;
        lemma_docker_run(start, local, before);
        let stage = stage_after(start, local, before);
        assert(events.take(n) =~= before);
        if stage_after(start, local, events) == OllamaStage::Done {
            if stage == OllamaStage::Done {
                let i = choose|i: int|
                    0 <= i < before.len() && before[i].0 == Outcome::Success && stage_after(
                        start,
                        local,
                        #[trigger] before.take(i),
                    ) == OllamaStage::DockerPull;
                assert(before.take(i) =~= events.take(i));
                assert(events[i] == before[i]);
            } else {
                assert(stage == OllamaStage::DockerPull);
                assert(events[n].0 == Outcome::Success);
            }
        }
    }
}

/// Once Docker is turned to, the server counts as ready only after a successful pull of the model
/// in the container, whatever happens on the way.
pub proof fn law_docker_is_done_when_pulled(
    local: bool,
    events: Seq<(Outcome, Seq<char>)>,
)
    requires
        stage_after(OllamaStage::DockerVersion, local, events) == OllamaStage::Done,
    ensures
        exists|i: int|
            0 <= i < events.len() && events[i].0 == Outcome::Success && stage_after(
                OllamaStage::DockerVersion,
                local,
                #[trigger] events.take(i),
            ) == OllamaStage::DockerPull,
{
    lemma_docker_run(OllamaStage::DockerVersion, local, events);
}

/// The first check decides the way: a server that answers only has its model pulled; one that does
/// not is given up where it is another machine's, and otherwise started, with its program where
/// that is installed and with Docker where it is not.
pub proof fn law_first_check_decides(local: bool, printed: Seq<char>, outcome: Outcome)
    ensures
        next_stage(OllamaStage::CheckFirst, local, Outcome::Success, printed)
            == OllamaStage::QueryPullCli,
        next_stage(OllamaStage::CheckFirst, true, Outcome::Failure, printed)
            == OllamaStage::QueryCli,
        next_stage(OllamaStage::CheckFirst, false, Outcome::Failure, printed)
            == OllamaStage::Failed(OllamaFailure::Unavailable),
        next_stage(OllamaStage::QueryCli, local, outcome, printed) == OllamaStage::StartServe
            <==> outcome == Outcome::Success,
        next_stage(OllamaStage::QueryCli, local, outcome, printed) == OllamaStage::DockerVersion
            <==> outcome != Outcome::Success,
        outcome != Outcome::Broken ==> next_stage(
            OllamaStage::StartServe,
            local,
            outcome,
            printed,
        ) == (OllamaStage::Probe { docker: false, attempt: 0 }),
{
}

/// A container that runs is used, one that exists is started, and only where there is none is one
/// made; then the server in it is probed from the first attempt on.
pub proof fn law_container_is_used_as_found(local: bool, outcome: Outcome, printed: Seq<char>)
    requires
        outcome != Outcome::Broken,
    ensures
        ({
            let first = OllamaStage::Probe { docker: true, attempt: 0 };
            let inspected = next_stage(OllamaStage::DockerInspect, local, outcome, printed);
            let listed = next_stage(OllamaStage::DockerList, local, outcome, printed);
            &&& next_stage(OllamaStage::DockerVersion, local, Outcome::Success, printed)
                == OllamaStage::DockerInspect
            &&& inspected == first <==> outcome == Outcome::Success && trimmed(printed) == "true"@
            &&& inspected == OllamaStage::DockerList <==> !(outcome == Outcome::Success && trimmed(
                printed,
            ) == "true"@)
            &&& listed == OllamaStage::DockerStart <==> outcome == Outcome::Success && has_line(
                printed,
                "wezterm-ollama"@,
            )
            &&& listed == OllamaStage::DockerRun <==> !(outcome == Outcome::Success && has_line(
                printed,
                "wezterm-ollama"@,
            ))
            &&& next_stage(OllamaStage::DockerStart, local, outcome, printed) == first
            &&& next_stage(OllamaStage::DockerRun, local, outcome, printed) == first
        }),
{
}

/// Every failure belongs to its stage and to how that stage ended. What could not be done at all
/// fails, but for asking after an installed program, which then counts as not installed, and for
/// waiting; and nothing that succeeded fails, but for the last wait.
pub proof fn law_failures_belong_to_their_stage(
    stage: OllamaStage,
    local: bool,
    outcome: Outcome,
    printed: Seq<char>,
)
    requires
        !(stage is Failed),
    ensures
        ({
            let next = next_stage(stage, local, outcome, printed);
            &&& next == OllamaStage::Failed(OllamaFailure::HttpClient) <==> (stage
                == OllamaStage::CheckFirst || stage is Probe) && outcome == Outcome::Broken
            &&& next == OllamaStage::Failed(OllamaFailure::Unavailable) <==> stage
                == OllamaStage::CheckFirst && outcome == Outcome::Failure && !local
            &&& next == OllamaStage::Failed(OllamaFailure::NotReady) <==> stage is Sleep
                && stage->Sleep_attempt >= 15
            &&& next == OllamaStage::Failed(OllamaFailure::ServeNotStarted) <==> stage
                == OllamaStage::StartServe && outcome == Outcome::Broken
            &&& next == OllamaStage::Failed(OllamaFailure::PullNotRun) <==> stage
                == OllamaStage::Pull && outcome == Outcome::Broken
            &&& next == OllamaStage::Failed(OllamaFailure::PullFailed) <==> stage
                == OllamaStage::Pull && outcome == Outcome::Failure
            &&& next == OllamaStage::Failed(OllamaFailure::DockerNotChecked) <==> stage
                == OllamaStage::DockerVersion && outcome == Outcome::Broken
            &&& next == OllamaStage::Failed(OllamaFailure::DockerUnavailable) <==> stage
                == OllamaStage::DockerVersion && outcome == Outcome::Failure
            &&& next == OllamaStage::Failed(OllamaFailure::InspectNotRun) <==> stage
                == OllamaStage::DockerInspect && outcome == Outcome::Broken
            &&& next == OllamaStage::Failed(OllamaFailure::ListNotRun) <==> stage
                == OllamaStage::DockerList && outcome == Outcome::Broken
            &&& next == OllamaStage::Failed(OllamaFailure::StartNotRun) <==> stage
                == OllamaStage::DockerStart && outcome == Outcome::Broken
            &&& next == OllamaStage::Failed(OllamaFailure::RunNotRun) <==> stage
                == OllamaStage::DockerRun && outcome == Outcome::Broken
            &&& next == OllamaStage::Failed(OllamaFailure::DockerPullNotRun) <==> stage
                == OllamaStage::DockerPull && outcome == Outcome::Broken
            &&& next == OllamaStage::Failed(OllamaFailure::DockerPullFailed) <==> stage
                == OllamaStage::DockerPull && outcome == Outcome::Failure
        }),
{
}

/// The user is told what is done next: each status comes exactly with the step that it names, and
/// nothing is told twice.
pub proof fn law_statuses_name_the_step(
    stage: OllamaStage,
    local: bool,
    outcome: Outcome,
    printed: Seq<char>,
)
    requires
        !(stage is Failed),
        stage != OllamaStage::Done,
    ensures
        ({
            let next = next_stage(stage, local, outcome, printed);
            let told = said(stage, next);
            &&& told.contains(OllamaStatus::StartingService) <==> next == OllamaStage::StartServe
            &&& told.contains(OllamaStatus::StartingDocker) <==> next == OllamaStage::DockerVersion
            &&& told.contains(OllamaStatus::Waiting) <==> next is Sleep
            &&& told.contains(OllamaStatus::Ready) <==> stage is Probe && outcome
                == Outcome::Success
            &&& told.contains(OllamaStatus::Pulling) <==> next == OllamaStage::Pull
            &&& told.contains(OllamaStatus::PullingInDocker) <==> next == OllamaStage::DockerPull
            &&& told.contains(OllamaStatus::SkippingPull) <==> stage == OllamaStage::QueryPullCli
                && outcome != Outcome::Success
            &&& !told.contains(OllamaStatus::Checking)
            &&& told.no_duplicates()
            &&& next is Failed ==> told.len() == 0
            &&& next == OllamaStage::DockerPull ==> told.first() == OllamaStatus::Ready
        }),
{
    let next = next_stage(stage, local, outcome, printed);
    let told = said(stage, next);
    assert(told.len() <= 2);
    assert(told.len() > 0 ==> told.contains(told[0]));
    assert(told.len() > 1 ==> told.contains(told[1]));
}

/// Every program that a stage runs names what it is about: the pulls the model, in the container
/// for Docker, and every other Docker command the one container; and stages that only ask the
/// server, wait or are over run nothing.
pub proof fn law_commands_name_model_and_container(stage: OllamaStage, model: Seq<char>)
    ensures
        ({
            let words = command_of_stage(stage, model);
            &&& words.len() == 0 <==> {
                ||| stage == OllamaStage::CheckFirst
                ||| stage is Probe
                ||| stage is Sleep
                ||| stage == OllamaStage::Done
                ||| stage is Failed
            }
            &&& in_docker(stage) && words.len() > 0 ==> words[0] == "docker"@
            &&& !in_docker(stage) && words.len() > 0 ==> words[0] == "ollama"@
            &&& stage == OllamaStage::Pull ==> words.len() == 3 && words[1] == "pull"@ && words[2]
                == model
            &&& stage == OllamaStage::DockerPull ==> words.len() == 6 && words[1] == "exec"@
                && words[2] == "wezterm-ollama"@ && words[3] == "ollama"@ && words[4] == "pull"@
                && words[5] == model
            &&& stage == OllamaStage::StartServe ==> words.len() == 2 && words[1] == "serve"@
            &&& stage == OllamaStage::QueryCli || stage == OllamaStage::QueryPullCli
                ==> words.len() == 2 && words[1] == "--version"@
            &&& stage == OllamaStage::DockerVersion ==> words.len() == 2 && words[1]
                == "version"@
            &&& stage == OllamaStage::DockerInspect ==> words.len() == 5 && words[1]
                == "inspect"@ && words[2] == "-f"@ && words[3] == "{{.State.Running}}"@
                && words[4] == "wezterm-ollama"@
            &&& stage == OllamaStage::DockerList ==> words.len() == 7 && words[1] == "ps"@
                && words[2] == "-a"@ && words[3] == "--filter"@ && words[4] == "name="@
                + "wezterm-ollama"@ && words[5] == "--format"@ && words[6] == "{{.Names}}"@
            &&& stage == OllamaStage::DockerStart ==> words.len() == 3 && words[1] == "start"@
                && words[2] == "wezterm-ollama"@
            &&& stage == OllamaStage::DockerRun ==> words.len() == 8 && words[1] == "run"@
                && words[2] == "-d"@ && words[3] == "--name"@ && words[4] == "wezterm-ollama"@
                && words[5] == "-p"@ && words[6] == "11434:11434"@ && words[7]
                == "ollama/ollama"@
        }),
{
}

/// Each wait is twice the one before, as long as that is under four seconds, and the first is a
/// quarter of a second.
pub proof fn law_waits_double(attempt: nat)
    ensures
        delay_after(0) == 250,
        2 * delay_after(attempt) <= 4000 ==> delay_after(attempt + 1) == 2 * delay_after(attempt),
        2 * delay_after(attempt) > 4000 ==> delay_after(attempt + 1) == 4000,
{
}

/// An address that holds one of this machine's names, wherever it holds it, is this machine's.
pub proof fn law_local_names_are_local(a: Seq<char>, b: Seq<char>, s: Seq<char>)
    ensures
        is_local(a + "localhost"@ + b),
        is_local(a + "127.0.0.1"@ + b),
        is_local(a + "0.0.0.0"@ + b),
        is_local(s) ==> occurs(s, "localhost"@) || occurs(s, "127.0.0.1"@) || occurs(
            s,
            "0.0.0.0"@,
        ),
{
    law_occurs_between(a, "localhost"@, b);
    law_occurs_between(a, "127.0.0.1"@, b);
    law_occurs_between(a, "0.0.0.0"@, b);
}

/// Slashes at the end of the configured address do not matter, and the models are asked for right
/// behind what is left of it.
pub proof fn law_trailing_slashes_do_not_matter(base_url: Seq<char>, server: Seq<char>)
    ensures
        server_of(base_url.push('/')) == server_of(base_url),
        server_of(base_url).len() > 0 ==> server_of(base_url).last() != '/',
        server_of(base_url).is_prefix_of(base_url),
        models_of(server) == server + "/models"@,
{
    assert(base_url.push('/').drop_last() =~= base_url);
    let n = law_trim_end_of_cuts_a_run(base_url, '/');
    assert(base_url.take(n).take(base_url.take(n).len() as int) =~= base_url.take(n));
}

/// The configured model is pulled, and the default one only where none is configured.
pub proof fn law_configured_model_is_pulled(model: Seq<char>)
    ensures
        model_pulled(Some(model)) == model,
        model_pulled(None) == "qwen2.5-coder:7b"@,
{
}

/// Whether a text ends in another.
pub open spec fn ends_in(s: Seq<char>, t: Seq<char>) -> bool {
    t.len() <= s.len() && s.skip(s.len() - t.len()) == t
}

proof fn lemma_ends_in(a: Seq<char>, b: Seq<char>)
    ensures
        ends_in(a + b, b),
{
    assert((a + b).skip((a + b).len() - b.len()) =~= b);
}

/// A failure says why: what could not be done ends in the cause, a failed pull in what the program
/// printed, and a server that does not answer is named by its address. A pull's text names the
/// model.
pub proof fn law_failures_say_why(
    failure: OllamaFailure,
    base_url: Seq<char>,
    cause: Seq<char>,
    stderr: Seq<char>,
    model: Seq<char>,
)
    ensures
        ({
            let text = text_of_failure(failure, base_url, cause, stderr);
            match failure {
                OllamaFailure::Unavailable => occurs(text, base_url),
                OllamaFailure::NotReady => occurs(text, base_url),
                OllamaFailure::DockerUnavailable => text
                    == "Docker is not available or not running"@,
                OllamaFailure::PullFailed => ends_in(text, stderr),
                OllamaFailure::DockerPullFailed => ends_in(text, stderr),
                _ => ends_in(text, cause),
            }
        }),
        occurs(text_of_status(OllamaStatus::Pulling, model), model),
        occurs(text_of_status(OllamaStatus::PullingInDocker, model), model),
{
    law_occurs_between(
        "Ollama is not available at "@,
        base_url,
        ". Ensure Ollama is running or update ai_ollama_base_url."@,
    );
    law_occurs_between(
        "Ollama did not become ready at "@,
        base_url,
        ". Please check the service."@,
    );
    law_occurs_between("Pulling model "@, model, " with Ollama..."@);
    law_occurs_between("Pulling model "@, model, " in Docker..."@);
    lemma_ends_in("building HTTP client: "@, cause);
    lemma_ends_in("starting ollama serve: "@, cause);
    lemma_ends_in("running ollama pull: "@, cause);
    lemma_ends_in("ollama pull failed: "@, stderr);
    lemma_ends_in("checking docker availability: "@, cause);
    lemma_ends_in("checking docker container state: "@, cause);
    lemma_ends_in("checking docker container existence: "@, cause);
    lemma_ends_in("starting Ollama docker container: "@, cause);
    lemma_ends_in("running Ollama docker container: "@, cause);
    lemma_ends_in("pulling model in docker: "@, cause);
    lemma_ends_in("docker ollama pull failed: "@, stderr);
}

} // verus!
