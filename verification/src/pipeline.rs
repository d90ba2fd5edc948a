use crate::command::{
    completed, left_running, result_view, CommandResult, CommandResultView, Invocation,
    InvocationView, Outcome,
};
use crate::config::{Config, ConfigView};
use crate::docker_command::{
    docker_image_inspect, docker_login, docker_login_command, docker_login_password,
    docker_login_password_command, docker_pull_image, docker_pull_image_command,
    docker_run_image, docker_run_image_command, inspect_outcome, login_invocation,
    login_outcome, login_password_invocation, login_password_outcome, pull_invocation,
    pull_outcome, run_invocation, run_outcome, run_spec,
};
use crate::response::{response_view, Failure, FailureView, Response};
use vstd::prelude::*;

verus! {

/// How long the answer to a request is held back once the launch of its
/// container has been attempted, in seconds. The pause gives the container
/// time to come up; it does not show that it did.
pub const LAUNCH_WAIT_SECS: u64 = 3;

/// A stage at which a program is run to completion. The registry is
/// authenticated against in two of them, the password and the login.
#[derive(Clone, Copy, Debug, PartialEq, Eq, Structural)]
pub enum Waiting {
    /// The image is being looked up among the images held locally.
    Inspecting,
    /// The credential provider is being asked for a registry password.
    FetchingPassword,
    /// The container runtime is being logged into the registry.
    LoggingIn,
    /// The image is being fetched from the registry.
    Pulling,
}

/// A stage after which nothing follows.
#[derive(Clone, Copy, Debug, PartialEq, Eq, Structural)]
pub enum Ended {
    /// The container was started and the request answered.
    Done,
    /// A step failed and the request was answered with its diagnostic.
    Failed,
    /// The host selects no tag and the request was answered by the fallback.
    Forwarded,
}

/// Where the handling of a request stands.
#[derive(Clone, Copy, Debug, PartialEq, Eq, Structural)]
pub enum Stage {
    /// A program is being run to completion.
    Waiting(Waiting),
    /// The container is being started.
    Launching,
    /// The request was answered.
    Ended(Ended),
}

/// What a request is about. The tag and the image are empty where the host
/// gave none.
#[derive(Clone, Debug, PartialEq, Eq)]
pub struct Request {
    pub host: String,
    pub tag: String,
    pub image: String,
}

/// The handling of one request: its stage, and what the request is about.
pub struct Pipeline {
    pub stage: Stage,
    pub host: Seq<char>,
    pub tag: Seq<char>,
    pub image: Seq<char>,
}

impl Pipeline {
    /// The same request at another stage.
    pub open spec fn at(self, stage: Stage) -> Pipeline {
        Pipeline { stage, ..self }
    }
}

impl Request {
    /// The handling of this request at `stage`.
    pub open spec fn at(&self, stage: Stage) -> Pipeline {
        Pipeline { stage, host: self.host@, tag: self.tag@, image: self.image@ }
    }
}

/// What the caller is to do next.
pub enum Action {
    /// Run the program, wait for it, and report how it ended.
    Run(InvocationView),
    /// Start the program, leave it running, and report whether it started.
    Spawn(InvocationView),
    /// Wait for the given number of seconds, then answer the request.
    Reply { wait_secs: u64, response: Result<Seq<char>, FailureView> },
}

/// A program to run to completion, and the request that waits for it.
#[derive(Clone, Debug, PartialEq, Eq)]
pub struct Run {
    pub stage: Waiting,
    pub request: Request,
    pub command: Invocation,
}

/// A program to start and leave running, and the request that it is
/// started for.
#[derive(Clone, Debug, PartialEq, Eq)]
pub struct Spawn {
    pub request: Request,
    pub command: Invocation,
}

/// The answer to a request, to be given after `wait_secs` seconds.
#[derive(Debug, PartialEq, Eq)]
pub struct Reply {
    pub stage: Ended,
    pub request: Request,
    pub wait_secs: u64,
    pub response: Response,
}

/// One step of the handling of a request: what the caller is to do next,
/// with what is needed to go on from its outcome.
#[derive(Debug, PartialEq, Eq)]
pub enum Step {
    /// Run the program, wait for it, and report what came back to
    /// [`Run::finished`].
    Run(Run),
    /// Start the program, leave it running, and report whether it started
    /// to [`Spawn::started`].
    Spawn(Spawn),
    /// Wait, then answer the request. Nothing follows.
    Reply(Reply),
}

/// The mathematical content of a [`Step`]: where the handling of the
/// request stands, and what the caller is to do next.
pub struct StepView {
    pub pipeline: Pipeline,
    pub action: Action,
}

impl Run {
    /// Where the handling of the request stands.
    pub open spec fn pipeline(&self) -> Pipeline {
        self.request.at(Stage::Waiting(self.stage))
    }
}

impl Spawn {
    /// Where the handling of the request stands.
    pub open spec fn pipeline(&self) -> Pipeline {
        self.request.at(Stage::Launching)
    }
}

impl Reply {
    /// Where the handling of the request stands.
    pub open spec fn pipeline(&self) -> Pipeline {
        self.request.at(Stage::Ended(self.stage))
    }
}

impl View for Step {
    type V = StepView;

    open spec fn view(&self) -> StepView {
        match self {
            Step::Run(run) => StepView {
                pipeline: run.pipeline(),
                action: Action::Run(run.command@),
            },
            Step::Spawn(spawn) => StepView {
                pipeline: spawn.pipeline(),
                action: Action::Spawn(spawn.command@),
            },
            Step::Reply(reply) => StepView {
                pipeline: reply.pipeline(),
                action: Action::Reply {
                    wait_secs: reply.wait_secs,
                    response: response_view(reply.response),
                },
            },
        }
    }
}

/// What an outcome says of a program that was to run to completion: its
/// result, or nothing where it could not be started. An outcome that tells
/// of a program left running says nothing of one that was waited for.
pub open spec fn ran(outcome: Outcome) -> Option<Option<CommandResultView>> {
    match outcome {
        Outcome::NotStarted => Some(None),
        Outcome::Exited(result) => Some(Some(result)),
        Outcome::Detached => None,
    }
}

/// What an outcome says of a program that was to be left running: whether
/// it started. An outcome that tells of an exit says nothing of it.
pub open spec fn spawned(outcome: Outcome) -> Option<bool> {
    match outcome {
        Outcome::NotStarted => Some(false),
        Outcome::Exited(_) => None,
        Outcome::Detached => Some(true),
    }
}

/// The step that ends the handling of a request after `wait_secs` seconds
/// with `failure`.
pub open spec fn fail(pipeline: Pipeline, wait_secs: u64, failure: FailureView) -> StepView {
    StepView {
        pipeline: pipeline.at(Stage::Ended(Ended::Failed)),
        action: Action::Reply { wait_secs, response: Err(failure) },
    }
}

/// The step that starts the container of a request.
pub open spec fn launch(config: ConfigView, pipeline: Pipeline) -> StepView {
    StepView {
        pipeline: pipeline.at(Stage::Launching),
        action: Action::Spawn(
            run_invocation(run_spec(config, pipeline.host, pipeline.tag, pipeline.image)),
        ),
    }
}

/// The step after the local lookup of the image: an image that is present
/// is launched at once, one that is absent is fetched first, beginning with
/// the registry password.
pub open spec fn after_inspect(
    config: ConfigView,
    pipeline: Pipeline,
    result: Option<CommandResultView>,
) -> StepView {
    match inspect_outcome(result) {
        Err(failure) => fail(pipeline, 0, failure),
        Ok(inspection) => if inspection.success {
            launch(config, pipeline)
        } else {
            StepView {
                pipeline: pipeline.at(Stage::Waiting(Waiting::FetchingPassword)),
                action: Action::Run(login_password_invocation()),
            }
        },
    }
}

/// The step after the credential provider's run: the login with the
/// password it printed.
pub open spec fn after_password(
    config: ConfigView,
    pipeline: Pipeline,
    result: Option<CommandResultView>,
) -> StepView {
    match login_password_outcome(result) {
        Err(failure) => fail(pipeline, 0, failure),
        Ok(password) => StepView {
            pipeline: pipeline.at(Stage::Waiting(Waiting::LoggingIn)),
            action: Action::Run(login_invocation(config.registry, password)),
        },
    }
}

/// The step after the login: the pull of the image.
pub open spec fn after_login(pipeline: Pipeline, result: Option<CommandResultView>) -> StepView {
    match login_outcome(result) {
        Err(failure) => fail(pipeline, 0, failure),
        Ok(_) => StepView {
            pipeline: pipeline.at(Stage::Waiting(Waiting::Pulling)),
            action: Action::Run(pull_invocation(pipeline.image)),
        },
    }
}

/// The step after the pull: the launch of the image that was fetched.
pub open spec fn after_pull(
    config: ConfigView,
    pipeline: Pipeline,
    result: Option<CommandResultView>,
) -> StepView {
    match pull_outcome(result) {
        Err(failure) => fail(pipeline, 0, failure),
        Ok(_) => launch(config, pipeline),
    }
}

/// The step after the attempt to start the container: the answer to the
/// request, held back for the launch wait.
pub open spec fn after_launch(pipeline: Pipeline, started: bool) -> StepView {
    match run_outcome(started) {
        Err(failure) => fail(pipeline, LAUNCH_WAIT_SECS, failure),
        Ok(body) => StepView {
            pipeline: pipeline.at(Stage::Ended(Ended::Done)),
            action: Action::Reply { wait_secs: LAUNCH_WAIT_SECS, response: Ok(body) },
        },
    }
}

/// The step after a program that was run to completion, at the stage that
/// waited for it.
pub open spec fn after_run(
    config: ConfigView,
    stage: Waiting,
    pipeline: Pipeline,
    result: Option<CommandResultView>,
) -> StepView {
    match stage {
        Waiting::Inspecting => after_inspect(config, pipeline, result),
        Waiting::FetchingPassword => after_password(config, pipeline, result),
        Waiting::LoggingIn => after_login(pipeline, result),
        Waiting::Pulling => after_pull(config, pipeline, result),
    }
}

/// The step that follows when `outcome` is known at `pipeline`. There is
/// none where the request was answered, and none where the outcome is not
/// of the kind that the pending action yields.
pub open spec fn advance(config: ConfigView, pipeline: Pipeline, outcome: Outcome) -> Option<
    StepView,
> {
    match pipeline.stage {
        Stage::Waiting(stage) => match ran(outcome) {
            Some(result) => Some(after_run(config, stage, pipeline, result)),
            None => None,
        },
        Stage::Launching => match spawned(outcome) {
            Some(started) => Some(after_launch(pipeline, started)),
            None => None,
        },
        Stage::Ended(_) => None,
    }
}

/// The actions that a caller is given, in order, when it is handed `step`
/// and then learns `outcomes` one after another, for as long as a step
/// follows.
pub open spec fn actions(config: ConfigView, step: StepView, outcomes: Seq<Outcome>) -> Seq<Action>
    decreases outcomes.len(),
{
    if outcomes.len() == 0 {
        seq![step.action]
    } else {
        match advance(config, step.pipeline, outcomes[0]) {
            Some(next) => seq![step.action] + actions(config, next, outcomes.drop_first()),
            None => seq![step.action],
        }
    }
}

fn fail_step(request: Request, wait_secs: u64, failure: Failure) -> (step: Step)
    ensures
        forall|stage: Stage| step@ == fail(#[trigger] request.at(stage), wait_secs, failure@),
{
    Step::Reply(Reply { stage: Ended::Failed, request, wait_secs, response: Err(failure) })
}

fn launch_step(config: &Config, request: Request) -> (step: Step)
    ensures
        forall|stage: Stage| step@ == launch(config@, #[trigger] request.at(stage)),
{
    let command = docker_run_image_command(
        config,
        request.host.as_str(),
        request.tag.as_str(),
        request.image.as_str(),
    );
    Step::Spawn(Spawn { request, command })
}

impl Run {
    /// Takes the handling of the request one step further, from what came
    /// back of the program: `None` where it could not be started.
    pub fn finished(self, config: &Config, result: Option<CommandResult>) -> (step: Step)
        ensures
            Some(step@) == advance(config@, self.pipeline(), completed(result_view(result))),
    {
        let ghost pipeline = self.pipeline();
        let request = self.request;
        assert(request.at(pipeline.stage) == pipeline);
        match self.stage {
            Waiting::Inspecting => match docker_image_inspect(result) {
                Err(failure) => fail_step(request, 0, failure),
                Ok(inspection) => {
                    if inspection.success {
                        launch_step(config, request)
                    } else {
                        Step::Run(
                            Run {
                                stage: Waiting::FetchingPassword,
                                request,
                                command: docker_login_password_command(),
                            },
                        )
                    }
                },
            },
            Waiting::FetchingPassword => match docker_login_password(result) {
                Err(failure) => fail_step(request, 0, failure),
                Ok(password) => Step::Run(
                    Run {
                        stage: Waiting::LoggingIn,
                        request,
                        command: docker_login_command(config, password.as_str()),
                    },
                ),
            },
            Waiting::LoggingIn => match docker_login(result) {
                Err(failure) => fail_step(request, 0, failure),
                Ok(_) => {
                    let command = docker_pull_image_command(&request.image);
                    Step::Run(Run { stage: Waiting::Pulling, request, command })
                },
            },
            Waiting::Pulling => match docker_pull_image(result) {
                Err(failure) => fail_step(request, 0, failure),
                Ok(_) => launch_step(config, request),
            },
        }
    }
}

impl Spawn {
    /// Ends the handling of the request, from whether the program started.
    /// The step is a reply.
    pub fn started(self, started: bool) -> (step: Step)
        ensures
            step@ == after_launch(self.pipeline(), started),
            forall|config: ConfigView|
                Some(step@) == #[trigger] advance(config, self.pipeline(), left_running(started)),
            step is Reply,
    {
        let ghost pipeline = self.pipeline();
        let request = self.request;
        assert(request.at(pipeline.stage) == pipeline);
        match docker_run_image(started) {
            Err(failure) => fail_step(request, LAUNCH_WAIT_SECS, failure),
            Ok(body) => Step::Reply(
                Reply {
                    stage: Ended::Done,
                    request,
                    wait_secs: LAUNCH_WAIT_SECS,
                    response: Ok(body),
                },
            ),
        }
    }
}

} // verus!
