use crate::command::{
    result_view, texts, utf8_text, CommandResult, CommandResultView, Invocation, InvocationView,
};
use crate::config::{Config, ConfigView};
use crate::response::{done_view, internal_error, response_view, Failure, FailureView};
use crate::text::{decimal, decimal_string};
use vstd::prelude::*;
use vstd::utf8::*;

verus! {

/// The container runtime, started with the given arguments.
pub open spec fn docker(args: Seq<Seq<char>>) -> InvocationView {
    InvocationView { program: "docker"@, args }
}

fn docker_invocation(args: Vec<String>) -> (invocation: Invocation)
    ensures
        invocation@ == docker(texts(args@)),
{
    Invocation { program: "docker".to_owned(), args }
}

/// The command that asks the credential provider for a registry password.
pub open spec fn login_password_invocation() -> InvocationView {
    docker(
        seq![
            "run"@,
            "--rm"@,
            "amazon/aws-cli"@,
            "ecr"@,
            "get-login-password"@,
            "--region"@,
            "ap-northeast-1"@,
        ],
    )
}

/// What the credential provider's run yields: the password it printed, or
/// the failure to answer with. The password is there exactly when the
/// provider was started, exited with success, and printed well-formed
/// UTF-8; it is then everything that the provider printed.
pub open spec fn login_password_outcome(result: Option<CommandResultView>) -> Result<
    Seq<char>,
    FailureView,
> {
    match result {
        Some(r) if r.success && valid_utf8(r.stdout) => Ok(decode_utf8(r.stdout)),
        _ => Err(internal_error("aws ecr get-login-password: failed"@)),
    }
}

/// The command that logs the container runtime into `registry`.
pub open spec fn login_invocation(registry: Seq<char>, password: Seq<char>) -> InvocationView {
    docker(seq!["login"@, "--username"@, "AWS"@, "--password"@, password, registry])
}

/// What the login command's run means: success exactly when the command was
/// started and exited with success.
pub open spec fn login_outcome(result: Option<CommandResultView>) -> Result<(), FailureView> {
    match result {
        None => Err(internal_error("docker login: failed"@)),
        Some(r) => if r.success {
            Ok(())
        } else {
            Err(internal_error("docker login failed"@))
        },
    }
}

/// Builds the command that asks the credential provider for a registry
/// password. The password is what the command writes to its standard output.
pub fn docker_login_password_command() -> (command: Invocation)
    ensures
        command@ == login_password_invocation(),
{
    let mut args: Vec<String> = Vec::new();
    args.push("run".to_owned());
    args.push("--rm".to_owned());
    args.push("amazon/aws-cli".to_owned());
    args.push("ecr".to_owned());
    args.push("get-login-password".to_owned());
    args.push("--region".to_owned());
    args.push("ap-northeast-1".to_owned());
    assert(texts(args@) =~= login_password_invocation().args);
    docker_invocation(args)
}

/// Takes the password out of what the credential provider's run left
/// behind; `None` stands for a provider that could not be started.
pub fn docker_login_password(result: Option<CommandResult>) -> (password: Result<String, Failure>)
    ensures
        response_view(password) == login_password_outcome(result_view(result)),
{
    if let Some(r) = result {
        if r.success {
            if let Some(text) = utf8_text(r.stdout.as_slice()) {
                return Ok(text.to_owned());
            }
        }
    }
    Err(Failure::internal_error("aws ecr get-login-password: failed".to_owned()))
}

/// Builds the command that logs the container runtime into the configured
/// registry with `password`.
pub fn docker_login_command(config: &Config, password: &str) -> (command: Invocation)
    ensures
        command@ == login_invocation(config.registry@, password@),
{
    let mut args: Vec<String> = Vec::new();
    args.push("login".to_owned());
    args.push("--username".to_owned());
    args.push("AWS".to_owned());
    args.push("--password".to_owned());
    args.push(password.to_owned());
    args.push(config.registry.clone());
    assert(texts(args@) =~= login_invocation(config.registry@, password@).args);
    docker_invocation(args)
}

/// Judges the login command's run; `None` stands for a command that could
/// not be started.
pub fn docker_login(result: Option<CommandResult>) -> (login: Result<(), Failure>)
    ensures
        done_view(login) == login_outcome(result_view(result)),
{
    match result {
        None => Err(Failure::internal_error("docker login: failed".to_owned())),
        Some(r) => {
            if r.success {
                Ok(())
            } else {
                Err(Failure::internal_error("docker login failed".to_owned()))
            }
        },
    }
}

/// The command that fetches `image` from its registry.
pub open spec fn pull_invocation(image: Seq<char>) -> InvocationView {
    docker(seq!["pull"@, image])
}

/// What a failed pull wrote to its standard error, as far as it can stand
/// in a diagnostic: all of it where it is well-formed UTF-8, and nothing of
/// it where it is not.
pub open spec fn error_text(stderr: Seq<u8>) -> Seq<char> {
    if valid_utf8(stderr) {
        decode_utf8(stderr)
    } else {
        Seq::empty()
    }
}

/// What the pull command's run means. A pull that was started and failed
/// is reported with what it wrote to its standard error.
pub open spec fn pull_outcome(result: Option<CommandResultView>) -> Result<Seq<char>, FailureView> {
    match result {
        None => Err(internal_error("docker pull: failed"@)),
        Some(r) => if r.success {
            Ok("Image successfully pulled"@)
        } else {
            Err(internal_error("docker pull: failed -> "@ + error_text(r.stderr)))
        },
    }
}

/// Builds the command that fetches `image` from its registry.
pub fn docker_pull_image_command(image: &String) -> (command: Invocation)
    ensures
        command@ == pull_invocation(image@),
{
    let mut args: Vec<String> = Vec::new();
    args.push("pull".to_owned());
    args.push(image.clone());
    assert(texts(args@) =~= pull_invocation(image@).args);
    docker_invocation(args)
}

/// Judges the pull command's run; `None` stands for a command that could
/// not be started.
pub fn docker_pull_image(result: Option<CommandResult>) -> (pulled: Result<String, Failure>)
    ensures
        response_view(pulled) == pull_outcome(result_view(result)),
{
    match result {
        None => Err(Failure::internal_error("docker pull: failed".to_owned())),
        Some(r) => {
            if r.success {
                Ok("Image successfully pulled".to_owned())
            } else {
                let mut message = "docker pull: failed -> ".to_owned();
                if let Some(text) = utf8_text(r.stderr.as_slice()) {
                    message.append(text);
                }
                assert(message@ =~= "docker pull: failed -> "@ + error_text(r.stderr@));
                Err(Failure::internal_error(message))
            }
        },
    }
}

/// The command that looks `image` up among the images held locally.
pub open spec fn inspect_invocation(image: Seq<char>) -> InvocationView {
    docker(seq!["image"@, "inspect"@, image])
}

/// What the inspect command's run means: the run itself, unless the command
/// could not be started.
pub open spec fn inspect_outcome(result: Option<CommandResultView>) -> Result<
    CommandResultView,
    FailureView,
> {
    match result {
        None => Err(internal_error("docker image inspect: failed"@)),
        Some(r) => Ok(r),
    }
}

/// The mathematical content of an inspection's result.
pub open spec fn inspection_view(inspection: Result<CommandResult, Failure>) -> Result<
    CommandResultView,
    FailureView,
> {
    match inspection {
        Ok(r) => Ok(r@),
        Err(failure) => Err(failure@),
    }
}

/// Builds the command that looks `image` up among the images held locally.
/// The image is present exactly when the command exits with success.
pub fn docker_image_inspect_command(image: &String) -> (command: Invocation)
    ensures
        command@ == inspect_invocation(image@),
{
    let mut args: Vec<String> = Vec::new();
    args.push("image".to_owned());
    args.push("inspect".to_owned());
    args.push(image.clone());
    assert(texts(args@) =~= inspect_invocation(image@).args);
    docker_invocation(args)
}

/// Judges the inspect command's run; `None` stands for a command that could
/// not be started.
pub fn docker_image_inspect(result: Option<CommandResult>) -> (inspection: Result<
    CommandResult,
    Failure,
>)
    ensures
        inspection_view(inspection) == inspect_outcome(result_view(result)),
{
    match result {
        Some(r) => Ok(r),
        None => Err(Failure::internal_error("docker image inspect: failed".to_owned())),
    }
}

/// The network that launched containers are attached to.
pub open spec fn internal_network() -> Seq<char> {
    "docker.internal"@
}

/// The label that offers a container to the reverse proxy.
pub open spec fn enable_label() -> Seq<char> {
    "proxy.enable=true"@
}

/// The label that routes requests for exactly `host` to the container of
/// `tag`.
pub open spec fn rule_label(tag: Seq<char>, host: Seq<char>) -> Seq<char> {
    "proxy.http.routers."@ + tag + ".rule=Host(`"@ + host + "`)"@
}

/// The label that fixes the priority of the route of `tag`.
pub open spec fn priority_label(tag: Seq<char>) -> Seq<char> {
    "proxy.http.routers."@ + tag + ".priority=50"@
}

/// Everything that a container is launched with.
#[derive(Clone, Debug, PartialEq, Eq)]
pub struct RunSpec {
    pub port: u16,
    pub network: String,
    pub labels: Vec<String>,
    pub image: String,
}

/// The mathematical content of a [`RunSpec`].
pub struct RunSpecView {
    pub port: u16,
    pub network: Seq<char>,
    pub labels: Seq<Seq<char>>,
    pub image: Seq<char>,
}

impl View for RunSpec {
    type V = RunSpecView;

    open spec fn view(&self) -> RunSpecView {
        RunSpecView {
            port: self.port,
            network: self.network@,
            labels: texts(self.labels@),
            image: self.image@,
        }
    }
}

/// What the container for a request is launched with: the configured port,
/// the internal network, the three routing labels made of `tag` and `host`
/// as they stand, and the image.
pub open spec fn run_spec(
    config: ConfigView,
    host: Seq<char>,
    tag: Seq<char>,
    image: Seq<char>,
) -> RunSpecView {
    RunSpecView {
        port: config.port,
        network: internal_network(),
        labels: seq![enable_label(), rule_label(tag, host), priority_label(tag)],
        image,
    }
}

/// The arguments that attach `labels` to a container, in order.
pub open spec fn label_args(labels: Seq<Seq<char>>) -> Seq<Seq<char>>
    decreases labels.len(),
{
    if labels.len() == 0 {
        seq![]
    } else {
        label_args(labels.drop_last()) + seq!["--label"@, labels.last()]
    }
}

/// The command that launches a container as `spec` says.
pub open spec fn run_invocation(spec: RunSpecView) -> InvocationView {
    docker(
        seq!["run"@, "-p"@, decimal(spec.port as nat), "--net"@, spec.network] + label_args(
            spec.labels,
        ) + seq![spec.image],
    )
}

/// What the attempt to start the container means: the launch is confirmed
/// exactly when the runtime accepted the command.
pub open spec fn run_outcome(started: bool) -> Result<Seq<char>, FailureView> {
    if started {
        Ok("container launched"@)
    } else {
        Err(internal_error("docker run: failed"@))
    }
}

impl RunSpec {
    /// Lays down what the container for a request is launched with.
    pub fn new(config: &Config, host: &str, tag: &str, image: &str) -> (spec: RunSpec)
        ensures
            spec@ == run_spec(config@, host@, tag@, image@),
    {
        let mut rule = "proxy.http.routers.".to_owned();
        rule.append(tag);
        rule.append(".rule=Host(`");
        rule.append(host);
        rule.append("`)");
        let mut priority = "proxy.http.routers.".to_owned();
        priority.append(tag);
        priority.append(".priority=50");
        let mut labels: Vec<String> = Vec::new();
        labels.push("proxy.enable=true".to_owned());
        labels.push(rule);
        labels.push(priority);
        assert(texts(labels@) =~= run_spec(config@, host@, tag@, image@).labels);
        RunSpec {
            port: config.port,
            network: "docker.internal".to_owned(),
            labels,
            image: image.to_owned(),
        }
    }

    /// Builds the command that launches the container.
    pub fn command(&self) -> (command: Invocation)
        ensures
            command@ == run_invocation(self@),
    {
        let mut args: Vec<String> = Vec::new();
        args.push("run".to_owned());
        args.push("-p".to_owned());
        args.push(decimal_string(self.port));
        args.push("--net".to_owned());
        args.push(self.network.clone());
        let ghost head = texts(args@);
        assert(head =~= seq!["run"@, "-p"@, decimal(self.port as nat), "--net"@, self.network@]);
        assert(texts(self.labels@).take(0) =~= Seq::<Seq<char>>::empty());
        let mut i: usize = 0;
        while i < self.labels.len()
            invariant
                i <= self.labels.len(),
                texts(args@) =~= head + label_args(texts(self.labels@).take(i as int)),
            decreases self.labels.len() - i,
        {
            let ghost before = texts(args@);
            args.push("--label".to_owned());
            args.push(self.labels[i].clone());
            proof {
                let labels = texts(self.labels@);
                assert(labels.take(i + 1).drop_last() =~= labels.take(i as int));
                assert(labels.take(i + 1).last() == self.labels@[i as int]@);
                assert(texts(args@) =~= before + seq!["--label"@, self.labels@[i as int]@]);
            }
            i += 1;
        }
        let ghost labelled = texts(args@);
        args.push(self.image.clone());
        proof {
            assert(texts(self.labels@).take(i as int) =~= texts(self.labels@));
            assert(texts(args@) =~= labelled + seq![self.image@]);
        }
        docker_invocation(args)
    }
}

/// Builds the command that launches the container for a request.
pub fn docker_run_image_command(
    config: &Config,
    host: &str,
    tag: &str,
    image: &str,
) -> (command: Invocation)
    ensures
        command@ == run_invocation(run_spec(config@, host@, tag@, image@)),
{
    RunSpec::new(config, host, tag, image).command()
}

/// Judges the attempt to start the container: `started` tells whether the
/// runtime accepted the command. Nothing is known of the container itself.
pub fn docker_run_image(started: bool) -> (launched: Result<String, Failure>)
    ensures
        response_view(launched) == run_outcome(started),
{
    if started {
        Ok("container launched".to_owned())
    } else {
        Err(Failure::internal_error("docker run: failed".to_owned()))
    }
}

} // verus!
