use crate::command::{CommandResultView, Outcome};
use crate::config::{image_reference, ConfigView};
use crate::docker_command::{
    docker, enable_label, error_text, inspect_invocation, label_args, login_invocation,
    login_password_invocation, priority_label, pull_invocation, pull_outcome, rule_label,
    run_invocation, run_outcome, run_spec,
};
use crate::indexes::{begin, fallback_body, handle};
use crate::pipeline::{
    actions, advance, fail, ran, spawned, Action, Ended, Pipeline, Stage, StepView, Waiting,
    LAUNCH_WAIT_SECS,
};
use crate::response::{internal_error, not_found, Status};
use crate::text::{
    all_digits, decimal, digit_char, digit_value, digits_value, is_digit, parse_u16,
};
use crate::utils::{allowed_char, leading_label, lemma_leading_label, tag_of};
use vstd::prelude::*;
use vstd::utf8::*;

verus! {

proof fn lemma_actions_go_on(config: ConfigView, step: StepView, outcomes: Seq<Outcome>)
    requires
        outcomes.len() > 0,
        advance(config, step.pipeline, outcomes[0]) is Some,
    ensures
        actions(config, step, outcomes) == seq![step.action] + actions(
            config,
            advance(config, step.pipeline, outcomes[0])->0,
            outcomes.drop_first(),
        ),
{
}

proof fn lemma_actions_end(config: ConfigView, step: StepView, outcomes: Seq<Outcome>)
    requires
        outcomes.len() == 0 || advance(config, step.pipeline, outcomes[0]) is None,
    ensures
        actions(config, step, outcomes) == seq![step.action],
{
}

/// A step that ends in a reply is the last one: whatever is reported after
/// it, no action follows.
pub proof fn law_reply_is_last(config: ConfigView, step: StepView, outcomes: Seq<Outcome>)
    requires
        step.pipeline.stage is Ended,
    ensures
        actions(config, step, outcomes) == seq![step.action],
{
}

/// Every step that the pipeline takes keeps the host, the tag and the image
/// of its request, and it ends in a reply exactly when the stage it leads
/// to is final.
pub proof fn law_step_keeps_request(
    config: ConfigView,
    pipeline: Pipeline,
    outcome: Outcome,
)
    ensures
        advance(config, pipeline, outcome) matches Some(step) ==> {
            &&& step.pipeline.host == pipeline.host
            &&& step.pipeline.tag == pipeline.tag
            &&& step.pipeline.image == pipeline.image
            &&& step.action is Reply <==> step.pipeline.stage is Ended
        },
{
}

/// A host without a dot has no subdomain: the pipeline answers it with the
/// "not found" failure and runs nothing, whatever is reported to it.
pub proof fn law_host_without_dot_runs_nothing(
    config: ConfigView,
    host: Seq<char>,
    outcomes: Seq<Outcome>,
)
    requires
        !host.contains('.'),
    ensures
        actions(config, begin(config, host), outcomes) == seq![
            Action::Reply {
                wait_secs: 0,
                response: Err(not_found("couldn't find subdomain"@)),
            },
        ],
{
    lemma_leading_label(host);
}

/// A host whose leading label holds a character that no tag may hold is
/// handed to the fallback, and nothing is run for it. `at` is where such a
/// character stands: in front of every dot of the host.
pub proof fn law_unaccepted_label_is_forwarded(
    config: ConfigView,
    host: Seq<char>,
    at: int,
    outcomes: Seq<Outcome>,
)
    requires
        0 <= at < host.len(),
        !allowed_char(host[at]),
        forall|j: int| 0 <= j <= at ==> host[j] != '.',
    ensures
        tag_of(host) is None,
        actions(config, handle(config, Some(host)), outcomes) == seq![
            Action::Reply { wait_secs: 0, response: Ok(fallback_body()) },
        ],
{
    host.index_of_first_ensures('.');
    if let Some(label) = leading_label(host) {
        let dot = host.index_of_first('.')->0;
        assert(at < dot);
        assert(label[at] == host[at]);
    }
}

/// The image of a request is named after the tag that its host selects:
/// the registry, a slash, the repository, a colon, and the tag.
pub proof fn law_image_is_named_after_the_tag(config: ConfigView, host: Seq<char>)
    requires
        tag_of(host) is Some,
    ensures
        ({
            let tag = tag_of(host)->0;
            let request = handle(config, Some(host)).pipeline;
            &&& request.host == host
            &&& request.tag == tag
            &&& request.image == config.registry + "/"@ + config.repository + ":"@ + tag
        }),
{
}

proof fn lemma_decimal_is_read_back(n: nat)
    ensures
        decimal(n).len() > 0,
        decimal(n)[0] != '+',
        all_digits(decimal(n)),
        digits_value(decimal(n)) == n,
    decreases n,
{
    let text = decimal(n);
    if n < 10 {
        assert(text.drop_last() =~= Seq::<char>::empty());
        assert(digits_value(text.drop_last()) == 0);
        assert(digit_value(digit_char(n)) == n);
    } else {
        lemma_decimal_is_read_back(n / 10);
        let front = decimal(n / 10);
        assert(text.drop_last() =~= front);
        assert(text.last() == digit_char(n % 10));
        assert(digit_value(digit_char(n % 10)) == n % 10);
        assert(text[0] == front[0]);
        assert forall|i: int| 0 <= i < text.len() implies is_digit(#[trigger] text[i]) by {
            if i < front.len() {
                assert(text[i] == front[i]);
            }
        }
    }
}

/// A port that is written in decimal is read back as itself.
pub proof fn law_port_is_read_back(port: u16)
    ensures
        parse_u16(decimal(port as nat)) == Some(port),
{
    lemma_decimal_is_read_back(port as nat);
}

/// The step that the launch of a request is: the spawn of the command made
/// of the pipeline's own host, tag and image.
pub open spec fn launches_request(config: ConfigView, step: StepView) -> bool {
    step.action is Spawn ==> step.action == Action::Spawn(
        run_invocation(
            run_spec(config, step.pipeline.host, step.pipeline.tag, step.pipeline.image),
        ),
    )
}

proof fn lemma_launches_of_request(
    config: ConfigView,
    step: StepView,
    outcomes: Seq<Outcome>,
    k: int,
)
    requires
        launches_request(config, step),
        0 <= k < actions(config, step, outcomes).len(),
        actions(config, step, outcomes)[k] is Spawn,
    ensures
        actions(config, step, outcomes)[k] == Action::Spawn(
            run_invocation(
                run_spec(config, step.pipeline.host, step.pipeline.tag, step.pipeline.image),
            ),
        ),
    decreases outcomes.len(),
{
    if k > 0 {
        let next = advance(config, step.pipeline, outcomes[0])->0;
        law_step_keeps_request(config, step.pipeline, outcomes[0]);
        lemma_launches_of_request(config, next, outcomes.drop_first(), k - 1);
    }
}

/// The command that launches a container is made of the configured port,
/// the internal network, the three labels and the image, and the labels
/// hold the tag and the host exactly as they were given.
pub proof fn law_launch_carries_tag_and_host(
    config: ConfigView,
    host: Seq<char>,
    tag: Seq<char>,
    image: Seq<char>,
)
    ensures
        run_invocation(run_spec(config, host, tag, image)) == docker(
            seq![
                "run"@,
                "-p"@,
                decimal(config.port as nat),
                "--net"@,
                "docker.internal"@,
                "--label"@,
                "proxy.enable=true"@,
                "--label"@,
                "proxy.http.routers."@ + tag + ".rule=Host(`"@ + host + "`)"@,
                "--label"@,
                "proxy.http.routers."@ + tag + ".priority=50"@,
                image,
            ],
        ),
{
    let labels = run_spec(config, host, tag, image).labels;
    let two = labels.drop_last();
    let one = two.drop_last();
    assert(one.drop_last() =~= Seq::<Seq<char>>::empty());
    assert(label_args(one.drop_last()) =~= Seq::<Seq<char>>::empty());
    assert(label_args(one) =~= seq!["--label"@, enable_label()]);
    assert(label_args(two) =~= seq!["--label"@, enable_label(), "--label"@, rule_label(tag, host)]);
    assert(label_args(labels) =~= seq![
        "--label"@,
        enable_label(),
        "--label"@,
        rule_label(tag, host),
        "--label"@,
        priority_label(tag),
    ]);
    assert(run_invocation(run_spec(config, host, tag, image)).args =~= seq![
        "run"@,
        "-p"@,
        decimal(config.port as nat),
        "--net"@,
        "docker.internal"@,
        "--label"@,
        "proxy.enable=true"@,
        "--label"@,
        "proxy.http.routers."@ + tag + ".rule=Host(`"@ + host + "`)"@,
        "--label"@,
        "proxy.http.routers."@ + tag + ".priority=50"@,
        image,
    ]);
}

/// Whenever the handling of a request reaches a launch, the container is
/// started with the host of the request, the tag that is its subdomain, and
/// the image that the tag selects.
pub proof fn law_every_launch_is_of_the_request(
    config: ConfigView,
    host: Seq<char>,
    outcomes: Seq<Outcome>,
    k: int,
)
    requires
        leading_label(host) is Some,
        0 <= k < actions(config, begin(config, host), outcomes).len(),
        actions(config, begin(config, host), outcomes)[k] is Spawn,
    ensures
        ({
            let tag = leading_label(host)->0;
            actions(config, begin(config, host), outcomes)[k] == Action::Spawn(
                run_invocation(run_spec(config, host, tag, image_reference(config, tag))),
            )
        }),
{
    lemma_launches_of_request(config, begin(config, host), outcomes, k);
}

/// An image that is present is launched at once. When the lookup of the
/// image exits with success, the lookup is the only command that is run to
/// completion: the launch follows it directly, and after the launch at most
/// the reply.
pub proof fn law_present_image_is_launched_at_once(
    config: ConfigView,
    host: Seq<char>,
    outcomes: Seq<Outcome>,
)
    requires
        leading_label(host) is Some,
        outcomes.len() >= 1,
        outcomes[0] matches Outcome::Exited(inspection) && inspection.success,
    ensures
        ({
            let tag = leading_label(host)->0;
            let image = image_reference(config, tag);
            let trace = actions(config, begin(config, host), outcomes);
            &&& 2 <= trace.len() <= 3
            &&& trace[0] == Action::Run(inspect_invocation(image))
            &&& trace[1] == Action::Spawn(run_invocation(run_spec(config, host, tag, image)))
            &&& trace.len() == 3 ==> outcomes.len() >= 2 && spawned(outcomes[1]) is Some
                && trace[2] == (Action::Reply {
                wait_secs: LAUNCH_WAIT_SECS,
                response: run_outcome(spawned(outcomes[1])->0),
            })
        }),
{
    let first = begin(config, host);
    let second = advance(config, first.pipeline, outcomes[0])->0;
    let rest = outcomes.drop_first();
    lemma_actions_go_on(config, first, outcomes);
    if rest.len() > 0 && advance(config, second.pipeline, rest[0]) is Some {
        let third = advance(config, second.pipeline, rest[0])->0;
        assert(rest[0] == outcomes[1]);
        lemma_actions_go_on(config, second, rest);
        law_reply_is_last(config, third, rest.drop_first());
        assert(actions(config, first, outcomes) =~= seq![
            first.action,
            second.action,
            third.action,
        ]);
    } else {
        lemma_actions_end(config, second, rest);
        assert(actions(config, first, outcomes) =~= seq![first.action, second.action]);
    }
}

/// An image that is absent is fetched before it is launched. When the
/// lookup of the image exits with failure, the credential provider exits
/// with success and prints a password, which is well-formed UTF-8, and the
/// login and the pull each exit with success, the commands are, in this
/// order and each once: the lookup, the credential provider, the login with
/// the password that the provider printed, the pull, and the launch; after
/// the launch follows at most the reply.
pub proof fn law_absent_image_is_fetched_then_launched(
    config: ConfigView,
    host: Seq<char>,
    outcomes: Seq<Outcome>,
)
    requires
        leading_label(host) is Some,
        outcomes.len() >= 4,
        outcomes[0] matches Outcome::Exited(inspection) && !inspection.success,
        outcomes[1] matches Outcome::Exited(provided) && provided.success && valid_utf8(
            provided.stdout,
        ),
        outcomes[2] matches Outcome::Exited(login) && login.success,
        outcomes[3] matches Outcome::Exited(pull) && pull.success,
    ensures
        ({
            let tag = leading_label(host)->0;
            let image = image_reference(config, tag);
            let password = decode_utf8(outcomes[1]->Exited_0.stdout);
            let trace = actions(config, begin(config, host), outcomes);
            &&& 5 <= trace.len() <= 6
            &&& trace.take(5) == seq![
                Action::Run(inspect_invocation(image)),
                Action::Run(login_password_invocation()),
                Action::Run(login_invocation(config.registry, password)),
                Action::Run(pull_invocation(image)),
                Action::Spawn(run_invocation(run_spec(config, host, tag, image))),
            ]
            &&& trace.len() == 6 ==> outcomes.len() >= 5 && spawned(outcomes[4]) is Some
                && trace[5] == (Action::Reply {
                wait_secs: LAUNCH_WAIT_SECS,
                response: run_outcome(spawned(outcomes[4])->0),
            })
        }),
{
    let s0 = begin(config, host);
    let o1 = outcomes.drop_first();
    let o2 = o1.drop_first();
    let o3 = o2.drop_first();
    let o4 = o3.drop_first();
    assert(o1[0] == outcomes[1] && o2[0] == outcomes[2] && o3[0] == outcomes[3]);
    let s1 = advance(config, s0.pipeline, outcomes[0])->0;
    let s2 = advance(config, s1.pipeline, o1[0])->0;
    let s3 = advance(config, s2.pipeline, o2[0])->0;
    let s4 = advance(config, s3.pipeline, o3[0])->0;
    lemma_actions_go_on(config, s0, outcomes);
    lemma_actions_go_on(config, s1, o1);
    lemma_actions_go_on(config, s2, o2);
    lemma_actions_go_on(config, s3, o3);
    let head = seq![s0.action, s1.action, s2.action, s3.action, s4.action];
    let trace = actions(config, s0, outcomes);
    if o4.len() > 0 && advance(config, s4.pipeline, o4[0]) is Some {
        let s5 = advance(config, s4.pipeline, o4[0])->0;
        assert(o4[0] == outcomes[4]);
        lemma_actions_go_on(config, s4, o4);
        law_reply_is_last(config, s5, o4.drop_first());
        assert(trace =~= head.push(s5.action));
    } else {
        lemma_actions_end(config, s4, o4);
        assert(trace =~= head);
    }
    assert(trace.take(5) =~= head);
}

/// A pull that fails ends the handling of the request. When the lookup of
/// the image exits with failure, the credential provider prints a password,
/// the login exits with success, and the pull then cannot be started or
/// exits with failure,
/// the request is answered with the diagnostic of the pull and no container
/// is launched. The diagnostic of a pull that exited ends with what the
/// pull wrote to its standard error: with all of it, byte for byte, where
/// that is well-formed UTF-8.
pub proof fn law_failed_pull_is_reported(
    config: ConfigView,
    host: Seq<char>,
    outcomes: Seq<Outcome>,
)
    requires
        leading_label(host) is Some,
        outcomes.len() >= 4,
        outcomes[0] matches Outcome::Exited(inspection) && !inspection.success,
        outcomes[1] matches Outcome::Exited(provided) && provided.success && valid_utf8(
            provided.stdout,
        ),
        outcomes[2] matches Outcome::Exited(login) && login.success,
        outcomes[3] is NotStarted || (outcomes[3] matches Outcome::Exited(pull)
            && !pull.success),
    ensures
        ({
            let tag = leading_label(host)->0;
            let image = image_reference(config, tag);
            let password = decode_utf8(outcomes[1]->Exited_0.stdout);
            let trace = actions(config, begin(config, host), outcomes);
            &&& trace == seq![
                Action::Run(inspect_invocation(image)),
                Action::Run(login_password_invocation()),
                Action::Run(login_invocation(config.registry, password)),
                Action::Run(pull_invocation(image)),
                Action::Reply {
                    wait_secs: 0,
                    response: pull_outcome(ran(outcomes[3])->0),
                },
            ]
            &&& forall|k: int| 0 <= k < trace.len() ==> !(trace[k] is Spawn)
            &&& outcomes[3] matches Outcome::Exited(pull) ==> {
                &&& pull_outcome(ran(outcomes[3])->0) == Err::<Seq<char>, _>(
                    internal_error("docker pull: failed -> "@ + error_text(pull.stderr)),
                )
                &&& valid_utf8(pull.stderr) ==> encode_utf8(error_text(pull.stderr))
                    == pull.stderr
            }
        }),
{
    let s0 = begin(config, host);
    let o1 = outcomes.drop_first();
    let o2 = o1.drop_first();
    let o3 = o2.drop_first();
    assert(o1[0] == outcomes[1] && o2[0] == outcomes[2] && o3[0] == outcomes[3]);
    let s1 = advance(config, s0.pipeline, outcomes[0])->0;
    let s2 = advance(config, s1.pipeline, o1[0])->0;
    let s3 = advance(config, s2.pipeline, o2[0])->0;
    let s4 = advance(config, s3.pipeline, o3[0])->0;
    lemma_actions_go_on(config, s0, outcomes);
    lemma_actions_go_on(config, s1, o1);
    lemma_actions_go_on(config, s2, o2);
    lemma_actions_go_on(config, s3, o3);
    law_reply_is_last(config, s4, o3.drop_first());
    let trace = actions(config, s0, outcomes);
    assert(trace =~= seq![s0.action, s1.action, s2.action, s3.action, s4.action]);
    if let Outcome::Exited(pull) = outcomes[3] {
        if valid_utf8(pull.stderr) {
            decode_utf8_encode_utf8(pull.stderr);
        }
    }
}

/// A step that fails ends the handling of the request with an answer of
/// status 500, whatever the program wrote. A step fails where its program
/// cannot be started, and, but for the lookup of the image, where its
/// program exits with failure.
pub proof fn law_failed_step_is_answered(config: ConfigView, pipeline: Pipeline, outcome: Outcome)
    requires
        pipeline.stage is Waiting || pipeline.stage is Launching,
        outcome is NotStarted || (outcome matches Outcome::Exited(result) && !result.success
            && pipeline.stage is Waiting && pipeline.stage != Stage::Waiting(Waiting::Inspecting)),
    ensures
        ({
            let step = advance(config, pipeline, outcome);
            &&& step is Some
            &&& step->0.pipeline.stage == Stage::Ended(Ended::Failed)
            &&& step->0.action is Reply
            &&& step->0.action->response is Err
            &&& step->0.action->response->Err_0.status == Status::InternalServerError
        }),
{
}

/// A credential provider that exits with success and prints what is no
/// well-formed UTF-8 has given no password: the request is answered with
/// the failure of the provider, and no login follows.
pub proof fn law_unreadable_password_is_answered(
    config: ConfigView,
    pipeline: Pipeline,
    provided: CommandResultView,
)
    requires
        pipeline.stage == Stage::Waiting(Waiting::FetchingPassword),
        provided.success,
        !valid_utf8(provided.stdout),
    ensures
        advance(config, pipeline, Outcome::Exited(provided)) == Some(
            fail(pipeline, 0, internal_error("aws ecr get-login-password: failed"@)),
        ),
{
}

/// A pull that exits with failure and writes what is no well-formed UTF-8
/// to its standard error is answered like every failed pull, with a
/// diagnostic that holds nothing of what it wrote.
pub proof fn law_unreadable_pull_error_is_answered(
    config: ConfigView,
    pipeline: Pipeline,
    pull: CommandResultView,
)
    requires
        pipeline.stage == Stage::Waiting(Waiting::Pulling),
        !pull.success,
        !valid_utf8(pull.stderr),
    ensures
        advance(config, pipeline, Outcome::Exited(pull)) == Some(
            fail(pipeline, 0, internal_error("docker pull: failed -> "@)),
        ),
{
    assert("docker pull: failed -> "@ + error_text(pull.stderr) =~= "docker pull: failed -> "@);
}

} // verus!
