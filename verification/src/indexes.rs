use crate::config::{image_reference, Config, ConfigView};
use crate::docker_command::{docker_image_inspect_command, inspect_invocation};
use crate::pipeline::{
    fail, Action, Ended, Pipeline, Reply, Request, Run, Stage, Step, StepView, Waiting,
};
use crate::utils::{get_subdomain, is_allowed_characters, subdomain_outcome, tag_of};
use vstd::prelude::*;

verus! {

/// The Host header of a request that is eligible for container activation.
#[derive(Clone, Debug, PartialEq, Eq)]
pub struct HostHeader(pub String);

impl HostHeader {
    /// Guards the activation route: lets a request pass exactly when it
    /// carries a Host header that selects a tag, and keeps the header as it
    /// was sent.
    pub fn from_request(host: Option<&str>) -> (guard: Option<HostHeader>)
        ensures
            match guard {
                Some(header) => {
                    &&& host matches Some(text)
                    &&& header.0@ == text@
                    &&& tag_of(text@) is Some
                },
                None => host matches Some(text) ==> tag_of(text@) is None,
            },
    {
        match host {
            Some(text) => match get_subdomain(text.to_owned()) {
                Ok(subdomain) => {
                    if !subdomain.as_str().is_empty() && is_allowed_characters(subdomain) {
                        Some(HostHeader(text.to_owned()))
                    } else {
                        None
                    }
                },
                Err(_) => None,
            },
            None => None,
        }
    }
}

/// The body that answers a request whose host selects no tag.
pub open spec fn fallback_body() -> Seq<char> {
    "Could you please specify a docker tag."@
}

/// Answers a request whose host selects no tag.
pub fn index() -> (body: &'static str)
    ensures
        body@ == fallback_body(),
{
    "Could you please specify a docker tag."
}

/// The pipeline of the request for `host` at `stage`, with the tag and the
/// image that it has.
pub open spec fn request(
    stage: Stage,
    host: Seq<char>,
    tag: Seq<char>,
    image: Seq<char>,
) -> Pipeline {
    Pipeline { stage, host, tag, image }
}

/// The first step of the handling of a request that passed the guard: the
/// local lookup of the image that the subdomain of `host` selects. A host
/// without a subdomain is answered at once, and nothing is run for it.
pub open spec fn begin(config: ConfigView, host: Seq<char>) -> StepView {
    match subdomain_outcome(host) {
        Err(failure) => fail(
            request(Stage::Ended(Ended::Failed), host, Seq::empty(), Seq::empty()),
            0,
            failure,
        ),
        Ok(tag) => StepView {
            pipeline: request(
                Stage::Waiting(Waiting::Inspecting),
                host,
                tag,
                image_reference(config, tag),
            ),
            action: Action::Run(inspect_invocation(image_reference(config, tag))),
        },
    }
}

/// The step that hands a request to the fallback.
pub open spec fn forward(host: Seq<char>) -> StepView {
    StepView {
        pipeline: request(Stage::Ended(Ended::Forwarded), host, Seq::empty(), Seq::empty()),
        action: Action::Reply { wait_secs: 0, response: Ok(fallback_body()) },
    }
}

/// The first step of the handling of any request, from its Host header if
/// it has one: a host that selects a tag enters the pipeline, every other
/// request is handed to the fallback. A host without a dot selects no tag.
pub open spec fn handle(config: ConfigView, host: Option<Seq<char>>) -> StepView {
    match host {
        Some(text) => if tag_of(text) is Some {
            begin(config, text)
        } else {
            forward(text)
        },
        None => forward(Seq::empty()),
    }
}

/// Begins the handling of a request that passed the guard. The caller
/// carries out each step and reports what came of it, to [`Run::finished`]
/// or to [`Spawn::started`], until the step is a reply.
pub fn index_with_host_header(config: &Config, host: HostHeader) -> (step: Step)
    ensures
        step@ == begin(config@, host.0@),
{
    match get_subdomain(host.0.clone()) {
        Err(failure) => Step::Reply(
            Reply {
                stage: Ended::Failed,
                request: Request { host: host.0, tag: String::new(), image: String::new() },
                wait_secs: 0,
                response: Err(failure),
            },
        ),
        Ok(tag) => {
            let image = config.image_reference(tag.as_str());
            let command = docker_image_inspect_command(&image);
            Step::Run(
                Run {
                    stage: Waiting::Inspecting,
                    request: Request { host: host.0, tag, image },
                    command,
                },
            )
        },
    }
}

/// Begins the handling of any request, from its Host header if it has one.
pub fn handle_request(config: &Config, host: Option<&str>) -> (step: Step)
    ensures
        step@ == handle(config@, match host {
            Some(text) => Some(text@),
            None => None,
        }),
{
    match HostHeader::from_request(host) {
        Some(header) => index_with_host_header(config, header),
        None => {
            let text = match host {
                Some(text) => text.to_owned(),
                None => String::new(),
            };
            Step::Reply(
                Reply {
                    stage: Ended::Forwarded,
                    request: Request { host: text, tag: String::new(), image: String::new() },
                    wait_secs: 0,
                    response: Ok(index().to_owned()),
                },
            )
        },
    }
}

} // verus!
