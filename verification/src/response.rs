use vstd::prelude::*;

verus! {

/// The HTTP status under which a failed request is answered.
#[derive(Clone, Copy, Debug, PartialEq, Eq, Structural)]
pub enum Status {
    NotFound,
    InternalServerError,
}

impl Status {
    /// The numeric status code.
    pub open spec fn spec_code(self) -> u16 {
        match self {
            Status::NotFound => 404,
            Status::InternalServerError => 500,
        }
    }

    #[verifier::when_used_as_spec(spec_code)]
    pub fn code(self) -> (code: u16)
        ensures
            code == self.spec_code(),
    {
        match self {
            Status::NotFound => 404,
            Status::InternalServerError => 500,
        }
    }
}

/// A request that ended in an error: the status to answer with and a
/// diagnostic for the operator.
#[derive(Clone, Debug, PartialEq, Eq)]
pub struct Failure {
    pub status: Status,
    pub message: String,
}

/// The mathematical content of a [`Failure`].
pub struct FailureView {
    pub status: Status,
    pub message: Seq<char>,
}

impl View for Failure {
    type V = FailureView;

    open spec fn view(&self) -> FailureView {
        FailureView { status: self.status, message: self.message@ }
    }
}

/// The failure with status 404 and the given diagnostic.
pub open spec fn not_found(message: Seq<char>) -> FailureView {
    FailureView { status: Status::NotFound, message }
}

/// The failure with status 500 and the given diagnostic.
pub open spec fn internal_error(message: Seq<char>) -> FailureView {
    FailureView { status: Status::InternalServerError, message }
}

impl Failure {
    pub fn not_found(message: &str) -> (failure: Failure)
        ensures
            failure@ == not_found(message@),
    {
        Failure { status: Status::NotFound, message: message.to_owned() }
    }

    pub fn internal_error(message: String) -> (failure: Failure)
        ensures
            failure@ == internal_error(message@),
    {
        Failure { status: Status::InternalServerError, message }
    }
}

/// What a request is answered with: the body of a successful response, or a
/// failure.
pub type Response = Result<String, Failure>;

/// The mathematical content of a [`Response`].
pub open spec fn response_view(response: Response) -> Result<Seq<char>, FailureView> {
    match response {
        Ok(body) => Ok(body@),
        Err(failure) => Err(failure@),
    }
}

/// The mathematical content of the result of a step that yields nothing but
/// its success.
pub open spec fn done_view(done: Result<(), Failure>) -> Result<(), FailureView> {
    match done {
        Ok(_) => Ok(()),
        Err(failure) => Err(failure@),
    }
}

} // verus!
