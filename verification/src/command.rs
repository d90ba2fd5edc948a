use vstd::prelude::*;
use vstd::utf8::*;

verus! {

/// The texts held by a sequence of strings, in order.
pub open spec fn texts(strings: Seq<String>) -> Seq<Seq<char>> {
    Seq::new(strings.len(), |i: int| strings[i]@)
}

/// An external program to start, with its arguments in order.
#[derive(Clone, Debug, PartialEq, Eq)]
pub struct Invocation {
    pub program: String,
    pub args: Vec<String>,
}

/// The mathematical content of an [`Invocation`].
pub struct InvocationView {
    pub program: Seq<char>,
    pub args: Seq<Seq<char>>,
}

impl View for Invocation {
    type V = InvocationView;

    open spec fn view(&self) -> InvocationView {
        InvocationView { program: self.program@, args: texts(self.args@) }
    }
}

/// What a program that ran to completion left behind: whether it exited
/// with success, and the bytes it wrote to its two output streams.
#[derive(Clone, Debug, PartialEq, Eq)]
pub struct CommandResult {
    pub success: bool,
    pub stdout: Vec<u8>,
    pub stderr: Vec<u8>,
}

/// The mathematical content of a [`CommandResult`].
pub struct CommandResultView {
    pub success: bool,
    pub stdout: Seq<u8>,
    pub stderr: Seq<u8>,
}

impl View for CommandResult {
    type V = CommandResultView;

    open spec fn view(&self) -> CommandResultView {
        CommandResultView { success: self.success, stdout: self.stdout@, stderr: self.stderr@ }
    }
}

/// The mathematical content of what came back from a program that was run
/// to completion: nothing where it could not be started.
pub open spec fn result_view(result: Option<CommandResult>) -> Option<CommandResultView> {
    match result {
        Some(r) => Some(r@),
        None => None,
    }
}

/// What is known of an [`Invocation`] after it was carried out.
pub enum Outcome {
    /// The program could not be started.
    NotStarted,
    /// The program was started, waited for, and has exited.
    Exited(CommandResultView),
    /// The program was started and left running.
    Detached,
}

/// The outcome of a program that was to run to completion, from what came
/// back of it: nothing where it could not be started.
pub open spec fn completed(result: Option<CommandResultView>) -> Outcome {
    match result {
        Some(r) => Outcome::Exited(r),
        None => Outcome::NotStarted,
    }
}

/// The outcome of a program that was to be left running, from whether it
/// started.
pub open spec fn left_running(started: bool) -> Outcome {
    if started {
        Outcome::Detached
    } else {
        Outcome::NotStarted
    }
}

/// Reads bytes as text with `std::str::from_utf8`. The text is returned
/// exactly when the bytes are well-formed UTF-8, and it is then the sequence
/// of characters that the bytes encode.
#[verifier::external_body]
pub(crate) fn utf8_text(bytes: &[u8]) -> (text: Option<&str>)
    ensures
        text is Some <==> valid_utf8(bytes@),
        text matches Some(t) ==> t@ == decode_utf8(bytes@),
{
    std::str::from_utf8(bytes).ok()
}

} // verus!
