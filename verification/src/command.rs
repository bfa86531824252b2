//! Other programs and files: what is asked of them, and what they answer.
use crate::text::{owned, slices, texts, trim, trimmed, unfold, unfolded};
use crate::utf8::{decode, lossy};
use vstd::prelude::*;

verus! {

/// What a program left behind: whether it succeeded, its exit status in words,
/// and what it printed.
#[derive(Debug, Clone, PartialEq, Eq)]
pub struct CommandOutput {
    pub success: bool,
    pub status: String,
    pub stdout: Vec<u8>,
    pub stderr: Vec<u8>,
}

pub struct OutputModel {
    pub success: bool,
    pub status: Seq<char>,
    pub stdout: Seq<u8>,
    pub stderr: Seq<u8>,
}

impl View for CommandOutput {
    type V = OutputModel;

    open spec fn view(&self) -> OutputModel {
        OutputModel {
            success: self.success,
            status: self.status@,
            stdout: self.stdout@,
            stderr: self.stderr@,
        }
    }
}

/// Why a program could not be run to its end: it did not start, its input
/// could not be opened or written, or it could not be waited for.
#[derive(Debug, Clone, PartialEq, Eq)]
pub enum RunFailure {
    Start(String),
    Input,
    Send(String),
    Wait(String),
}

pub enum FailureModel {
    Start(Seq<char>),
    Input,
    Send(Seq<char>),
    Wait(Seq<char>),
}

impl View for RunFailure {
    type V = FailureModel;

    open spec fn view(&self) -> FailureModel {
        match self {
            RunFailure::Start(error) => FailureModel::Start(error@),
            RunFailure::Input => FailureModel::Input,
            RunFailure::Send(error) => FailureModel::Send(error@),
            RunFailure::Wait(error) => FailureModel::Wait(error@),
        }
    }
}

/// A run as mathematical values.
pub open spec fn run_of(run: Result<CommandOutput, RunFailure>) -> Result<OutputModel, FailureModel> {
    match run {
        Ok(output) => Ok(output@),
        Err(failure) => Err(failure@),
    }
}

/// What reading a file gave.
#[derive(Debug, Clone, PartialEq, Eq)]
pub enum FileRead {
    Contents(String),
    Missing,
    Failed(String),
}

pub enum FileModel {
    Contents(Seq<char>),
    Missing,
    Failed(Seq<char>),
}

impl View for FileRead {
    type V = FileModel;

    open spec fn view(&self) -> FileModel {
        match self {
            FileRead::Contents(contents) => FileModel::Contents(contents@),
            FileRead::Missing => FileModel::Missing,
            FileRead::Failed(error) => FileModel::Failed(error@),
        }
    }
}

/// A text, or the message of what went wrong.
pub open spec fn outcome(result: Result<String, String>) -> Result<Seq<char>, Seq<char>> {
    match result {
        Ok(text) => Ok(text@),
        Err(message) => Err(message@),
    }
}

/// Success, or the message of what went wrong.
pub open spec fn verdict(result: Result<(), String>) -> Result<(), Seq<char>> {
    match result {
        Ok(_) => Ok(()),
        Err(message) => Err(message@),
    }
}

/// Which of a program's output is read: all of it, what it prints of errors
/// while the rest is thrown away, or none, the program writing to the terminal.
#[derive(Debug, Clone, Copy, PartialEq, Eq)]
pub enum Capture {
    Everything,
    Errors,
    Nothing,
}

/// A program to run: its arguments, the environment variables to set and to
/// remove, and what to send to its input.
#[derive(Debug, Clone, PartialEq, Eq)]
pub struct Invocation {
    pub program: String,
    pub args: Vec<String>,
    pub set: Vec<(String, String)>,
    pub unset: Vec<String>,
    pub input: Option<Vec<u8>>,
    pub capture: Capture,
}

pub struct InvocationModel {
    pub program: Seq<char>,
    pub args: Seq<Seq<char>>,
    pub set: Seq<(Seq<char>, Seq<char>)>,
    pub unset: Seq<Seq<char>>,
    pub input: Option<Seq<u8>>,
    pub capture: Capture,
}

pub open spec fn pairs(list: Seq<(String, String)>) -> Seq<(Seq<char>, Seq<char>)> {
    list.map_values(|pair: (String, String)| (pair.0@, pair.1@))
}

pub open spec fn bytes_of(bytes: Option<Vec<u8>>) -> Option<Seq<u8>> {
    match bytes {
        Some(bytes) => Some(bytes@),
        None => None,
    }
}

impl View for Invocation {
    type V = InvocationModel;

    open spec fn view(&self) -> InvocationModel {
        InvocationModel {
            program: self.program@,
            args: texts(self.args@),
            set: pairs(self.set@),
            unset: texts(self.unset@),
            input: bytes_of(self.input),
            capture: self.capture,
        }
    }
}

/// The variables through which static credentials override a profile.
pub open spec fn static_credentials() -> Seq<Seq<char>> {
    seq!["AWS_ACCESS_KEY_ID"@, "AWS_SECRET_ACCESS_KEY"@, "AWS_SESSION_TOKEN"@]
}

/// A plain run of a program, all of whose output is read.
pub open spec fn plain_run(program: Seq<char>, args: Seq<Seq<char>>) -> InvocationModel {
    InvocationModel {
        program,
        args,
        set: Seq::empty(),
        unset: Seq::empty(),
        input: None,
        capture: Capture::Everything,
    }
}

/// A call of the AWS CLI under a profile, free of static credentials and of a
/// pager.
pub open spec fn aws_run(profile: Seq<char>, args: Seq<Seq<char>>) -> InvocationModel {
    InvocationModel {
        program: "aws"@,
        args: args + seq!["--profile"@, profile],
        set: seq![("AWS_PAGER"@, ""@)],
        unset: static_credentials(),
        input: None,
        capture: Capture::Everything,
    }
}

/// A sign-in through the AWS CLI, which talks to the user itself.
pub open spec fn sign_in_run(profile: Seq<char>, args: Seq<Seq<char>>) -> InvocationModel {
    InvocationModel {
        program: "aws"@,
        args: args + seq!["--profile"@, profile],
        set: Seq::empty(),
        unset: static_credentials(),
        input: None,
        capture: Capture::Nothing,
    }
}

/// A plain run of a program, all of whose output is read.
pub fn plain(program: &str, args: &[&str]) -> (result: Invocation)
    ensures
        result@ == plain_run(program@, slices(args@)),
{
    let result = Invocation {
        program: program.to_owned(),
        args: owned(args),
        set: Vec::new(),
        unset: Vec::new(),
        input: None,
        capture: Capture::Everything,
    };
    assert(result@.set =~= Seq::empty());
    assert(result@.unset =~= Seq::empty());
    result
}

/// The names of the variables that override a profile.
fn static_names() -> (result: Vec<String>)
    ensures
        texts(result@) == static_credentials(),
{
    let names: [&str; 3] = ["AWS_ACCESS_KEY_ID", "AWS_SECRET_ACCESS_KEY", "AWS_SESSION_TOKEN"];
    let result = owned(names.as_slice());
    assert(slices(names@) =~= static_credentials());
    result
}

/// The arguments, and the profile they are meant for.
fn under_profile(profile: &str, args: &[&str]) -> (result: Vec<String>)
    ensures
        texts(result@) == slices(args@) + seq!["--profile"@, profile@],
{
    let mut result = owned(args);
    result.push("--profile".to_owned());
    result.push(profile.to_owned());
    assert(texts(result@) =~= slices(args@) + seq!["--profile"@, profile@]);
    result
}

/// A call of the AWS CLI under a profile.
pub fn aws(profile: &str, args: &[&str]) -> (result: Invocation)
    ensures
        result@ == aws_run(profile@, slices(args@)),
{
    let mut set: Vec<(String, String)> = Vec::new();
    set.push(("AWS_PAGER".to_owned(), "".to_owned()));
    let result = Invocation {
        program: "aws".to_owned(),
        args: under_profile(profile, args),
        set,
        unset: static_names(),
        input: None,
        capture: Capture::Everything,
    };
    assert(result@.set =~= seq![("AWS_PAGER"@, ""@)]);
    result
}

/// A sign-in through the AWS CLI.
pub fn sign_in(profile: &str, args: &[&str]) -> (result: Invocation)
    ensures
        result@ == sign_in_run(profile@, slices(args@)),
{
    let result = Invocation {
        program: "aws".to_owned(),
        args: under_profile(profile, args),
        set: Vec::new(),
        unset: static_names(),
        input: None,
        capture: Capture::Nothing,
    };
    assert(result@.set =~= Seq::empty());
    result
}

/// What there is to say of a program on one line: its errors, or, where it
/// printed none, its other output.
pub open spec fn detail_in(errors: Seq<char>, printed: Seq<char>) -> Seq<char> {
    if trimmed(errors).len() == 0 {
        unfolded(trimmed(printed))
    } else {
        unfolded(trimmed(errors))
    }
}

/// What a program says of its failure, on one line.
pub open spec fn detail_of(output: OutputModel) -> Seq<char> {
    detail_in(lossy(output.stderr), lossy(output.stdout))
}

/// The message of a failed program: what there is to say of it, or its status
/// where there is nothing.
pub open spec fn failure_message(
    context: Seq<char>,
    detail: Seq<char>,
    status: Seq<char>,
) -> Seq<char> {
    if detail.len() == 0 {
        context + " ("@ + status + ")"@
    } else {
        context + ": "@ + detail
    }
}

/// The message of a failed program.
pub open spec fn command_message(context: Seq<char>, output: OutputModel) -> Seq<char> {
    failure_message(context, detail_of(output), output.status)
}

/// What a program says of its failure, on one line.
pub fn output_detail(output: &CommandOutput) -> (result: String)
    ensures
        result@ == detail_of(output@),
{
    let stderr = decode(output.stderr.as_slice());
    let stdout = decode(output.stdout.as_slice());
    pick_detail(stderr.as_str(), stdout.as_str())
}

/// What there is to say of a program on one line.
pub fn pick_detail(errors: &str, printed: &str) -> (result: String)
    ensures
        result@ == detail_in(errors@, printed@),
{
    let trimmed_errors = trim(errors);
    if trimmed_errors.is_empty() {
        unfold(trim(printed))
    } else {
        unfold(trimmed_errors)
    }
}

/// The message of a failed program.
pub fn command_error(context: &str, output: &CommandOutput) -> (result: String)
    ensures
        result@ == command_message(context@, output@),
{
    let detail = output_detail(output);
    failure_text(context, detail.as_str(), output.status.as_str())
}

/// The message of a failed program, of which there is something to say or not.
pub fn failure_text(context: &str, detail: &str, status: &str) -> (result: String)
    ensures
        result@ == failure_message(context@, detail@, status@),
{
    let mut message = context.to_owned();
    if detail.is_empty() {
        message.append(" (");
        message.append(status);
        message.append(")");
    } else {
        message.append(": ");
        message.append(detail);
    }
    message
}

/// The message of a program that could not be run to its end, where `what` it
/// was to be sent has a name.
pub open spec fn run_message(program: Seq<char>, what: Seq<char>, failure: FailureModel) -> Seq<char> {
    match failure {
        FailureModel::Start(error) => "could not start "@ + program + ": "@ + error,
        FailureModel::Input => "could not open "@ + program + " input"@,
        FailureModel::Send(error) => "could not send "@ + what + " to "@ + program + ": "@ + error,
        FailureModel::Wait(error) => "could not wait for "@ + program + ": "@ + error,
    }
}

/// The message of a program that could not be run to its end.
pub fn run_error(program: &str, what: &str, failure: &RunFailure) -> (result: String)
    ensures
        result@ == run_message(program@, what@, failure@),
{
    match failure {
        RunFailure::Start(error) => {
            let mut message = "could not start ".to_owned();
            message.append(program);
            message.append(": ");
            message.append(error.as_str());
            message
        },
        RunFailure::Input => {
            let mut message = "could not open ".to_owned();
            message.append(program);
            message.append(" input");
            message
        },
        RunFailure::Send(error) => {
            let mut message = "could not send ".to_owned();
            message.append(what);
            message.append(" to ");
            message.append(program);
            message.append(": ");
            message.append(error.as_str());
            message
        },
        RunFailure::Wait(error) => {
            let mut message = "could not wait for ".to_owned();
            message.append(program);
            message.append(": ");
            message.append(error.as_str());
            message
        },
    }
}

/// The error of a failed run in the operating system's words, if it has any.
pub open spec fn run_cause(failure: FailureModel) -> Seq<char> {
    match failure {
        FailureModel::Start(error) => error,
        FailureModel::Input => ""@,
        FailureModel::Send(error) => error,
        FailureModel::Wait(error) => error,
    }
}

/// The error of a failed run in the operating system's words, if it has any.
pub fn cause(failure: &RunFailure) -> (result: &str)
    ensures
        result@ == run_cause(failure@),
{
    match failure {
        RunFailure::Start(error) => error.as_str(),
        RunFailure::Input => "",
        RunFailure::Send(error) => error.as_str(),
        RunFailure::Wait(error) => error.as_str(),
    }
}

/// What a run of the AWS CLI left behind, or the message that there was none.
pub open spec fn aws_ran(run: Result<OutputModel, FailureModel>) -> Result<OutputModel, Seq<char>> {
    match run {
        Ok(output) => Ok(output),
        Err(failure) => Err("could not run AWS CLI: "@ + run_cause(failure)),
    }
}

/// What a run of the AWS CLI left behind, or the message that there was none.
pub fn aws_output(run: &Result<CommandOutput, RunFailure>) -> (result: Result<&CommandOutput, String>)
    ensures
        aws_ran(run_of(*run)) == match result {
            Ok(output) => Ok::<OutputModel, Seq<char>>(output@),
            Err(message) => Err(message@),
        },
{
    match run {
        Ok(output) => Ok(output),
        Err(failure) => {
            let mut message = "could not run AWS CLI: ".to_owned();
            message.append(cause(failure));
            Err(message)
        },
    }
}

/// A program is there to be run, or the message that it is missing.
pub open spec fn missing_message(command: Seq<char>) -> Seq<char> {
    "'"@ + command + "' was not found in PATH"@
}

/// Refuses to go on without a program.
pub fn require_command(command: &str, found: bool) -> (result: Result<(), String>)
    ensures
        verdict(result) == if found {
            Ok(())
        } else {
            Err(missing_message(command@))
        },
{
    if found {
        Ok(())
    } else {
        let mut message = "'".to_owned();
        message.append(command);
        message.append("' was not found in PATH");
        Err(message)
    }
}

} // verus!
