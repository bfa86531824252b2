//! The command line: what a run is asked to do.
use crate::command::verdict;
use crate::flow::{
    begun, current, discovering, doctor, list_profiles, loading, login, status, switch,
    switch_previous,
};
use crate::session::{finished, fresh, saying, Session, SessionModel, TaskModel};
use crate::settings::{
    one_line, Environment, EnvironmentModel, Line, LineModel, Options, OptionsModel,
};
use crate::shell::{completions_of, hook_of, print_completions, print_shell_hook, Shell};
use crate::text::{same, text_of};
use crate::waiting::{consistent, law_begins_consistent};
use vstd::prelude::*;

verus! {

/// The version of the program.
pub const VERSION: &'static str = "0.1.0";

/// A command line: options, and a profile to switch to or a command.
#[derive(Debug, PartialEq, Eq)]
pub struct Cli {
    pub options: Options,
    pub profile: Option<String>,
    pub command: Option<CliCommand>,
}

pub struct CliModel {
    pub options: OptionsModel,
    pub profile: Option<Seq<char>>,
    pub command: Option<CommandModel>,
}

/// A command.
#[derive(Debug, PartialEq, Eq)]
pub enum CliCommand {
    Current,
    List,
    Status { profile: Option<String> },
    Doctor { profile: Option<String> },
    Login { profile: Option<String> },
    Init { shell: Shell },
    Completions { shell: Shell },
    Version,
}

pub enum CommandModel {
    Current,
    List,
    Status(Option<Seq<char>>),
    Doctor(Option<Seq<char>>),
    Login(Option<Seq<char>>),
    Init(Shell),
    Completions(Shell),
    Version,
}

impl View for CliCommand {
    type V = CommandModel;

    open spec fn view(&self) -> CommandModel {
        match self {
            CliCommand::Current => CommandModel::Current,
            CliCommand::List => CommandModel::List,
            CliCommand::Status { profile } => CommandModel::Status(text_of(*profile)),
            CliCommand::Doctor { profile } => CommandModel::Doctor(text_of(*profile)),
            CliCommand::Login { profile } => CommandModel::Login(text_of(*profile)),
            CliCommand::Init { shell } => CommandModel::Init(*shell),
            CliCommand::Completions { shell } => CommandModel::Completions(*shell),
            CliCommand::Version => CommandModel::Version,
        }
    }
}

/// A command that may be missing.
pub open spec fn command_given(command: Option<CliCommand>) -> Option<CommandModel> {
    match command {
        Some(command) => Some(command@),
        None => None,
    }
}

impl View for Cli {
    type V = CliModel;

    open spec fn view(&self) -> CliModel {
        CliModel {
            options: self.options@,
            profile: text_of(self.profile),
            command: command_given(self.command),
        }
    }
}

/// A profile and a command are not both given, or the message that they are.
pub open spec fn unmixed(profile: Option<Seq<char>>, command: Option<CommandModel>) -> Result<
    (),
    Seq<char>,
> {
    if profile is Some && command is Some {
        Err("a profile cannot be used with a command"@)
    } else {
        Ok(())
    }
}

/// Refuses a profile together with a command.
pub fn reject_mixed_action(profile: &Option<String>, command: &Option<CliCommand>) -> (result: Result<
    (),
    String,
>)
    ensures
        verdict(result) == unmixed(text_of(*profile), command_given(*command)),
{
    match profile {
        Some(_) => match command {
            Some(_) => {
                return Err("a profile cannot be used with a command".to_owned());
            },
            None => {},
        },
        None => {},
    }
    Ok(())
}

/// A run that prints a text, and is over.
pub open spec fn printed(session: SessionModel, line: LineModel) -> SessionModel {
    finished(saying(session, seq![line]), Ok(()))
}

/// A run that carries a command out.
pub open spec fn commanded(session: SessionModel, command: CommandModel) -> SessionModel {
    match command {
        CommandModel::Current => loading(SessionModel { task: TaskModel::Current, ..session }),
        CommandModel::List => discovering(SessionModel { task: TaskModel::List, ..session }),
        CommandModel::Status(profile) => begun(
            SessionModel { task: TaskModel::Status(profile), ..session },
        ),
        CommandModel::Doctor(profile) => discovering(
            SessionModel { task: TaskModel::Doctor(profile), ..session },
        ),
        CommandModel::Login(profile) => begun(
            SessionModel { task: TaskModel::Login(profile), ..session },
        ),
        CommandModel::Init(shell) => printed(session, LineModel::Script(hook_of(shell))),
        CommandModel::Completions(shell) => printed(
            session,
            LineModel::Script(completions_of(shell)),
        ),
        CommandModel::Version => printed(session, LineModel::Out("awswap "@ + VERSION@)),
    }
}

/// A run that switches: to the previous profile by a dash, to another by its
/// name, or to one that the user chooses.
pub open spec fn switching(session: SessionModel, profile: Option<Seq<char>>) -> SessionModel {
    if profile == Some("-"@) {
        begun(SessionModel { task: TaskModel::Previous, ..session })
    } else {
        begun(SessionModel { task: TaskModel::Switch(profile), ..session })
    }
}

/// A run by a command line.
pub open spec fn asked(cli: CliModel, environment: EnvironmentModel) -> SessionModel {
    let session = fresh(cli.options, environment);
    match unmixed(cli.profile, cli.command) {
        Err(message) => finished(session, Err(message)),
        Ok(_) => match cli.command {
            Some(command) => commanded(session, command),
            None => switching(session, cli.profile),
        },
    }
}

fn print_and_finish(session: &mut Session, line: Line)
    ensures
        final(session)@ == printed(old(session)@, line@),
{
    session.say(one_line(line));
    session.finish(Ok(()));
}

/// Carries a command out that only prints a text.
pub fn run_command_output(session: &mut Session, command: CliCommand)
    requires
        command is Completions || command is Version,
    ensures
        final(session)@ == commanded(old(session)@, command@),
{
    match command {
        CliCommand::Completions { shell } => {
            print_and_finish(session, Line::Script(print_completions(shell).to_owned()));
        },
        CliCommand::Version => {
            let mut text = "awswap ".to_owned();
            text.append(VERSION);
            print_and_finish(session, Line::Out(text));
        },
        _ => {},
    }
}

/// Carries a command out that is none of the three most used.
pub fn run_command_secondary(session: &mut Session, command: CliCommand)
    requires
        !(command is Current || command is List || command is Status),
    ensures
        final(session)@ == commanded(old(session)@, command@),
{
    match command {
        CliCommand::Doctor { profile } => doctor(session, profile),
        CliCommand::Login { profile } => login(session, profile),
        CliCommand::Init { shell } => {
            print_and_finish(session, Line::Script(print_shell_hook(shell).to_owned()));
        },
        other => run_command_output(session, other),
    }
}

/// Carries a command out.
pub fn run_command(session: &mut Session, command: CliCommand)
    ensures
        final(session)@ == commanded(old(session)@, command@),
{
    match command {
        CliCommand::Current => current(session),
        CliCommand::List => list_profiles(session),
        CliCommand::Status { profile } => status(session, profile),
        other => run_command_secondary(session, other),
    }
}

/// Switches to a profile.
pub fn run_switch(session: &mut Session, profile: Option<String>)
    ensures
        final(session)@ == switching(old(session)@, text_of(profile)),
{
    let back = match &profile {
        Some(profile) => same(profile.as_str(), "-"),
        None => false,
    };
    if back {
        switch_previous(session);
    } else {
        switch(session, profile);
    }
}

/// Begins a run by a command line.
pub fn run(cli: Cli, environment: Environment) -> (result: Session)
    ensures
        result@ == asked(cli@, environment@),
{
    let refusal = reject_mixed_action(&cli.profile, &cli.command);
    let mut session = Session::new(cli.options, environment);
    match refusal {
        Err(message) => {
            session.finish(Err(message));
        },
        Ok(_) => match cli.command {
            Some(command) => {
                run_command(&mut session, command);
            },
            None => {
                run_switch(&mut session, cli.profile);
            },
        },
    }
    session
}

/// Every run begins by waiting for what its task can lead to.
pub proof fn law_run_begins(cli: CliModel, environment: EnvironmentModel)
    ensures
        consistent(asked(cli, environment)),
{
    let session = fresh(cli.options, environment);
    law_begins_consistent(SessionModel { task: TaskModel::Current, ..session });
    law_begins_consistent(SessionModel { task: TaskModel::List, ..session });
    law_begins_consistent(SessionModel { task: TaskModel::Previous, ..session });
    law_begins_consistent(SessionModel { task: TaskModel::Switch(cli.profile), ..session });
    match cli.command {
        Some(CommandModel::Status(profile)) => law_begins_consistent(
            SessionModel { task: TaskModel::Status(profile), ..session },
        ),
        Some(CommandModel::Doctor(profile)) => law_begins_consistent(
            SessionModel { task: TaskModel::Doctor(profile), ..session },
        ),
        Some(CommandModel::Login(profile)) => law_begins_consistent(
            SessionModel { task: TaskModel::Login(profile), ..session },
        ),
        _ => {},
    }
}

} // verus!
