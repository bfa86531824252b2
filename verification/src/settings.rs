//! What a run goes by: the options on its command line and its environment.
use crate::paths::{Places, PlacesModel};
use crate::state::{State, StateModel};
use crate::style::{paint, paint_strong, painted, strong, Style};
use crate::text::{
    join, joined, keep_nonblank, lowercase, lowered, nonblank, owned, pieces, same, slices, split,
    text_of, texts, trim, trimmed,
};
use vstd::prelude::*;

verus! {

/// The options on the command line.
#[derive(Debug, Clone, PartialEq, Eq)]
pub struct Options {
    /// Skip the login to container registries.
    pub no_ecr: bool,
    /// The registries to log in to, by host name or account.
    pub registries: Vec<String>,
    /// Say nothing of progress and success.
    pub quiet: bool,
    /// Print JSON.
    pub json: bool,
    /// Show commands, and failures in detail.
    pub verbose: bool,
}

pub struct OptionsModel {
    pub no_ecr: bool,
    pub registries: Seq<Seq<char>>,
    pub quiet: bool,
    pub json: bool,
    pub verbose: bool,
}

impl View for Options {
    type V = OptionsModel;

    open spec fn view(&self) -> OptionsModel {
        OptionsModel {
            no_ecr: self.no_ecr,
            registries: texts(self.registries@),
            quiet: self.quiet,
            json: self.json,
            verbose: self.verbose,
        }
    }
}

impl Default for Options {
    fn default() -> (result: Self)
        ensures
            result@ == (OptionsModel {
                no_ecr: false,
                registries: Seq::empty(),
                quiet: false,
                json: false,
                verbose: false,
            }),
    {
        let result = Options {
            no_ecr: false,
            registries: Vec::new(),
            quiet: false,
            json: false,
            verbose: false,
        };
        assert(result@.registries =~= Seq::empty());
        result
    }
}

/// What a run finds around it.
#[derive(Debug, Clone, PartialEq, Eq)]
pub struct Environment {
    /// The value of `AWS_PROFILE`.
    pub aws_profile: Option<String>,
    /// The value of `AWSWAP_NO_ECR`.
    pub no_ecr: Option<String>,
    /// The value of `AWSWAP_ECR_REGISTRIES`.
    pub ecr_registries: Option<String>,
    /// The value of `SHELL`.
    pub shell: Option<String>,
    /// The shell hook is installed.
    pub shell_hook: bool,
    /// Text may be coloured.
    pub color: bool,
    /// The standard streams that are terminals.
    pub input_terminal: bool,
    pub output_terminal: bool,
    pub error_terminal: bool,
    /// The programs that are installed.
    pub aws: bool,
    pub docker: bool,
    pub helm: bool,
    pub credential_helper: bool,
    /// The variables for static credentials that are set.
    pub access_key_id: bool,
    pub secret_access_key: bool,
    pub session_token: bool,
    pub security_token: bool,
    /// The AWS configuration is there.
    pub aws_config: bool,
    pub places: Places,
    /// The number of the process.
    pub process: u32,
}

pub struct EnvironmentModel {
    pub aws_profile: Option<Seq<char>>,
    pub no_ecr: Option<Seq<char>>,
    pub ecr_registries: Option<Seq<char>>,
    pub shell: Option<Seq<char>>,
    pub shell_hook: bool,
    pub color: bool,
    pub input_terminal: bool,
    pub output_terminal: bool,
    pub error_terminal: bool,
    pub aws: bool,
    pub docker: bool,
    pub helm: bool,
    pub credential_helper: bool,
    pub access_key_id: bool,
    pub secret_access_key: bool,
    pub session_token: bool,
    pub security_token: bool,
    pub aws_config: bool,
    pub places: PlacesModel,
    pub process: u32,
}

impl View for Environment {
    type V = EnvironmentModel;

    open spec fn view(&self) -> EnvironmentModel {
        EnvironmentModel {
            aws_profile: text_of(self.aws_profile),
            no_ecr: text_of(self.no_ecr),
            ecr_registries: text_of(self.ecr_registries),
            shell: text_of(self.shell),
            shell_hook: self.shell_hook,
            color: self.color,
            input_terminal: self.input_terminal,
            output_terminal: self.output_terminal,
            error_terminal: self.error_terminal,
            aws: self.aws,
            docker: self.docker,
            helm: self.helm,
            credential_helper: self.credential_helper,
            access_key_id: self.access_key_id,
            secret_access_key: self.secret_access_key,
            session_token: self.session_token,
            security_token: self.security_token,
            aws_config: self.aws_config,
            places: self.places@,
            process: self.process,
        }
    }
}

impl Default for Environment {
    fn default() -> (result: Self)
        ensures
            result@.aws_profile is None,
            result@.no_ecr is None,
            result@.ecr_registries is None,
            result@.shell is None,
            !result.shell_hook && !result.color,
            !result.input_terminal && !result.output_terminal && !result.error_terminal,
            !result.aws && !result.docker && !result.helm && !result.credential_helper,
            !result.access_key_id && !result.secret_access_key,
            !result.session_token && !result.security_token,
            !result.aws_config,
            result@.places.platform is Unix,
            result@.places.home is None && result@.places.awswap_home is None,
            result@.places.xdg_state_home is None && result@.places.aws_config_file is None,
            result@.places.aws_shared_credentials_file is None,
            result@.places.docker_config is None && result@.places.helm_registry_config is None,
            result.process == 0,
    {
        Environment {
            aws_profile: None,
            no_ecr: None,
            ecr_registries: None,
            shell: None,
            shell_hook: false,
            color: false,
            input_terminal: false,
            output_terminal: false,
            error_terminal: false,
            aws: false,
            docker: false,
            helm: false,
            credential_helper: false,
            access_key_id: false,
            secret_access_key: false,
            session_token: false,
            security_token: false,
            aws_config: false,
            places: Places::default(),
            process: 0,
        }
    }
}

/// A line that is printed: as output, as a message beside it, or as output that
/// brings its own line feeds.
#[derive(Debug, Clone, PartialEq, Eq)]
pub enum Line {
    Out(String),
    Note(String),
    Script(String),
}

pub enum LineModel {
    Out(Seq<char>),
    Note(Seq<char>),
    Script(Seq<char>),
}

impl View for Line {
    type V = LineModel;

    open spec fn view(&self) -> LineModel {
        match self {
            Line::Out(text) => LineModel::Out(text@),
            Line::Note(text) => LineModel::Note(text@),
            Line::Script(text) => LineModel::Script(text@),
        }
    }
}

/// The lines of a list.
pub open spec fn lines_in(lines: Seq<Line>) -> Seq<LineModel> {
    lines.map_values(|line: Line| line@)
}

/// The note that something is going on, for a terminal or for a user who asked
/// to see more.
pub open spec fn progress_line(
    options: OptionsModel,
    environment: EnvironmentModel,
    message: Seq<char>,
) -> Seq<LineModel> {
    if !options.quiet && !options.json && (environment.error_terminal || options.verbose) {
        seq![LineModel::Note(strong(Style::Cyan, "…"@, environment.color) + " "@ + message)]
    } else {
        Seq::empty()
    }
}

/// The note that a command is run, for a user who asked to see more.
pub open spec fn trace_line(
    options: OptionsModel,
    environment: EnvironmentModel,
    command: Seq<char>,
    args: Seq<Seq<char>>,
) -> Seq<LineModel> {
    if options.verbose {
        seq![
            LineModel::Note(
                painted(Style::Dim, "+"@, environment.color) + " "@ + command + " "@ + painted(
                    Style::Dim,
                    joined(args, " "@),
                    environment.color,
                ),
            ),
        ]
    } else {
        Seq::empty()
    }
}

/// One line, in a list.
pub fn one_line(line: Line) -> (result: Vec<Line>)
    ensures
        lines_in(result@) == seq![line@],
{
    let mut result: Vec<Line> = Vec::new();
    result.push(line);
    assert(lines_in(result@) =~= seq![line@]);
    result
}

/// No line.
pub fn no_line() -> (result: Vec<Line>)
    ensures
        lines_in(result@) == Seq::<LineModel>::empty(),
{
    let result: Vec<Line> = Vec::new();
    assert(lines_in(result@) =~= Seq::empty());
    result
}

impl Options {
    /// The note that something is going on.
    pub fn progress(&self, message: &str, environment: &Environment) -> (result: Vec<Line>)
        ensures
            lines_in(result@) == progress_line(self@, environment@, message@),
    {
        if !self.quiet && !self.json && (environment.error_terminal || self.verbose) {
            let mut line = paint_strong(Style::Cyan, "…", environment.color);
            line.append(" ");
            line.append(message);
            one_line(Line::Note(line))
        } else {
            no_line()
        }
    }

    /// The note that a command is run.
    pub fn trace(&self, command: &str, args: &[&str], environment: &Environment) -> (result: Vec<Line>)
        ensures
            lines_in(result@) == trace_line(self@, environment@, command@, slices(args@)),
    {
        if self.verbose {
            let list = owned(args);
            let shown = join(list.as_slice(), " ");
            let painted_args = paint(Style::Dim, shown.as_str(), environment.color);
            let mut line = paint(Style::Dim, "+", environment.color);
            line.append(" ");
            line.append(command);
            line.append(" ");
            line.append(painted_args.as_str());
            one_line(Line::Note(line))
        } else {
            no_line()
        }
    }
}

/// The value of a variable switches something on.
pub open spec fn is_on(value: Option<Seq<char>>) -> bool {
    match value {
        Some(value) => {
            let word = lowered(trimmed(value));
            word != ""@ && word != "0"@ && word != "false"@ && word != "no"@
        },
        None => false,
    }
}

/// The value of a variable switches something on.
pub fn env_flag(value: &Option<String>) -> (result: bool)
    ensures
        result == is_on(text_of(*value)),
{
    match value {
        Some(value) => {
            let word = lowercase(trim(value.as_str()));
            !same(word.as_str(), "") && !same(word.as_str(), "0") && !same(word.as_str(), "false")
                && !same(word.as_str(), "no")
        },
        None => false,
    }
}

/// The login to container registries is wanted.
pub open spec fn wants_ecr(options: OptionsModel, environment: EnvironmentModel) -> bool {
    !options.no_ecr && !is_on(environment.no_ecr)
}

/// The login to container registries is called for, and wanted.
pub fn should_authenticate_ecr(
    authenticate_ecr: bool,
    options: &Options,
    environment: &Environment,
) -> (result: bool)
    ensures
        result == (authenticate_ecr && wants_ecr(options@, environment@)),
{
    authenticate_ecr && !options.no_ecr && !env_flag(&environment.no_ecr)
}

/// The user is to be told of the shell hook.
pub open spec fn wants_tip(options: OptionsModel, environment: EnvironmentModel) -> bool {
    !environment.shell_hook && !options.quiet && !options.json && environment.output_terminal
}

/// The user is to be told of the shell hook.
pub fn should_print_shell_tip(options: &Options, environment: &Environment) -> (result: bool)
    ensures
        result == wants_tip(options@, environment@),
{
    !environment.shell_hook && !options.quiet && !options.json && environment.output_terminal
}

/// The registries that the command line names, or else the environment, with
/// commas between them.
pub open spec fn named_registries(
    options: OptionsModel,
    environment: EnvironmentModel,
) -> Seq<Seq<char>> {
    if options.registries.len() == 0 {
        match environment.ecr_registries {
            Some(raw) => nonblank(pieces(raw, ',')),
            None => Seq::empty(),
        }
    } else {
        options.registries
    }
}

/// The registries that the command line names, or else the environment.
pub fn configured_ecr_registries(options: &Options, environment: &Environment) -> (result: Vec<String>)
    ensures
        texts(result@) == named_registries(options@, environment@),
{
    if options.registries.len() == 0 {
        match &environment.ecr_registries {
            Some(raw) => {
                let parts = split(raw.as_str(), ',');
                keep_nonblank(parts.as_slice())
            },
            None => {
                let result: Vec<String> = Vec::new();
                assert(texts(result@) =~= Seq::empty());
                result
            },
        }
    } else {
        let result = options.registries.clone();
        assert(texts(result@) =~= texts(options.registries@));
        result
    }
}

/// The profile in effect: the one that the environment names, or else the one
/// that is remembered.
pub open spec fn profile_in_effect(
    environment: EnvironmentModel,
    state: StateModel,
) -> Option<Seq<char>> {
    match environment.aws_profile {
        Some(profile) => if trimmed(profile).len() > 0 {
            Some(profile)
        } else {
            state.current
        },
        None => state.current,
    }
}

/// The profile in effect.
pub fn effective_profile(environment: &Environment, state: &State) -> (result: Option<String>)
    ensures
        text_of(result) == profile_in_effect(environment@, state@),
{
    match &environment.aws_profile {
        Some(profile) => {
            if !trim(profile.as_str()).is_empty() {
                return Some(profile.clone());
            }
        },
        None => {},
    }
    match &state.current {
        Some(current) => Some(current.clone()),
        None => None,
    }
}

} // verus!
