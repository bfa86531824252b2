//! A run as a dialogue: it asks for one action at a time, is told how it came
//! out, and goes on.
use crate::choice::{Prompt, PromptModel, SelectionFailure, SelectionFailureModel};
use crate::command::{
    run_of, verdict, CommandOutput, FailureModel, FileModel, FileRead, Invocation, InvocationModel,
    OutputModel, RunFailure,
};
use crate::config::{empty_config, ConfigModel, ProfileConfig};
use crate::doctor::{no_diagnosis, DiagnosisModel, ProfileDiagnosis};
use crate::identity::{Identity, IdentityModel};
use crate::platform::copied;
use crate::registry::RegistryClient;
use crate::settings::{
    lines_in, Environment, EnvironmentModel, Line, LineModel, Options, OptionsModel,
};
use crate::state::{empty_state, Save, SaveFailure, SaveFailureModel, SaveModel, State, StateModel};
use crate::text::{text_of, texts};
use vstd::prelude::*;

verus! {

/// What a run is for.
#[derive(Debug, PartialEq, Eq)]
pub enum Task {
    Switch(Option<String>),
    Previous,
    Login(Option<String>),
    Status(Option<String>),
    Doctor(Option<String>),
    List,
    Current,
}

pub enum TaskModel {
    Switch(Option<Seq<char>>),
    Previous,
    Login(Option<Seq<char>>),
    Status(Option<Seq<char>>),
    Doctor(Option<Seq<char>>),
    List,
    Current,
}

impl View for Task {
    type V = TaskModel;

    open spec fn view(&self) -> TaskModel {
        match self {
            Task::Switch(profile) => TaskModel::Switch(text_of(*profile)),
            Task::Previous => TaskModel::Previous,
            Task::Login(profile) => TaskModel::Login(text_of(*profile)),
            Task::Status(profile) => TaskModel::Status(text_of(*profile)),
            Task::Doctor(profile) => TaskModel::Doctor(text_of(*profile)),
            Task::List => TaskModel::List,
            Task::Current => TaskModel::Current,
        }
    }
}

/// What a run waits for.
#[derive(Debug, Clone, Copy, PartialEq, Eq)]
pub enum Step {
    /// The profiles that the AWS CLI lists.
    Listing,
    /// The AWS configuration, to find profiles in it.
    ConfigScan,
    /// The AWS credentials, to find profiles in them.
    CredentialsScan,
    /// The state file.
    Loading,
    /// The AWS configuration, to describe the profiles that the user may choose.
    ChoiceConfig,
    /// The user's choice.
    Choosing,
    /// Who the caller is.
    Validating,
    /// The AWS configuration, to see how the profile signs in.
    SignInConfig,
    /// The sign-in.
    SigningIn,
    /// The state to be written.
    Saving,
    /// The AWS configuration, to see the region of the profile.
    RegionConfig,
    /// The account of the caller.
    Account,
    /// The password for the registries.
    Password,
    /// Helm's settings.
    HelmSettings,
    /// The configuration of a registry client.
    ClientConfig,
    /// The credential helper's answer.
    Helper,
    /// The login to a registry.
    FirstLogin,
    /// The logout from a registry that stood in the way of a login.
    Logout,
    /// The login to a registry after a logout.
    SecondLogin,
    /// The AWS configuration, to describe the profiles of a list.
    ListConfig,
    /// The AWS configuration, for a report on a profile.
    StatusConfig,
    /// The AWS configuration, for a diagnosis.
    DoctorConfig,
    /// The version of the AWS CLI.
    Version,
    /// Docker's configuration, for a diagnosis.
    DoctorHelper,
    /// Nothing: the run is over.
    Finished,
}

/// What a run asks for: to read a file, to run a program, to write the state, to
/// have the user choose, or to end.
#[derive(Debug, PartialEq, Eq)]
pub enum Action {
    Read(Vec<u8>),
    Run(Invocation),
    Save(Save),
    Ask(Prompt),
    Finish(Result<(), String>),
}

pub enum ActionModel {
    Read(Seq<u8>),
    Run(InvocationModel),
    Save(SaveModel),
    Ask(PromptModel),
    Finish(Result<(), Seq<char>>),
}

impl View for Action {
    type V = ActionModel;

    open spec fn view(&self) -> ActionModel {
        match self {
            Action::Read(path) => ActionModel::Read(path@),
            Action::Run(invocation) => ActionModel::Run(invocation@),
            Action::Save(save) => ActionModel::Save(save@),
            Action::Ask(prompt) => ActionModel::Ask(prompt@),
            Action::Finish(result) => ActionModel::Finish(verdict(*result)),
        }
    }
}

/// How an action came out. Of a choice, which of the profiles offered it was.
#[derive(Debug, PartialEq, Eq)]
pub enum Reply {
    File(FileRead),
    Ran(Result<CommandOutput, RunFailure>),
    Saved(Result<(), SaveFailure>),
    Chosen(Result<usize, SelectionFailure>),
}

pub enum ReplyModel {
    File(FileModel),
    Ran(Result<OutputModel, FailureModel>),
    Saved(Result<(), SaveFailureModel>),
    Chosen(Result<nat, SelectionFailureModel>),
}

impl View for Reply {
    type V = ReplyModel;

    open spec fn view(&self) -> ReplyModel {
        match self {
            Reply::File(read) => ReplyModel::File(read@),
            Reply::Ran(run) => ReplyModel::Ran(run_of(*run)),
            Reply::Saved(Ok(_)) => ReplyModel::Saved(Ok(())),
            Reply::Saved(Err(failure)) => ReplyModel::Saved(Err(failure@)),
            Reply::Chosen(Ok(index)) => ReplyModel::Chosen(Ok(*index as nat)),
            Reply::Chosen(Err(failure)) => ReplyModel::Chosen(Err(failure@)),
        }
    }
}

/// A run: what it goes by, what it waits for, what it has printed, and what it
/// has learnt so far.
#[derive(Debug)]
pub struct Session {
    pub options: Options,
    pub environment: Environment,
    pub task: Task,
    pub step: Step,
    pub action: Action,
    /// All that was printed so far.
    pub said: Vec<Line>,
    /// What the AWS CLI answered when asked for the profiles.
    pub listed: Option<CommandOutput>,
    /// The AWS configuration in which profiles were looked for.
    pub scanned: FileRead,
    pub profiles: Vec<String>,
    pub state: State,
    /// The profile that the run is about.
    pub profile: String,
    pub config: ProfileConfig,
    pub identity: Identity,
    /// Why the profile has to sign in.
    pub first_error: Option<String>,
    pub diagnosis: ProfileDiagnosis,
    pub version: Option<String>,
    pub registries: Vec<String>,
    pub clients: Vec<RegistryClient>,
    pub password: Vec<u8>,
    /// Which registry is the next to log in to, and by which client.
    pub registry: usize,
    pub client: usize,
    /// Why the login to the registry has to be tried once more.
    pub login_error: String,
    /// The logins that failed.
    pub failures: Vec<String>,
}

pub struct SessionModel {
    pub options: OptionsModel,
    pub environment: EnvironmentModel,
    pub task: TaskModel,
    pub step: Step,
    pub action: ActionModel,
    pub said: Seq<LineModel>,
    pub listed: Option<OutputModel>,
    pub scanned: FileModel,
    pub profiles: Seq<Seq<char>>,
    pub state: StateModel,
    pub profile: Seq<char>,
    pub config: ConfigModel,
    pub identity: IdentityModel,
    pub first_error: Option<Seq<char>>,
    pub diagnosis: DiagnosisModel,
    pub version: Option<Seq<char>>,
    pub registries: Seq<Seq<char>>,
    pub clients: Seq<RegistryClient>,
    pub password: Seq<u8>,
    pub registry: nat,
    pub client: nat,
    pub login_error: Seq<char>,
    pub failures: Seq<Seq<char>>,
}

/// What a program left behind, if it ran.
pub open spec fn output_of(output: Option<CommandOutput>) -> Option<OutputModel> {
    match output {
        Some(output) => Some(output@),
        None => None,
    }
}

impl View for Session {
    type V = SessionModel;

    open spec fn view(&self) -> SessionModel {
        SessionModel {
            options: self.options@,
            environment: self.environment@,
            task: self.task@,
            step: self.step,
            action: self.action@,
            said: lines_in(self.said@),
            listed: output_of(self.listed),
            scanned: self.scanned@,
            profiles: texts(self.profiles@),
            state: self.state@,
            profile: self.profile@,
            config: self.config@,
            identity: self.identity@,
            first_error: text_of(self.first_error),
            diagnosis: self.diagnosis@,
            version: text_of(self.version),
            registries: texts(self.registries@),
            clients: self.clients@,
            password: self.password@,
            registry: self.registry as nat,
            client: self.client as nat,
            login_error: self.login_error@,
            failures: texts(self.failures@),
        }
    }
}

/// A run that has not learnt anything yet.
pub open spec fn fresh(options: OptionsModel, environment: EnvironmentModel) -> SessionModel {
    SessionModel {
        options,
        environment,
        task: TaskModel::Current,
        step: Step::Finished,
        action: ActionModel::Finish(Ok(())),
        said: Seq::empty(),
        listed: None,
        scanned: FileModel::Missing,
        profiles: Seq::empty(),
        state: empty_state(),
        profile: Seq::empty(),
        config: empty_config(),
        identity: IdentityModel {
            account: Seq::empty(),
            arn: Seq::empty(),
            user_id: Seq::empty(),
        },
        first_error: None,
        diagnosis: no_diagnosis(),
        version: None,
        registries: Seq::empty(),
        clients: Seq::empty(),
        password: Seq::empty(),
        registry: 0,
        client: 0,
        login_error: Seq::empty(),
        failures: Seq::empty(),
    }
}

/// A run that prints some lines.
pub open spec fn saying(session: SessionModel, lines: Seq<LineModel>) -> SessionModel {
    SessionModel { said: session.said + lines, ..session }
}

/// A run that waits for a file.
pub open spec fn reading(session: SessionModel, step: Step, path: Seq<u8>) -> SessionModel {
    SessionModel { step, action: ActionModel::Read(path), ..session }
}

/// A run that waits for a program.
pub open spec fn running(
    session: SessionModel,
    step: Step,
    invocation: InvocationModel,
) -> SessionModel {
    SessionModel { step, action: ActionModel::Run(invocation), ..session }
}

/// A run that is over.
pub open spec fn finished(session: SessionModel, result: Result<(), Seq<char>>) -> SessionModel {
    SessionModel { step: Step::Finished, action: ActionModel::Finish(result), ..session }
}

/// The file that a run waits for, if it waits for one.
pub open spec fn awaited(action: ActionModel) -> Seq<u8> {
    match action {
        ActionModel::Read(path) => path,
        _ => Seq::empty(),
    }
}

impl Session {
    /// A run that has not learnt anything yet.
    pub fn new(options: Options, environment: Environment) -> (result: Session)
        ensures
            result@ == fresh(options@, environment@),
    {
        let result = Session {
            options,
            environment,
            task: Task::Current,
            step: Step::Finished,
            action: Action::Finish(Ok(())),
            said: Vec::new(),
            listed: None,
            scanned: FileRead::Missing,
            profiles: Vec::new(),
            state: State::default(),
            profile: String::new(),
            config: ProfileConfig::default(),
            identity: Identity::default(),
            first_error: None,
            diagnosis: ProfileDiagnosis::default(),
            version: None,
            registries: Vec::new(),
            clients: Vec::new(),
            password: Vec::new(),
            registry: 0,
            client: 0,
            login_error: String::new(),
            failures: Vec::new(),
        };
        assert(result@.said =~= Seq::empty());
        assert(result@.profiles =~= Seq::empty());
        assert(result@.registries =~= Seq::empty());
        assert(result@.clients =~= Seq::empty());
        assert(result@.password =~= Seq::empty());
        assert(result@.failures =~= Seq::empty());
        result
    }

    /// Prints some lines.
    pub fn say(&mut self, lines: Vec<Line>)
        ensures
            final(self)@ == saying(old(self)@, lines_in(lines@)),
    {
        let ghost before = self@;
        let ghost more = lines_in(lines@);
        let mut list = lines;
        self.said.append(&mut list);
        assert(self@.said =~= before.said + more);
    }

    /// Waits for a file.
    pub fn read(&mut self, step: Step, path: Vec<u8>)
        ensures
            final(self)@ == reading(old(self)@, step, path@),
    {
        self.step = step;
        self.action = Action::Read(path);
    }

    /// Waits for a program.
    pub fn run(&mut self, step: Step, invocation: Invocation)
        ensures
            final(self)@ == running(old(self)@, step, invocation@),
    {
        self.step = step;
        self.action = Action::Run(invocation);
    }

    /// Ends the run.
    pub fn finish(&mut self, result: Result<(), String>)
        ensures
            final(self)@ == finished(old(self)@, verdict(result)),
    {
        self.step = Step::Finished;
        self.action = Action::Finish(result);
    }

    /// The file that the run waits for, if it waits for one.
    pub fn awaited_path(&self) -> (result: Vec<u8>)
        ensures
            result@ == awaited(self@.action),
    {
        match &self.action {
            Action::Read(path) => copied(path.as_slice()),
            _ => {
                let none: Vec<u8> = Vec::new();
                assert(none@ =~= Seq::empty());
                none
            },
        }
    }
}

} // verus!
