//! The course of a run: what each task begins with, and how it goes on from one
//! reply to the next.
use crate::choice::{
    listable, listing, ordered_profiles, previous_of, previous_profile, profile_for_switch,
    question_for, require_list_profiles, require_profiles, resolve_profile, resolved,
    select_profile, selection_error, selection_for, selection_message, switchable, Selection,
    SelectionFailure, SelectionFailureModel, SelectionModel,
};
use crate::command::{
    aws, aws_run, missing_message, plain, plain_run, require_command, run_of, sign_in, sign_in_run,
    verdict, CommandOutput, FailureModel, FileModel, FileRead, OutputModel, RunFailure,
};
use crate::config::{discover_profiles, known_profiles, profile_read, read_profile_config};
use crate::credentials::{
    after_check, caller_found, ensure_credentials, identity_args, identity_arguments, login_notice,
    print_login_notice, print_refresh_notice, refresh_credentials, refresh_notice, renewal,
    run_aws_login, sign_in_error, sign_in_message, sign_in_verdict, validate_credentials,
    CredentialCheck, CredentialCheckModel,
};
use crate::doctor::{
    all_checks, assemble_doctor_checks, aws_cli_version, checks_lines, cli_version,
    diagnose_named_profile, diagnosis_of, diagnosis_verdict, docker_helper_check,
    docker_helper_result, doctor_result, helper_checked, helper_registry, no_diagnosis,
    print_doctor_checks, CheckModel, ContextModel, DoctorCheck, DoctorContext, ProfileDiagnosis,
};
use crate::login::{
    account_told, client_told, first_told, helper_told, is_switch, login_ecr_if_enabled,
    logins_begun, logout_told, output_in, password_told, second_told, settings_told, take_account,
    take_client_config, take_first_login, take_helper, take_logout, take_password,
    take_second_login, take_settings,
};
use crate::paths::{
    aws_config_file, aws_config_path, aws_credentials_file, aws_credentials_path,
    docker_config_file, docker_config_path, state_dir, state_directory, state_file, state_path,
};
use crate::registry::{credential_helper, helper_read};
use crate::report::{
    activation_lines, build_status_report, current_lines, current_profile, list_needs_config,
    listed_lines, print_activation, print_profiles, print_status, status_lines, status_of,
};
use crate::session::{
    awaited, finished, reading, running, saying, Action, ActionModel, Reply, ReplyModel, Session,
    SessionModel, Step, Task, TaskModel,
};
use crate::settings::{effective_profile, profile_in_effect, progress_line, trace_line};
use crate::state::{
    load_state, save_error, save_message, save_state, saving, state_read, switched, update_state,
    SaveFailure, SaveFailureModel,
};
use crate::text::{borrowed, copied_text, slices, text_of, texts};
use vstd::prelude::*;

verus! {

/// A run that needs the AWS CLI begins: it looks for the profiles.
#[verifier::opaque]
pub open spec fn begun(session: SessionModel) -> SessionModel {
    if session.environment.aws {
        discovering(session)
    } else {
        finished(session, Err(missing_message("aws"@)))
    }
}

/// The AWS CLI is asked for the profiles.
#[verifier::opaque]
pub open spec fn discovering(session: SessionModel) -> SessionModel {
    running(session, Step::Listing, plain_run("aws"@, seq!["configure"@, "list-profiles"@]))
}

/// The AWS CLI has listed the profiles, or has not: the files are read as well.
#[verifier::opaque]
pub open spec fn listing_told(
    session: SessionModel,
    run: Result<OutputModel, FailureModel>,
) -> SessionModel {
    reading(
        SessionModel { listed: output_in(run), ..session },
        Step::ConfigScan,
        aws_config_file(session.environment.places),
    )
}

/// The configuration was read, in which to find profiles.
#[verifier::opaque]
pub open spec fn scan_told(session: SessionModel, read: FileModel) -> SessionModel {
    reading(
        SessionModel { scanned: read, ..session },
        Step::CredentialsScan,
        aws_credentials_file(session.environment.places),
    )
}

/// The credentials were read, in which to find profiles: all are known now.
#[verifier::opaque]
pub open spec fn profiles_told(session: SessionModel, read: FileModel) -> SessionModel {
    let found = SessionModel {
        profiles: known_profiles(session.listed, session.scanned, read),
        ..session
    };
    let verdict = if is_switch(session.task) {
        switchable(found.profiles)
    } else if session.task is List {
        listable(found.profiles)
    } else {
        Ok(())
    };
    match verdict {
        Ok(_) => loading(found),
        Err(message) => finished(found, Err(message)),
    }
}

/// The state file is read.
#[verifier::opaque]
pub open spec fn loading(session: SessionModel) -> SessionModel {
    match state_file(session.environment.places) {
        Ok(path) => reading(session, Step::Loading, path),
        Err(message) => finished(session, Err(message)),
    }
}

/// The state file was read.
#[verifier::opaque]
pub open spec fn state_told(session: SessionModel, read: FileModel) -> SessionModel {
    match state_read(awaited(session.action), read) {
        Ok(state) => informed(SessionModel { state, ..session }),
        Err(message) => finished(session, Err(message)),
    }
}

/// The profiles and the state are known: the task itself begins.
#[verifier::opaque]
pub open spec fn informed(session: SessionModel) -> SessionModel {
    match session.task {
        TaskModel::Switch(requested) => switch_informed(session, requested),
        TaskModel::Previous => previous_informed(session),
        TaskModel::Login(requested) => login_informed(session, requested),
        TaskModel::Status(requested) => status_informed(session, requested),
        TaskModel::Doctor(requested) => doctor_informed(session, requested),
        TaskModel::List => list_informed(session),
        TaskModel::Current => current_informed(session),
    }
}

/// A switch goes on with the profile that was asked for, or asks for one.
#[verifier::opaque]
pub open spec fn switch_informed(session: SessionModel, requested: Option<Seq<char>>) -> SessionModel {
    match selection_for(requested, session.profiles, session.environment) {
        Ok(SelectionModel::Named(profile)) => activated(session, profile),
        Ok(SelectionModel::Asked) => reading(
            session,
            Step::ChoiceConfig,
            aws_config_file(session.environment.places),
        ),
        Err(message) => finished(session, Err(message)),
    }
}

/// A switch back goes on with the previous profile.
#[verifier::opaque]
pub open spec fn previous_informed(session: SessionModel) -> SessionModel {
    match previous_of(session.state, session.profiles) {
        Ok(profile) => activated(session, profile),
        Err(message) => finished(session, Err(message)),
    }
}

/// A login goes on with the sign-in of its profile.
#[verifier::opaque]
pub open spec fn login_informed(session: SessionModel, requested: Option<Seq<char>>) -> SessionModel {
    match subject_of(session, requested) {
        Ok(profile) => reading(
            SessionModel { profile, first_error: None, ..session },
            Step::SignInConfig,
            aws_config_file(session.environment.places),
        ),
        Err(message) => finished(session, Err(message)),
    }
}

/// A report goes on with what the configuration says of its profile.
#[verifier::opaque]
pub open spec fn status_informed(session: SessionModel, requested: Option<Seq<char>>) -> SessionModel {
    match subject_of(session, requested) {
        Ok(profile) => reading(
            SessionModel { profile, ..session },
            Step::StatusConfig,
            aws_config_file(session.environment.places),
        ),
        Err(message) => finished(session, Err(message)),
    }
}

/// A diagnosis goes on with what the configuration says of its profile, or
/// without one.
#[verifier::opaque]
pub open spec fn doctor_informed(session: SessionModel, requested: Option<Seq<char>>) -> SessionModel {
    match subject_of(session, requested) {
        Ok(profile) => reading(
            SessionModel { profile, ..session },
            Step::DoctorConfig,
            aws_config_file(session.environment.places),
        ),
        Err(_) => diagnosed(SessionModel { diagnosis: no_diagnosis(), ..session }),
    }
}

/// A list is printed, once the configuration was read if that is needed.
#[verifier::opaque]
pub open spec fn list_informed(session: SessionModel) -> SessionModel {
    if list_needs_config(session.options, session.environment) {
        reading(session, Step::ListConfig, aws_config_file(session.environment.places))
    } else {
        listed(session, FileModel::Missing)
    }
}

/// The profile in effect is printed.
#[verifier::opaque]
pub open spec fn current_informed(session: SessionModel) -> SessionModel {
    match current_lines(session.state, session.options, session.environment) {
        Ok(lines) => finished(saying(session, lines), Ok(())),
        Err(message) => finished(session, Err(message)),
    }
}

/// The profile that the run is about.
pub open spec fn subject_of(session: SessionModel, requested: Option<Seq<char>>) -> Result<
    Seq<char>,
    Seq<char>,
> {
    resolved(requested, session.profiles, session.state, session.environment)
}

/// The configuration was read, to describe the profiles that the user may
/// choose: they are asked.
#[verifier::opaque]
pub open spec fn choice_config_told(session: SessionModel, read: FileModel) -> SessionModel {
    match question_for(session.profiles, session.state, session.environment, read) {
        Ok(prompt) => SessionModel {
            step: Step::Choosing,
            action: ActionModel::Ask(prompt),
            ..session
        },
        Err(message) => finished(session, Err(message)),
    }
}

/// The profiles that the user may choose, in their order.
pub open spec fn offered_profiles(session: SessionModel) -> Seq<Seq<char>> {
    listing(
        session.profiles,
        session.state,
        profile_in_effect(session.environment, session.state),
    )
}

/// The user has chosen one of the profiles, or none.
#[verifier::opaque]
pub open spec fn choice_told(
    session: SessionModel,
    choice: Result<nat, SelectionFailureModel>,
) -> SessionModel {
    match choice {
        Ok(index) => if index < offered_profiles(session).len() {
            activated(session, offered_profiles(session)[index as int])
        } else {
            session
        },
        Err(failure) => finished(session, Err(selection_message(failure))),
    }
}

/// The switch to a profile begins with its credentials.
#[verifier::opaque]
pub open spec fn activated(session: SessionModel, profile: Seq<char>) -> SessionModel {
    validating(SessionModel { profile, first_error: None, ..session })
}

/// The credentials are checked: AWS is asked who the caller is.
#[verifier::opaque]
pub open spec fn validating(session: SessionModel) -> SessionModel {
    running(
        saying(
            saying(
                session,
                progress_line(
                    session.options,
                    session.environment,
                    "Validating credentials for "@ + session.profile + "…"@,
                ),
            ),
            trace_line(session.options, session.environment, "aws"@, identity_arguments()),
        ),
        Step::Validating,
        aws_run(session.profile, identity_arguments()),
    )
}

/// AWS was asked who the caller is.
#[verifier::opaque]
pub open spec fn caller_told(
    session: SessionModel,
    run: Result<OutputModel, FailureModel>,
) -> SessionModel {
    let caller = caller_found(session.profile, session.options.verbose, run);
    match session.task {
        TaskModel::Status(_) => match caller {
            Ok(identity) => finished(
                saying(
                    SessionModel { identity, ..session },
                    status_lines(
                        status_of(session.profile, session.config, identity, session.environment),
                        session.options,
                        session.environment.color,
                    ),
                ),
                Ok(()),
            ),
            Err(message) => finished(session, Err(message)),
        },
        TaskModel::Doctor(_) => diagnosed(
            SessionModel { diagnosis: diagnosis_of(session.config, caller), ..session },
        ),
        TaskModel::Login(_) => match caller {
            Ok(identity) => reading(
                SessionModel { identity, ..session },
                Step::RegionConfig,
                aws_config_file(session.environment.places),
            ),
            Err(message) => finished(session, Err(message)),
        },
        _ => if session.first_error is None {
            first_check_told(session, after_check(caller))
        } else {
            match caller {
                Ok(identity) => remembering(SessionModel { identity, ..session }),
                Err(message) => finished(session, Err(message)),
            }
        },
    }
}

/// The credentials were checked for the first time: where a new sign-in may
/// help, one begins.
#[verifier::opaque]
pub open spec fn first_check_told(
    session: SessionModel,
    check: CredentialCheckModel,
) -> SessionModel {
    match check {
        CredentialCheckModel::Valid(identity) => remembering(SessionModel { identity, ..session }),
        CredentialCheckModel::Renew(error) => reading(
            saying(
                SessionModel { first_error: Some(error), ..session },
                refresh_notice(session.profile, session.options, session.environment),
            ),
            Step::SignInConfig,
            aws_config_file(session.environment.places),
        ),
        CredentialCheckModel::Over(error) => finished(session, Err(error)),
    }
}

/// The configuration was read, to see how the profile signs in: it does.
#[verifier::opaque]
pub open spec fn sign_in_config_told(session: SessionModel, read: FileModel) -> SessionModel {
    match renewal(session.profile, read) {
        Ok(args) => running(
            saying(
                saying(
                    session,
                    login_notice(session.profile, session.options, session.environment),
                ),
                trace_line(session.options, session.environment, "aws"@, args),
            ),
            Step::SigningIn,
            sign_in_run(session.profile, args),
        ),
        Err(error) => finished(session, Err(sign_in_message(session.first_error, error))),
    }
}

/// The profile has signed in, or has not: then its credentials are checked.
#[verifier::opaque]
pub open spec fn sign_in_told(
    session: SessionModel,
    run: Result<OutputModel, FailureModel>,
) -> SessionModel {
    match sign_in_verdict(run) {
        Ok(_) => validating(session),
        Err(error) => finished(session, Err(sign_in_message(session.first_error, error))),
    }
}

/// The switch is remembered.
#[verifier::opaque]
pub open spec fn remembering(session: SessionModel) -> SessionModel {
    let state = switched(session.state, session.profile);
    match state_directory(session.environment.places) {
        Ok(directory) => SessionModel {
            state,
            step: Step::Saving,
            action: ActionModel::Save(
                saving(
                    state,
                    session.environment.places.platform,
                    directory,
                    session.environment.process,
                ),
            ),
            ..session
        },
        Err(message) => finished(SessionModel { state, ..session }, Err(message)),
    }
}

/// The message of a state that could not be written.
pub open spec fn unsaved(action: ActionModel, failure: SaveFailureModel) -> Seq<char> {
    match action {
        ActionModel::Save(save) => save_message(save, failure),
        _ => Seq::empty(),
    }
}

/// The state was written, or was not.
#[verifier::opaque]
pub open spec fn save_told(
    session: SessionModel,
    saved: Result<(), SaveFailureModel>,
) -> SessionModel {
    match saved {
        Ok(_) => reading(
            session,
            Step::RegionConfig,
            aws_config_file(session.environment.places),
        ),
        Err(failure) => finished(session, Err(unsaved(session.action, failure))),
    }
}

/// The configuration was read, to see the region of the profile: a switch prints
/// its receipt, and the registry clients are logged in.
#[verifier::opaque]
pub open spec fn region_told(session: SessionModel, read: FileModel) -> SessionModel {
    match profile_read(read, session.profile) {
        Ok(config) => if is_switch(session.task) {
            receipted(SessionModel { config, ..session })
        } else {
            logins_begun(SessionModel { config, ..session })
        },
        Err(message) => finished(session, Err(message)),
    }
}

/// A switch prints its receipt, and the registry clients are logged in.
#[verifier::opaque]
pub open spec fn receipted(session: SessionModel) -> SessionModel {
    logins_begun(
        saying(
            session,
            activation_lines(
                session.profile,
                session.identity,
                session.config,
                session.options,
                session.environment,
            ),
        ),
    )
}

/// The configuration was read, to describe the profiles of a list: it is
/// printed.
#[verifier::opaque]
pub open spec fn listed(session: SessionModel, read: FileModel) -> SessionModel {
    match listed_lines(
        offered_profiles(session),
        session.state,
        profile_in_effect(session.environment, session.state),
        session.options,
        session.environment,
        read,
    ) {
        Ok(lines) => finished(saying(session, lines), Ok(())),
        Err(message) => finished(session, Err(message)),
    }
}

/// The configuration was read, for a report or a diagnosis: the credentials are
/// checked.
#[verifier::opaque]
pub open spec fn report_config_told(session: SessionModel, read: FileModel) -> SessionModel {
    match profile_read(read, session.profile) {
        Ok(config) => validating(SessionModel { config, ..session }),
        Err(message) => finished(session, Err(message)),
    }
}

/// The profile was diagnosed: the version of the AWS CLI is asked for.
#[verifier::opaque]
pub open spec fn diagnosed(session: SessionModel) -> SessionModel {
    if session.environment.aws {
        running(session, Step::Version, plain_run("aws"@, seq!["--version"@]))
    } else {
        versioned(SessionModel { version: None, ..session })
    }
}

/// The version of the AWS CLI was asked for.
#[verifier::opaque]
pub open spec fn version_told(
    session: SessionModel,
    run: Result<OutputModel, FailureModel>,
) -> SessionModel {
    versioned(SessionModel { version: cli_version(output_in(run)), ..session })
}

/// Docker's configuration is read, if there is a registry to look for in it.
#[verifier::opaque]
pub open spec fn versioned(session: SessionModel) -> SessionModel {
    match helper_registry(session.environment.docker, session.diagnosis) {
        Some(registry) => match docker_config_file(session.environment.places) {
            Some(path) => reading(session, Step::DoctorHelper, path),
            None => concluded(session, Some(helper_checked(registry, Ok(None)))),
        },
        None => concluded(session, None),
    }
}

/// Docker's configuration was read.
#[verifier::opaque]
pub open spec fn doctor_helper_told(session: SessionModel, read: FileModel) -> SessionModel {
    match helper_registry(session.environment.docker, session.diagnosis) {
        Some(registry) => concluded(
            session,
            Some(
                helper_checked(registry, helper_read(awaited(session.action), read, registry)),
            ),
        ),
        None => concluded(session, None),
    }
}

/// The profile that a diagnosis is about.
pub open spec fn diagnosed_profile(session: SessionModel) -> Option<Seq<char>> {
    match session.task {
        TaskModel::Doctor(requested) => match subject_of(session, requested) {
            Ok(profile) => Some(profile),
            Err(_) => None,
        },
        _ => None,
    }
}

/// What the diagnosis is about.
pub open spec fn context_of(session: SessionModel) -> ContextModel {
    ContextModel {
        profiles: session.profiles,
        profile: diagnosed_profile(session),
        config_path: aws_config_file(session.environment.places),
        state_path: match state_file(session.environment.places) {
            Ok(path) => path,
            Err(_) => Seq::empty(),
        },
    }
}

/// The diagnosis is printed, and it is over.
#[verifier::opaque]
pub open spec fn concluded(session: SessionModel, helper: Option<CheckModel>) -> SessionModel {
    let checks = all_checks(
        context_of(session),
        session.diagnosis,
        session.version,
        helper,
        session.environment,
    );
    finished(
        saying(session, checks_lines(checks, session.options, session.environment.color)),
        diagnosis_verdict(checks),
    )
}

/// How a run goes on once a file was read.
#[verifier::opaque]
pub open spec fn file_told(session: SessionModel, read: FileModel) -> SessionModel {
    match session.step {
        Step::ConfigScan => scan_told(session, read),
        Step::CredentialsScan => profiles_told(session, read),
        Step::Loading => state_told(session, read),
        Step::ChoiceConfig => choice_config_told(session, read),
        Step::SignInConfig => sign_in_config_told(session, read),
        Step::RegionConfig => region_told(session, read),
        Step::ClientConfig => client_told(session, read),
        Step::ListConfig => listed(session, read),
        Step::StatusConfig => report_config_told(session, read),
        Step::DoctorConfig => report_config_told(session, read),
        Step::DoctorHelper => doctor_helper_told(session, read),
        _ => session,
    }
}

/// How a run goes on once a program has run.
#[verifier::opaque]
pub open spec fn run_told(
    session: SessionModel,
    run: Result<OutputModel, FailureModel>,
) -> SessionModel {
    match session.step {
        Step::Listing => listing_told(session, run),
        Step::Validating => caller_told(session, run),
        Step::SigningIn => sign_in_told(session, run),
        Step::Account => account_told(session, run),
        Step::Password => password_told(session, run),
        Step::HelmSettings => settings_told(session, run),
        Step::Helper => helper_told(session, run),
        Step::FirstLogin => first_told(session, run),
        Step::Logout => logout_told(session, run),
        Step::SecondLogin => second_told(session, run),
        Step::Version => version_told(session, run),
        _ => session,
    }
}

/// How a run goes on from a reply. A reply to something that it does not wait
/// for changes nothing.
pub open spec fn next(session: SessionModel, reply: ReplyModel) -> SessionModel {
    match reply {
        ReplyModel::File(read) => file_told(session, read),
        ReplyModel::Ran(run) => run_told(session, run),
        ReplyModel::Saved(saved) => if session.step is Saving {
            save_told(session, saved)
        } else {
            session
        },
        ReplyModel::Chosen(choice) => if session.step is Choosing {
            choice_told(session, choice)
        } else {
            session
        },
    }
}

fn config_path(session: &Session) -> (result: Vec<u8>)
    ensures
        result@ == aws_config_file(session@.environment.places),
{
    aws_config_path(&session.environment.places)
}

/// Begins a switch to a profile, or to one that the user chooses.
pub fn switch(session: &mut Session, requested: Option<String>)
    ensures
        final(session)@ == begun(
            SessionModel { task: TaskModel::Switch(text_of(requested)), ..old(session)@ },
        ),
{
    proof {
        reveal(begun);
    }
    session.task = Task::Switch(requested);
    switch_context(session);
}

/// Begins a switch to the previous profile.
pub fn switch_previous(session: &mut Session)
    ensures
        final(session)@ == begun(SessionModel { task: TaskModel::Previous, ..old(session)@ }),
{
    proof {
        reveal(begun);
    }
    session.task = Task::Previous;
    switch_context(session);
}

/// Begins a login.
pub fn login(session: &mut Session, requested: Option<String>)
    ensures
        final(session)@ == begun(
            SessionModel { task: TaskModel::Login(text_of(requested)), ..old(session)@ },
        ),
{
    proof {
        reveal(begun);
    }
    session.task = Task::Login(requested);
    switch_context(session);
}

/// Begins a report.
pub fn status(session: &mut Session, requested: Option<String>)
    ensures
        final(session)@ == begun(
            SessionModel { task: TaskModel::Status(text_of(requested)), ..old(session)@ },
        ),
{
    proof {
        reveal(begun);
    }
    session.task = Task::Status(requested);
    switch_context(session);
}

/// Begins a diagnosis, which does without the AWS CLI.
pub fn doctor(session: &mut Session, requested: Option<String>)
    ensures
        final(session)@ == discovering(
            SessionModel { task: TaskModel::Doctor(text_of(requested)), ..old(session)@ },
        ),
{
    proof {
        reveal(discovering);
    }
    session.task = Task::Doctor(requested);
    discover(session);
}

/// Begins a list, which does without the AWS CLI.
pub fn list_profiles(session: &mut Session)
    ensures
        final(session)@ == discovering(SessionModel { task: TaskModel::List, ..old(session)@ }),
{
    proof {
        reveal(discovering);
    }
    session.task = Task::List;
    discover(session);
}

/// Begins to look up the profile in effect, which takes the state alone.
pub fn current(session: &mut Session)
    ensures
        final(session)@ == loading(SessionModel { task: TaskModel::Current, ..old(session)@ }),
{
    proof {
        reveal(loading);
    }
    session.task = Task::Current;
    load(session);
}

/// Looks for the profiles, if the AWS CLI is there.
pub fn switch_context(session: &mut Session)
    ensures
        final(session)@ == begun(old(session)@),
{
    proof {
        reveal(begun);
    }
    match require_command("aws", session.environment.aws) {
        Ok(_) => {
            discover(session);
        },
        Err(message) => {
            session.finish(Err(message));
        },
    }
}

fn discover(session: &mut Session)
    ensures
        final(session)@ == discovering(old(session)@),
{
    proof {
        reveal(discovering);
    }
    let args: [&str; 2] = ["configure", "list-profiles"];
    assert(slices(args@) =~= seq!["configure"@, "list-profiles"@]);
    let invocation = plain("aws", args.as_slice());
    session.run(Step::Listing, invocation);
}

/// Takes over what the AWS CLI listed.
fn take_listing(session: &mut Session, run: Result<CommandOutput, RunFailure>)
    ensures
        final(session)@ == listing_told(old(session)@, run_of(run)),
{
    proof {
        reveal(listing_told);
    }
    session.listed = match run {
        Ok(output) => Some(output),
        Err(_) => None,
    };
    let path = config_path(session);
    session.read(Step::ConfigScan, path);
}

/// Takes over the configuration, in which to find profiles.
fn take_scan(session: &mut Session, read: FileRead)
    ensures
        final(session)@ == scan_told(old(session)@, read@),
{
    proof {
        reveal(scan_told);
    }
    session.scanned = read;
    let path = aws_credentials_path(&session.environment.places);
    session.read(Step::CredentialsScan, path);
}

/// Takes over the credentials, in which to find profiles.
fn take_profiles(session: &mut Session, read: &FileRead)
    ensures
        final(session)@ == profiles_told(old(session)@, read@),
{
    proof {
        reveal(profiles_told);
    }
    let listed = match &session.listed {
        Some(output) => Some(output),
        None => None,
    };
    session.profiles = discover_profiles(listed, &session.scanned, read);
    let verdict = match &session.task {
        Task::Switch(_) => require_profiles(session.profiles.as_slice()),
        Task::Previous => require_profiles(session.profiles.as_slice()),
        Task::List => require_list_profiles(session.profiles.as_slice()),
        _ => Ok(()),
    };
    match verdict {
        Ok(_) => {
            load(session);
        },
        Err(message) => {
            session.finish(Err(message));
        },
    }
}

fn load(session: &mut Session)
    ensures
        final(session)@ == loading(old(session)@),
{
    proof {
        reveal(loading);
    }
    match state_path(&session.environment.places) {
        Ok(path) => {
            session.read(Step::Loading, path);
        },
        Err(message) => {
            session.finish(Err(message));
        },
    }
}

/// Takes the state over, and begins the task itself.
fn take_state(session: &mut Session, read: &FileRead)
    ensures
        final(session)@ == state_told(old(session)@, read@),
{
    proof {
        reveal(state_told);
    }
    let path = session.awaited_path();
    match load_state(path.as_slice(), read) {
        Ok(state) => {
            session.state = state;
            begin_task(session);
        },
        Err(message) => {
            session.finish(Err(message));
        },
    }
}

/// Begins the task itself.
pub fn begin_task(session: &mut Session)
    ensures
        final(session)@ == informed(old(session)@),
{
    proof {
        reveal(informed);
    }
    match &session.task {
        Task::Switch(requested) => {
            let requested = copied_text(requested);
            select(session, requested);
        },
        Task::Previous => {
            select_previous(session);
        },
        Task::Login(requested) => {
            let requested = copied_text(requested);
            login_profile(session, requested);
        },
        Task::Status(requested) => {
            let requested = copied_text(requested);
            resolve_status_profile(session, requested);
        },
        Task::Doctor(requested) => {
            let requested = copied_text(requested);
            diagnose_profile(session, requested);
        },
        Task::List => {
            begin_list(session);
        },
        Task::Current => {
            show_current(session);
        },
    }
}

fn select(session: &mut Session, requested: Option<String>)
    ensures
        final(session)@ == switch_informed(old(session)@, text_of(requested)),
{
    proof {
        reveal(switch_informed);
    }
    match profile_for_switch(
        borrowed(&requested),
        session.profiles.as_slice(),
        &session.environment,
    ) {
        Ok(Selection::Named(profile)) => {
            activate(session, profile);
        },
        Ok(Selection::Asked) => {
            let path = config_path(session);
            session.read(Step::ChoiceConfig, path);
        },
        Err(message) => {
            session.finish(Err(message));
        },
    }
}

fn select_previous(session: &mut Session)
    ensures
        final(session)@ == previous_informed(old(session)@),
{
    proof {
        reveal(previous_informed);
    }
    match previous_profile(&session.state, session.profiles.as_slice()) {
        Ok(profile) => {
            activate(session, profile);
        },
        Err(message) => {
            session.finish(Err(message));
        },
    }
}

/// Goes on with the sign-in of the profile that a login is about.
pub fn login_profile(session: &mut Session, requested: Option<String>)
    ensures
        final(session)@ == login_informed(old(session)@, text_of(requested)),
{
    proof {
        reveal(login_informed);
    }
    match resolve_profile(
        borrowed(&requested),
        session.profiles.as_slice(),
        &session.state,
        &session.environment,
    ) {
        Ok(profile) => {
            authenticate_profile(session, profile);
        },
        Err(message) => {
            session.finish(Err(message));
        },
    }
}

/// Looks up how a profile signs in.
pub fn authenticate_profile(session: &mut Session, profile: String)
    ensures
        final(session)@ == reading(
            SessionModel { profile: profile@, first_error: None, ..old(session)@ },
            Step::SignInConfig,
            aws_config_file(old(session)@.environment.places),
        ),
{
    session.profile = profile;
    session.first_error = None;
    let path = config_path(session);
    session.read(Step::SignInConfig, path);
}

/// Goes on with the configuration of the profile that a report is about.
pub fn resolve_status_profile(session: &mut Session, requested: Option<String>)
    ensures
        final(session)@ == status_informed(old(session)@, text_of(requested)),
{
    proof {
        reveal(status_informed);
    }
    match resolve_profile(
        borrowed(&requested),
        session.profiles.as_slice(),
        &session.state,
        &session.environment,
    ) {
        Ok(profile) => {
            session.profile = profile;
            let path = config_path(session);
            session.read(Step::StatusConfig, path);
        },
        Err(message) => {
            session.finish(Err(message));
        },
    }
}

/// Goes on with the configuration of the profile that a diagnosis is about, or
/// without one.
pub fn diagnose_profile(session: &mut Session, requested: Option<String>)
    ensures
        final(session)@ == doctor_informed(old(session)@, text_of(requested)),
{
    proof {
        reveal(doctor_informed);
    }
    match resolve_profile(
        borrowed(&requested),
        session.profiles.as_slice(),
        &session.state,
        &session.environment,
    ) {
        Ok(profile) => {
            session.profile = profile;
            let path = config_path(session);
            session.read(Step::DoctorConfig, path);
        },
        Err(_) => {
            session.diagnosis = ProfileDiagnosis::default();
            ask_version(session);
        },
    }
}

fn begin_list(session: &mut Session)
    ensures
        final(session)@ == list_informed(old(session)@),
{
    proof {
        reveal(list_informed);
    }
    if session.options.json || (session.environment.output_terminal && !session.options.quiet) {
        let path = config_path(session);
        session.read(Step::ListConfig, path);
    } else {
        show_list(session, &FileRead::Missing);
    }
}

fn show_current(session: &mut Session)
    ensures
        final(session)@ == current_informed(old(session)@),
{
    proof {
        reveal(current_informed);
    }
    match current_profile(&session.state, &session.options, &session.environment) {
        Ok(lines) => {
            session.say(lines);
            session.finish(Ok(()));
        },
        Err(message) => {
            session.finish(Err(message));
        },
    }
}

/// Asks the user which profile to switch to.
fn take_choice_config(session: &mut Session, read: &FileRead)
    ensures
        final(session)@ == choice_config_told(old(session)@, read@),
{
    proof {
        reveal(choice_config_told);
    }
    match select_profile(
        session.profiles.as_slice(),
        &session.state,
        &session.environment,
        read,
    ) {
        Ok(prompt) => {
            session.step = Step::Choosing;
            session.action = Action::Ask(prompt);
        },
        Err(message) => {
            session.finish(Err(message));
        },
    }
}

fn offered_list(session: &Session) -> (result: Vec<String>)
    ensures
        texts(result@) == offered_profiles(session@),
{
    let current = effective_profile(&session.environment, &session.state);
    ordered_profiles(session.profiles.as_slice(), &session.state, borrowed(&current))
}

/// Takes the user's choice over.
fn take_choice(session: &mut Session, choice: &Result<usize, SelectionFailure>)
    ensures
        final(session)@ == choice_told(
            old(session)@,
            match *choice {
                Ok(index) => Ok(index as nat),
                Err(failure) => Err(failure@),
            },
        ),
{
    proof {
        reveal(choice_told);
    }
    match choice {
        Ok(index) => {
            let offered = offered_list(session);
            if *index < offered.len() {
                assert(texts(offered@)[*index as int] == offered@[*index as int]@);
                let profile = offered[*index].clone();
                activate(session, profile);
            }
        },
        Err(failure) => {
            let message = selection_error(failure);
            session.finish(Err(message));
        },
    }
}

/// Begins the switch to a profile with its credentials.
pub fn activate(session: &mut Session, profile: String)
    ensures
        final(session)@ == activated(old(session)@, profile@),
{
    proof {
        reveal(activated);
    }
    session.profile = profile;
    session.first_error = None;
    check_credentials(session);
}

/// Asks AWS who the caller is.
pub fn check_credentials(session: &mut Session)
    ensures
        final(session)@ == validating(old(session)@),
{
    proof {
        reveal(validating);
    }
    let args = identity_args();
    let mut message = "Validating credentials for ".to_owned();
    message.append(session.profile.as_str());
    message.append("…");
    let progress = session.options.progress(message.as_str(), &session.environment);
    let note = session.options.trace("aws", args.as_slice(), &session.environment);
    let invocation = aws(session.profile.as_str(), args.as_slice());
    session.say(progress);
    session.say(note);
    session.run(Step::Validating, invocation);
}

/// Takes over who the caller is.
fn take_caller(session: &mut Session, run: &Result<CommandOutput, RunFailure>)
    ensures
        final(session)@ == caller_told(old(session)@, run_of(*run)),
{
    proof {
        reveal(caller_told);
    }
    let caller = validate_credentials(session.profile.as_str(), session.options.verbose, run);
    match &session.task {
        Task::Status(_) => match caller {
            Ok(identity) => {
                session.identity = identity;
                show_status(session);
            },
            Err(message) => {
                session.finish(Err(message));
            },
        },
        Task::Doctor(_) => {
            let config = session.config.copy();
            session.diagnosis = diagnose_named_profile(config, caller);
            ask_version(session);
        },
        Task::Login(_) => match caller {
            Ok(identity) => {
                session.identity = identity;
                let path = config_path(session);
                session.read(Step::RegionConfig, path);
            },
            Err(message) => {
                session.finish(Err(message));
            },
        },
        _ => {
            let first = match &session.first_error {
                Some(_) => false,
                None => true,
            };
            if first {
                let check = ensure_credentials(caller);
                take_first_check(session, check);
            } else {
                match caller {
                    Ok(identity) => {
                        session.identity = identity;
                        remember(session);
                    },
                    Err(message) => {
                        session.finish(Err(message));
                    },
                }
            }
        },
    }
}

/// Takes the first check of the credentials over.
pub fn take_first_check(session: &mut Session, check: CredentialCheck)
    ensures
        final(session)@ == first_check_told(old(session)@, check@),
{
    proof {
        reveal(first_check_told);
    }
    match check {
        CredentialCheck::Valid(identity) => {
            session.identity = identity;
            remember(session);
        },
        CredentialCheck::Renew(error) => {
            session.first_error = Some(error);
            let notice = print_refresh_notice(
                session.profile.as_str(),
                &session.options,
                &session.environment,
            );
            session.say(notice);
            let path = config_path(session);
            session.read(Step::SignInConfig, path);
        },
        CredentialCheck::Over(error) => {
            session.finish(Err(error));
        },
    }
}

fn show_status(session: &mut Session)
    ensures
        final(session)@ == finished(
            saying(
                old(session)@,
                status_lines(
                    status_of(
                        old(session)@.profile,
                        old(session)@.config,
                        old(session)@.identity,
                        old(session)@.environment,
                    ),
                    old(session)@.options,
                    old(session)@.environment.color,
                ),
            ),
            Ok(()),
        ),
{
    let report = build_status_report(
        session.profile.clone(),
        session.config.copy(),
        session.identity.copy(),
        &session.environment,
    );
    let lines = print_status(&report, &session.options, session.environment.color);
    session.say(lines);
    session.finish(Ok(()));
}

/// Signs the profile in.
fn take_sign_in_config(session: &mut Session, read: &FileRead)
    ensures
        final(session)@ == sign_in_config_told(old(session)@, read@),
{
    proof {
        reveal(sign_in_config_told);
    }
    match refresh_credentials(session.profile.as_str(), read) {
        Ok(args) => {
            let notice = print_login_notice(
                session.profile.as_str(),
                &session.options,
                &session.environment,
            );
            let note = session.options.trace("aws", args.as_slice(), &session.environment);
            let invocation = sign_in(session.profile.as_str(), args.as_slice());
            session.say(notice);
            session.say(note);
            session.run(Step::SigningIn, invocation);
        },
        Err(error) => {
            let message = sign_in_error(&session.first_error, error);
            session.finish(Err(message));
        },
    }
}

/// Takes the sign-in over, and checks the credentials.
fn take_sign_in(session: &mut Session, run: &Result<CommandOutput, RunFailure>)
    ensures
        final(session)@ == sign_in_told(old(session)@, run_of(*run)),
{
    proof {
        reveal(sign_in_told);
    }
    match run_aws_login(run) {
        Ok(_) => {
            check_credentials(session);
        },
        Err(error) => {
            let message = sign_in_error(&session.first_error, error);
            session.finish(Err(message));
        },
    }
}

/// Remembers the switch.
pub fn remember(session: &mut Session)
    ensures
        final(session)@ == remembering(old(session)@),
{
    proof {
        reveal(remembering);
    }
    update_state(session.profile.as_str(), &mut session.state);
    match state_dir(&session.environment.places) {
        Ok(directory) => {
            let save = save_state(
                &session.state,
                session.environment.places.platform,
                directory.as_slice(),
                session.environment.process,
            );
            session.step = Step::Saving;
            session.action = Action::Save(save);
        },
        Err(message) => {
            session.finish(Err(message));
        },
    }
}

/// Takes over whether the state was written.
fn take_save(session: &mut Session, saved: &Result<(), SaveFailure>)
    ensures
        final(session)@ == save_told(
            old(session)@,
            match *saved {
                Ok(_) => Ok(()),
                Err(failure) => Err(failure@),
            },
        ),
{
    proof {
        reveal(save_told);
    }
    match saved {
        Ok(_) => {
            let path = config_path(session);
            session.read(Step::RegionConfig, path);
        },
        Err(failure) => {
            let message = match &session.action {
                Action::Save(save) => save_error(save, failure),
                _ => String::new(),
            };
            session.finish(Err(message));
        },
    }
}

/// Takes the region of the profile over.
fn take_region(session: &mut Session, read: &FileRead)
    ensures
        final(session)@ == region_told(old(session)@, read@),
{
    proof {
        reveal(region_told);
    }
    match read_profile_config(read, session.profile.as_str()) {
        Ok(config) => {
            session.config = config;
            match &session.task {
                Task::Switch(_) => {
                    finish_activation(session);
                },
                Task::Previous => {
                    finish_activation(session);
                },
                _ => {
                    login_ecr_if_enabled(session);
                },
            }
        },
        Err(message) => {
            session.finish(Err(message));
        },
    }
}

/// Prints the receipt of a switch, and logs the registry clients in.
pub fn finish_activation(session: &mut Session)
    ensures
        final(session)@ == receipted(old(session)@),
{
    proof {
        reveal(receipted);
    }
    let receipt = print_activation(
        session.profile.as_str(),
        &session.identity,
        &session.config,
        &session.options,
        &session.environment,
    );
    session.say(receipt);
    login_ecr_if_enabled(session);
}

fn show_list(session: &mut Session, read: &FileRead)
    ensures
        final(session)@ == listed(old(session)@, read@),
{
    proof {
        reveal(listed);
    }
    let current = effective_profile(&session.environment, &session.state);
    let ordered = offered_list(session);
    match print_profiles(
        ordered.as_slice(),
        &session.state,
        borrowed(&current),
        &session.options,
        &session.environment,
        read,
    ) {
        Ok(lines) => {
            session.say(lines);
            session.finish(Ok(()));
        },
        Err(message) => {
            session.finish(Err(message));
        },
    }
}

/// Takes the configuration over for a report or a diagnosis.
fn take_report_config(session: &mut Session, read: &FileRead)
    ensures
        final(session)@ == report_config_told(old(session)@, read@),
{
    proof {
        reveal(report_config_told);
    }
    match read_profile_config(read, session.profile.as_str()) {
        Ok(config) => {
            session.config = config;
            check_credentials(session);
        },
        Err(message) => {
            session.finish(Err(message));
        },
    }
}

fn ask_version(session: &mut Session)
    ensures
        final(session)@ == diagnosed(old(session)@),
{
    proof {
        reveal(diagnosed);
    }
    if session.environment.aws {
        let args: [&str; 1] = ["--version"];
        assert(slices(args@) =~= seq!["--version"@]);
        let invocation = plain("aws", args.as_slice());
        session.run(Step::Version, invocation);
    } else {
        session.version = None;
        look_for_helper(session);
    }
}

/// Takes the version of the AWS CLI over.
fn take_version(session: &mut Session, run: &Result<CommandOutput, RunFailure>)
    ensures
        final(session)@ == version_told(old(session)@, run_of(*run)),
{
    proof {
        reveal(version_told);
    }
    let output = match run {
        Ok(output) => Some(output),
        Err(_) => None,
    };
    session.version = aws_cli_version(output);
    look_for_helper(session);
}

fn look_for_helper(session: &mut Session)
    ensures
        final(session)@ == versioned(old(session)@),
{
    proof {
        reveal(versioned);
    }
    match docker_helper_check(session.environment.docker, &session.diagnosis) {
        Some(registry) => match docker_config_path(&session.environment.places) {
            Some(path) => {
                session.read(Step::DoctorHelper, path);
            },
            None => {
                let helper = docker_helper_result(registry.as_str(), Ok(None));
                doctor_checks(session, Some(helper));
            },
        },
        None => {
            doctor_checks(session, None);
        },
    }
}

/// Takes Docker's configuration over for a diagnosis.
fn take_doctor_helper(session: &mut Session, read: &FileRead)
    ensures
        final(session)@ == doctor_helper_told(old(session)@, read@),
{
    proof {
        reveal(doctor_helper_told);
    }
    let path = session.awaited_path();
    match docker_helper_check(session.environment.docker, &session.diagnosis) {
        Some(registry) => {
            let helper = credential_helper(path.as_slice(), read, registry.as_str());
            let check = docker_helper_result(registry.as_str(), helper);
            doctor_checks(session, Some(check));
        },
        None => {
            doctor_checks(session, None);
        },
    }
}

/// What the diagnosis is about.
pub fn doctor_context(session: &Session) -> (result: DoctorContext)
    ensures
        result@ == context_of(session@),
{
    let profile = match &session.task {
        Task::Doctor(requested) => match resolve_profile(
            borrowed(requested),
            session.profiles.as_slice(),
            &session.state,
            &session.environment,
        ) {
            Ok(profile) => Some(profile),
            Err(_) => None,
        },
        _ => None,
    };
    let profiles = session.profiles.clone();
    assert(texts(profiles@) =~= texts(session.profiles@));
    DoctorContext {
        profiles,
        profile,
        config_path: config_path(session),
        state_path: match state_path(&session.environment.places) {
            Ok(path) => path,
            Err(_) => {
                let none: Vec<u8> = Vec::new();
                assert(none@ =~= Seq::empty());
                none
            },
        },
    }
}

/// Prints the diagnosis, and ends the run.
pub fn doctor_checks(session: &mut Session, helper: Option<DoctorCheck>)
    ensures
        final(session)@ == concluded(
            old(session)@,
            match helper {
                Some(helper) => Some(helper@),
                None => None,
            },
        ),
{
    proof {
        reveal(concluded);
    }
    let context = doctor_context(session);
    let diagnosis = session.diagnosis.copy();
    let version = copied_text(&session.version);
    let checks = assemble_doctor_checks(
        &context,
        diagnosis,
        version,
        helper,
        &session.environment,
    );
    let lines = print_doctor_checks(
        checks.as_slice(),
        &session.options,
        session.environment.color,
    );
    let result = doctor_result(checks.as_slice());
    session.say(lines);
    session.finish(result);
}

/// Goes on once a file was read.
fn take_file(session: &mut Session, read: FileRead)
    ensures
        final(session)@ == file_told(old(session)@, read@),
{
    proof {
        reveal(file_told);
    }
    match session.step {
        Step::ConfigScan => take_scan(session, read),
        Step::CredentialsScan => take_profiles(session, &read),
        Step::Loading => take_state(session, &read),
        Step::ChoiceConfig => take_choice_config(session, &read),
        Step::SignInConfig => take_sign_in_config(session, &read),
        Step::RegionConfig => take_region(session, &read),
        Step::ClientConfig => take_client_config(session, &read),
        Step::ListConfig => show_list(session, &read),
        Step::StatusConfig => take_report_config(session, &read),
        Step::DoctorConfig => take_report_config(session, &read),
        Step::DoctorHelper => take_doctor_helper(session, &read),
        _ => {},
    }
}

/// Goes on once a program has run.
fn take_run(session: &mut Session, run: Result<CommandOutput, RunFailure>)
    ensures
        final(session)@ == run_told(old(session)@, run_of(run)),
{
    proof {
        reveal(run_told);
    }
    match session.step {
        Step::Listing => take_listing(session, run),
        Step::Validating => take_caller(session, &run),
        Step::SigningIn => take_sign_in(session, &run),
        Step::Account => take_account(session, &run),
        Step::Password => take_password(session, &run),
        Step::HelmSettings => take_settings(session, &run),
        Step::Helper => take_helper(session, &run),
        Step::FirstLogin => take_first_login(session, &run),
        Step::Logout => take_logout(session, &run),
        Step::SecondLogin => take_second_login(session, &run),
        Step::Version => take_version(session, &run),
        _ => {},
    }
}

impl Session {
    /// Goes on from a reply.
    pub fn resume(&mut self, reply: Reply)
        ensures
            final(self)@ == next(old(self)@, reply@),
    {
        match reply {
            Reply::File(read) => take_file(self, read),
            Reply::Ran(run) => take_run(self, run),
            Reply::Saved(saved) => match self.step {
                Step::Saving => take_save(self, &saved),
                _ => {},
            },
            Reply::Chosen(choice) => match self.step {
                Step::Choosing => take_choice(self, &choice),
                _ => {},
            },
        }
    }
}

} // verus!
