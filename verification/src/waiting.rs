//! What every run waits for, whatever it is told.
use crate::choice::law_listing;
use crate::command::{
    aws_run, missing_message, plain_run, sign_in_run, static_credentials, FailureModel, FileModel,
    InvocationModel, OutputModel,
};
use crate::config::profile_read;
use crate::credentials::{caller_found, identity_arguments};
use crate::doctor::{cli_version, diagnosis_of, no_diagnosis};
use crate::flow::{
    activated, begun, caller_told, choice_config_told, choice_told, concluded, current_informed,
    diagnosed, discovering, doctor_helper_told, doctor_informed, file_told, first_check_told,
    informed, list_informed, listed, listing_told, loading, login_informed, next, offered_profiles,
    previous_informed, profiles_told, receipted, region_told, remembering, report_config_told,
    run_told, save_told, scan_told, sign_in_config_told, sign_in_told, state_told, status_informed,
    switch_informed, validating, version_told, versioned,
};
use crate::login::{
    account_arguments, account_told, advanced, client_in, client_located, client_told, first_told,
    helper_told, is_switch, login_begun, login_ended, logins_begun, logins_over, logout_told,
    output_in, password_arguments, password_sent, password_told, registries_known,
    registries_sought, registry_in, second_told, settings_told,
};
use crate::paths::{aws_config_file, aws_credentials_file, state_directory, state_file};
use crate::printing::well_placed;
use crate::registry::{
    helper_read, helper_run, is_duplicate, login_note, login_run, logins_verdict, logout_run,
    password_found, RegistryLoginMethod, HELPER,
};
use crate::report::activation_lines;
use crate::session::{
    awaited, running, saying, ActionModel, ReplyModel, SessionModel, Step, TaskModel,
};
use crate::settings::{profile_in_effect, wants_ecr, LineModel};
use crate::state::{saving, state_read, switched};
use vstd::prelude::*;

verus! {

/// The run is about a configured profile.
pub open spec fn is_settled(session: SessionModel) -> bool {
    session.profiles.contains(session.profile)
}

/// The run logs registry clients in, as a switch or a login.
pub open spec fn is_login(session: SessionModel) -> bool {
    &&& is_settled(session)
    &&& is_switch(session.task) || session.task is Login
}

/// The run logs one client in to one registry.
pub open spec fn is_turn(session: SessionModel) -> bool {
    &&& is_login(session)
    &&& session.registry < session.registries.len()
    &&& session.client < session.clients.len()
}

/// A run waits for what its task can lead to, and asks for just that; from the
/// choice on it is about a configured profile.
pub open spec fn consistent(session: SessionModel) -> bool {
    let places = session.environment.places;
    let config = ActionModel::Read(aws_config_file(places));
    match session.step {
        Step::Listing => session.action == ActionModel::Run(
            plain_run("aws"@, seq!["configure"@, "list-profiles"@]),
        ),
        Step::ConfigScan => session.action == config,
        Step::CredentialsScan => session.action == ActionModel::Read(aws_credentials_file(places)),
        Step::Loading => state_file(places) is Ok && session.action == ActionModel::Read(
            state_file(places)->Ok_0,
        ),
        Step::ChoiceConfig => session.task is Switch && session.action == config,
        Step::Choosing => {
            &&& session.task is Switch
            &&& session.action matches ActionModel::Ask(prompt)
            &&& prompt.choices.len() == offered_profiles(session).len()
            &&& forall|i: int|
                0 <= i < prompt.choices.len() ==> (#[trigger] prompt.choices[i]).name
                    == offered_profiles(session)[i]
        },
        Step::Validating => {
            &&& is_settled(session)
            &&& !(session.task is List || session.task is Current)
            &&& session.action == ActionModel::Run(aws_run(session.profile, identity_arguments()))
        },
        Step::SignInConfig => {
            &&& is_login(session)
            &&& is_switch(session.task) ==> session.first_error is Some
            &&& session.action == config
        },
        Step::SigningIn => {
            &&& is_login(session)
            &&& is_switch(session.task) ==> session.first_error is Some
            &&& exists|args: Seq<Seq<char>>|
                session.action == ActionModel::Run(#[trigger] sign_in_run(session.profile, args))
        },
        Step::Saving => {
            &&& is_settled(session)
            &&& is_switch(session.task)
            &&& session.state.current == Some(session.profile)
            &&& state_directory(places) is Ok
            &&& session.action == ActionModel::Save(
                saving(
                    session.state,
                    places.platform,
                    state_directory(places)->Ok_0,
                    session.environment.process,
                ),
            )
        },
        Step::RegionConfig => is_login(session) && session.action == config,
        Step::Account => is_login(session) && session.action == ActionModel::Run(
            aws_run(session.profile, account_arguments()),
        ),
        Step::Password => {
            &&& is_login(session)
            &&& session.clients.len() > 0
            &&& session.config.region is Some
            &&& session.action == ActionModel::Run(
                aws_run(session.profile, password_arguments(session.config.region->0)),
            )
        },
        Step::HelmSettings => is_turn(session) && session.action == ActionModel::Run(
            plain_run("helm"@, seq!["env"@]),
        ),
        Step::ClientConfig => is_turn(session) && session.action is Read,
        Step::Helper => is_turn(session) && session.action == ActionModel::Run(
            helper_run(session.profile, registry_in(session)),
        ),
        Step::FirstLogin => is_turn(session) && session.action == ActionModel::Run(
            login_run(client_in(session), registry_in(session), session.password),
        ),
        Step::Logout => is_turn(session) && client_in(session) is Helm && session.action
            == ActionModel::Run(logout_run(registry_in(session))),
        Step::SecondLogin => is_turn(session) && client_in(session) is Helm && session.action
            == ActionModel::Run(
            login_run(client_in(session), registry_in(session), session.password),
        ),
        Step::ListConfig => session.task is List && session.action == config,
        Step::StatusConfig => is_settled(session) && session.task is Status && session.action
            == config,
        Step::DoctorConfig => is_settled(session) && session.task is Doctor && session.action
            == config,
        Step::Version => session.task is Doctor && session.action == ActionModel::Run(
            plain_run("aws"@, seq!["--version"@]),
        ),
        Step::DoctorHelper => session.task is Doctor && session.action is Read,
        Step::Finished => session.action is Finish,
    }
}

/// A login has just begun, or all are over.
pub open spec fn at_login_start(step: Step) -> bool {
    step is HelmSettings || step is ClientConfig || step is FirstLogin || step is Finished
}

proof fn lemma_logins_over(session: SessionModel, result: Result<(), Seq<char>>)
    ensures
        logins_over(session, result).step is Finished,
        logins_over(session, result).action is Finish,
        is_switch(session.task) ==> logins_over(session, result).action == ActionModel::Finish(
            Ok(()),
        ),
{
    reveal(logins_over);
}

proof fn lemma_registries_known(session: SessionModel)
    requires
        is_login(session),
    ensures
        consistent(registries_known(session)),
        registries_known(session).step is Password || registries_known(session).step is Finished,
        registries_known(session).step is Finished && is_switch(session.task) ==> registries_known(
            session,
        ).action == ActionModel::Finish(Ok(())),
{
    reveal(registries_known);
    assert forall|result: Result<(), Seq<char>>| {
        let over = #[trigger] logins_over(session, result);
        over.step is Finished && over.action is Finish && (is_switch(session.task) ==> over.action
            == ActionModel::Finish(Ok(())))
    } by {
        lemma_logins_over(session, result);
    }
}

proof fn lemma_logins_begun(session: SessionModel)
    requires
        is_login(session),
    ensures
        consistent(logins_begun(session)),
        logins_begun(session).step is Account || logins_begun(session).step is Password
            || logins_begun(session).step is Finished,
        logins_begun(session).step is Finished && is_switch(session.task) ==> logins_begun(
            session,
        ).action == ActionModel::Finish(Ok(())),
{
    reveal(logins_begun);
    reveal(registries_sought);
    lemma_logins_over(session, Ok(()));
    assert forall|registries: Seq<Seq<char>>| {
        let known = #[trigger] registries_known(SessionModel { registries, ..session });
        &&& consistent(known)
        &&& known.step is Password || known.step is Finished
        &&& known.step is Finished && is_switch(session.task) ==> known.action
            == ActionModel::Finish(Ok(()))
    } by {
        lemma_registries_known(SessionModel { registries, ..session });
    }
}

proof fn lemma_login_begun(session: SessionModel)
    requires
        is_login(session),
        session.client < session.clients.len(),
    ensures
        consistent(login_begun(session)),
        at_login_start(login_begun(session).step),
        login_begun(session).step is Finished && is_switch(session.task) ==> login_begun(
            session,
        ).action == ActionModel::Finish(Ok(())),
{
    reveal(login_begun);
    reveal(client_located);
    reveal(password_sent);
    lemma_logins_over(session, logins_verdict(session.failures));
}

proof fn lemma_login_ended(
    session: SessionModel,
    outcome: Result<RegistryLoginMethod, Seq<char>>,
)
    requires
        is_turn(session),
    ensures
        consistent(login_ended(session, outcome)),
        at_login_start(login_ended(session, outcome).step),
        login_ended(session, outcome).step is Finished && is_switch(session.task) ==> login_ended(
            session,
            outcome,
        ).action == ActionModel::Finish(Ok(())),
{
    reveal(login_ended);
    reveal(advanced);
    let noted = match outcome {
        Ok(method) => saying(
            session,
            if session.options.quiet || session.options.json {
                Seq::empty()
            } else {
                seq![
                    LineModel::Note(
                        login_note(
                            client_in(session),
                            registry_in(session),
                            method,
                            session.environment.color,
                        ),
                    ),
                ]
            },
        ),
        Err(error) => SessionModel { failures: session.failures.push(error), ..session },
    };
    if noted.client + 1 < noted.clients.len() {
        lemma_login_begun(SessionModel { client: noted.client + 1, ..noted });
    } else {
        lemma_login_begun(
            SessionModel {
                client: 0,
                registry: if noted.registry < noted.registries.len() {
                    noted.registry + 1
                } else {
                    noted.registry
                },
                ..noted
            },
        );
    }
}

/// What the login of the clients goes on to.
pub open spec fn goes_on(session: SessionModel, after: SessionModel) -> bool {
    &&& consistent(after)
    &&& at_login_start(after.step) || after.step is Password || after.step is Helper
        || after.step is Logout || after.step is SecondLogin
    &&& after.step is Logout ==> session.step is FirstLogin
    &&& after.step is SecondLogin ==> session.step is Logout
    &&& after.step is Finished && is_switch(session.task) ==> after.action == ActionModel::Finish(
        Ok(()),
    )
}

proof fn lemma_login_run_told(session: SessionModel, run: Result<OutputModel, FailureModel>)
    requires
        consistent(session),
    ensures
        session.step is Account ==> goes_on(session, account_told(session, run)),
        session.step is Password ==> goes_on(session, password_told(session, run)),
        session.step is HelmSettings ==> goes_on(session, settings_told(session, run)),
        session.step is Helper ==> goes_on(session, helper_told(session, run)),
        session.step is FirstLogin ==> goes_on(session, first_told(session, run)),
        session.step is Logout ==> goes_on(session, logout_told(session, run)),
        session.step is SecondLogin ==> goes_on(session, second_told(session, run)),
{
    reveal(account_told);
    reveal(password_told);
    reveal(settings_told);
    reveal(helper_told);
    reveal(first_told);
    reveal(logout_told);
    reveal(second_told);
    reveal(client_located);
    reveal(password_sent);
    assert forall|result: Result<(), Seq<char>>| {
        let over = #[trigger] logins_over(session, result);
        over.step is Finished && over.action is Finish && (is_switch(session.task) ==> over.action
            == ActionModel::Finish(Ok(())))
    } by {
        lemma_logins_over(session, result);
    }
    if is_turn(session) {
        assert forall|outcome: Result<RegistryLoginMethod, Seq<char>>| {
            let ended = #[trigger] login_ended(session, outcome);
            &&& consistent(ended)
            &&& at_login_start(ended.step)
            &&& ended.step is Finished && is_switch(session.task) ==> ended.action
                == ActionModel::Finish(Ok(()))
        } by {
            lemma_login_ended(session, outcome);
        }
    }
    if session.step is Account {
        assert forall|registries: Seq<Seq<char>>| {
            let known = #[trigger] registries_known(SessionModel { registries, ..session });
            &&& consistent(known)
            &&& known.step is Password || known.step is Finished
            &&& known.step is Finished && is_switch(session.task) ==> known.action
                == ActionModel::Finish(Ok(()))
        } by {
            lemma_registries_known(SessionModel { registries, ..session });
        }
    }
    if session.step is Password {
        match password_found(session.profile, session.options.verbose, run) {
            Ok(password) => lemma_login_begun(
                SessionModel { password, failures: Seq::empty(), registry: 0, client: 0, ..session },
            ),
            Err(_) => {},
        }
    }
}

proof fn lemma_client_told(session: SessionModel, read: FileModel)
    requires
        consistent(session),
        session.step is ClientConfig,
    ensures
        goes_on(session, client_told(session, read)),
{
    reveal(client_told);
    reveal(password_sent);
    assert forall|outcome: Result<RegistryLoginMethod, Seq<char>>| {
        let ended = #[trigger] login_ended(session, outcome);
        &&& consistent(ended)
        &&& at_login_start(ended.step)
        &&& ended.step is Finished && is_switch(session.task) ==> ended.action
            == ActionModel::Finish(Ok(()))
    } by {
        lemma_login_ended(session, outcome);
    }
}

proof fn lemma_validating(session: SessionModel)
    requires
        is_settled(session),
        !(session.task is List || session.task is Current),
    ensures
        consistent(validating(session)),
        validating(session).step is Validating,
{
    reveal(validating);
}

proof fn lemma_activated(session: SessionModel, profile: Seq<char>)
    requires
        session.profiles.contains(profile),
        is_switch(session.task),
    ensures
        consistent(activated(session, profile)),
        activated(session, profile).step is Validating,
{
    reveal(activated);
    lemma_validating(SessionModel { profile, first_error: None, ..session });
}

proof fn lemma_diagnosed(session: SessionModel)
    requires
        session.task is Doctor,
    ensures
        consistent(diagnosed(session)),
        consistent(versioned(session)),
        !(diagnosed(session).step is Saving),
        !(versioned(session).step is Saving),
{
    reveal(diagnosed);
    reveal(versioned);
    reveal(concluded);
}

/// The task begins with what it can lead to.
proof fn lemma_informed(session: SessionModel)
    ensures
        consistent(informed(session)),
        !(informed(session).step is Saving),
{
    reveal(informed);
    match session.task {
        TaskModel::Switch(requested) => {
            reveal(switch_informed);
            if requested is Some && session.profiles.contains(requested->0) {
                lemma_activated(session, requested->0);
            }
        },
        TaskModel::Previous => {
            reveal(previous_informed);
            if session.state.previous is Some && session.profiles.contains(
                session.state.previous->0,
            ) {
                lemma_activated(session, session.state.previous->0);
            }
        },
        TaskModel::Login(_) => {
            reveal(login_informed);
        },
        TaskModel::Status(_) => {
            reveal(status_informed);
        },
        TaskModel::Doctor(_) => {
            reveal(doctor_informed);
            lemma_diagnosed(SessionModel { diagnosis: no_diagnosis(), ..session });
        },
        TaskModel::List => {
            reveal(list_informed);
            reveal(listed);
        },
        TaskModel::Current => {
            reveal(current_informed);
        },
    }
}

proof fn lemma_file_told(session: SessionModel, read: FileModel)
    requires
        consistent(session),
    ensures
        consistent(file_told(session, read)),
        file_told(session, read).step is Saving ==> file_told(session, read) == session,
        file_told(session, read).step is Logout ==> file_told(session, read) == session,
{
    reveal(file_told);
    match session.step {
        Step::ConfigScan => {
            reveal(scan_told);
        },
        Step::CredentialsScan => {
            reveal(profiles_told);
            reveal(loading);
        },
        Step::Loading => {
            reveal(state_told);
            match state_read(awaited(session.action), read) {
                Ok(state) => {
                    lemma_informed(SessionModel { state, ..session });
                    lemma_no_logout(SessionModel { state, ..session });
                },
                Err(_) => {},
            }
        },
        Step::ChoiceConfig => {
            reveal(choice_config_told);
        },
        Step::SignInConfig => {
            reveal(sign_in_config_told);
        },
        Step::RegionConfig => {
            reveal(region_told);
            reveal(receipted);
            match profile_read(read, session.profile) {
                Ok(config) => {
                    let known = SessionModel { config, ..session };
                    lemma_logins_begun(known);
                    lemma_logins_begun(
                        saying(
                            known,
                            activation_lines(
                                known.profile,
                                known.identity,
                                known.config,
                                known.options,
                                known.environment,
                            ),
                        ),
                    );
                },
                Err(_) => {},
            }
        },
        Step::ClientConfig => {
            lemma_client_told(session, read);
        },
        Step::ListConfig => {
            reveal(listed);
        },
        Step::StatusConfig | Step::DoctorConfig => {
            reveal(report_config_told);
            match profile_read(read, session.profile) {
                Ok(config) => lemma_validating(SessionModel { config, ..session }),
                Err(_) => {},
            }
        },
        Step::DoctorHelper => {
            reveal(doctor_helper_told);
            reveal(concluded);
        },
        _ => {},
    }
}

proof fn lemma_no_logout(session: SessionModel)
    ensures
        !(informed(session).step is Logout),
{
    reveal(informed);
    reveal(switch_informed);
    reveal(previous_informed);
    reveal(activated);
    reveal(validating);
    reveal(login_informed);
    reveal(status_informed);
    reveal(doctor_informed);
    reveal(diagnosed);
    reveal(versioned);
    reveal(concluded);
    reveal(list_informed);
    reveal(listed);
    reveal(current_informed);
}

proof fn lemma_caller_told(session: SessionModel, run: Result<OutputModel, FailureModel>)
    requires
        consistent(session),
        session.step is Validating,
    ensures
        consistent(caller_told(session, run)),
        !(caller_told(session, run).step is Logout),
        caller_told(session, run).step is Saving ==> {
            &&& caller_found(session.profile, session.options.verbose, run) is Ok
            &&& caller_told(session, run).identity == caller_found(
                session.profile,
                session.options.verbose,
                run,
            )->Ok_0
            &&& caller_told(session, run).state == switched(session.state, session.profile)
        },
{
    reveal(caller_told);
    reveal(first_check_told);
    reveal(remembering);
    let caller = caller_found(session.profile, session.options.verbose, run);
    let diagnosis = SessionModel { diagnosis: diagnosis_of(session.config, caller), ..session };
    if session.task is Doctor {
        lemma_diagnosed(diagnosis);
        reveal(diagnosed);
        reveal(versioned);
        reveal(concluded);
    }
}

proof fn lemma_run_told(session: SessionModel, run: Result<OutputModel, FailureModel>)
    requires
        consistent(session),
    ensures
        consistent(run_told(session, run)),
        run_told(session, run).step is Saving ==> run_told(session, run) == session
            || session.step is Validating,
        run_told(session, run).step is Logout ==> session.step is FirstLogin,
{
    reveal(run_told);
    lemma_login_run_told(session, run);
    match session.step {
        Step::Listing => {
            reveal(listing_told);
        },
        Step::Validating => {
            lemma_caller_told(session, run);
        },
        Step::SigningIn => {
            reveal(sign_in_told);
            lemma_validating(session);
        },
        Step::Version => {
            reveal(version_told);
            lemma_diagnosed(SessionModel { version: cli_version(output_in(run)), ..session });
            reveal(versioned);
            reveal(concluded);
        },
        _ => {},
    }
}

/// Whatever a run is told, it goes on waiting for what its task can lead to,
/// asking for just that, and from the choice on it is about a configured
/// profile.
pub proof fn law_consistent(session: SessionModel, reply: ReplyModel)
    requires
        consistent(session),
    ensures
        consistent(next(session, reply)),
        well_placed(session),
{
    match reply {
        ReplyModel::File(read) => lemma_file_told(session, read),
        ReplyModel::Ran(run) => lemma_run_told(session, run),
        ReplyModel::Saved(_) => {
            reveal(save_told);
        },
        ReplyModel::Chosen(choice) => {
            if session.step is Choosing {
                reveal(choice_told);
                match choice {
                    Ok(index) => if index < offered_profiles(session).len() {
                        let profile = offered_profiles(session)[index as int];
                        law_listing(
                            session.profiles,
                            session.state,
                            profile_in_effect(session.environment, session.state),
                        );
                        assert(offered_profiles(session).contains(profile));
                        lemma_activated(session, profile);
                    },
                    Err(_) => {},
                }
            }
        },
    }
}

/// A run begins by waiting for what its task can lead to.
pub proof fn law_begins_consistent(session: SessionModel)
    ensures
        consistent(begun(session)),
        consistent(discovering(session)),
        consistent(loading(session)),
{
    reveal(begun);
    reveal(discovering);
    reveal(loading);
}

/// A switch is remembered only once AWS has accepted the profile's credentials,
/// and what is written is that the profile was chosen.
pub proof fn law_saved_after_check(session: SessionModel, reply: ReplyModel)
    requires
        consistent(session),
        next(session, reply).step is Saving,
        !(session.step is Saving),
    ensures
        session.step is Validating,
        reply is Ran,
        caller_found(session.profile, session.options.verbose, reply->Ran_0) is Ok,
        next(session, reply).state == switched(session.state, session.profile),
{
    match reply {
        ReplyModel::File(read) => lemma_file_told(session, read),
        ReplyModel::Ran(run) => {
            lemma_run_told(session, run);
            lemma_caller_told_if(session, run);
            reveal(run_told);
        },
        ReplyModel::Saved(_) => {
            reveal(save_told);
        },
        ReplyModel::Chosen(choice) => {
            reveal(choice_told);
            reveal(activated);
            reveal(validating);
        },
    }
}

proof fn lemma_caller_told_if(session: SessionModel, run: Result<OutputModel, FailureModel>)
    requires
        consistent(session),
    ensures
        session.step is Validating && caller_told(session, run).step is Saving ==> {
            &&& caller_found(session.profile, session.options.verbose, run) is Ok
            &&& caller_told(session, run).state == switched(session.state, session.profile)
        },
{
    if session.step is Validating {
        lemma_caller_told(session, run);
    }
}

/// Once a switch has come to the login of the registry clients, it succeeds,
/// whatever becomes of the logins.
pub proof fn law_switch_outlives_logins(session: SessionModel, reply: ReplyModel)
    requires
        consistent(session),
        is_switch(session.task),
        session.step is Account || session.step is Password || session.step is HelmSettings
            || session.step is ClientConfig || session.step is Helper || session.step is FirstLogin
            || session.step is Logout || session.step is SecondLogin,
        next(session, reply).step is Finished,
    ensures
        next(session, reply).action == ActionModel::Finish(Ok(())),
{
    match reply {
        ReplyModel::File(read) => {
            reveal(file_told);
            if session.step is ClientConfig {
                lemma_client_told(session, read);
            }
        },
        ReplyModel::Ran(run) => {
            reveal(run_told);
            lemma_login_run_told(session, run);
        },
        _ => {},
    }
}

/// Helm is logged out of a registry only where its login failed because the
/// Keychain held the item already.
pub proof fn law_logout_after_duplicate(session: SessionModel, reply: ReplyModel)
    requires
        consistent(session),
        next(session, reply).step is Logout,
        !(session.step is Logout),
    ensures
        session.step is FirstLogin,
        client_in(session) is Helm,
        reply matches ReplyModel::Ran(run) && run matches Ok(output) && !output.success
            && is_duplicate(output),
{
    match reply {
        ReplyModel::File(read) => lemma_file_told(session, read),
        ReplyModel::Ran(run) => {
            lemma_run_told(session, run);
            reveal(run_told);
            reveal(first_told);
            assert forall|outcome: Result<RegistryLoginMethod, Seq<char>>| at_login_start(
                (#[trigger] login_ended(session, outcome)).step,
            ) by {
                if is_turn(session) {
                    lemma_login_ended(session, outcome);
                }
            }
        },
        ReplyModel::Saved(_) => {
            reveal(save_told);
        },
        ReplyModel::Chosen(choice) => {
            reveal(choice_told);
            reveal(activated);
            reveal(validating);
        },
    }
}

/// Where a client's configuration names the helper that asks AWS itself, the
/// client is not sent a password for that registry: the helper is tried under
/// the profile, or, where it is missing, the login has failed.
pub proof fn law_helper_gets_no_password(session: SessionModel, read: FileModel)
    requires
        session.step is ClientConfig,
        helper_read(awaited(session.action), read, registry_in(session)) == Ok::<_, Seq<char>>(
            Some("ecr-login"@),
        ),
    ensures
        session.environment.credential_helper ==> next(session, ReplyModel::File(read))
            == running(
            session,
            Step::Helper,
            helper_run(session.profile, registry_in(session)),
        ),
        !session.environment.credential_helper ==> next(session, ReplyModel::File(read))
            == login_ended(
            session,
            Err(missing_message(HELPER@)),
        ),
{
    reveal(file_told);
    reveal(client_told);
}

/// No call that the AWS CLI makes under a profile sees static credentials, which
/// would override the profile.
pub proof fn law_profile_not_overridden(session: SessionModel)
    requires
        consistent(session),
        session.step is Validating || session.step is SigningIn || session.step is Account
            || session.step is Password,
    ensures
        session.action matches ActionModel::Run(invocation) && is_under_profile(
            invocation,
            session.profile,
        ),
{
    if session.step is SigningIn {
        let args = choose|args: Seq<Seq<char>>|
            session.action == ActionModel::Run(#[trigger] sign_in_run(session.profile, args));
        assert(session.action == ActionModel::Run(sign_in_run(session.profile, args)));
    }
}

/// A call of the AWS CLI for a profile, without static credentials.
pub open spec fn is_under_profile(invocation: InvocationModel, profile: Seq<char>) -> bool {
    let args = invocation.args;
    &&& invocation.program == "aws"@
    &&& args.len() >= 2
    &&& args[args.len() - 2] == "--profile"@
    &&& args[args.len() - 1] == profile
    &&& invocation.unset == static_credentials()
}

/// A run that is over stays as it is, and so does one that is told of something
/// it did not ask for.
pub proof fn law_unasked_reply(session: SessionModel, reply: ReplyModel)
    requires
        consistent(session),
        !answers(session.action, reply),
    ensures
        next(session, reply) == session,
{
    match reply {
        ReplyModel::File(_) => {
            reveal(file_told);
        },
        ReplyModel::Ran(_) => {
            reveal(run_told);
        },
        _ => {},
    }
}

/// The reply is to what was asked for.
pub open spec fn answers(action: ActionModel, reply: ReplyModel) -> bool {
    match reply {
        ReplyModel::File(_) => action is Read,
        ReplyModel::Ran(_) => action is Run,
        ReplyModel::Saved(_) => action is Save,
        ReplyModel::Chosen(_) => action is Ask,
    }
}

/// Where the login to registries is not wanted, none is contacted: the run is
/// over.
pub proof fn law_no_ecr(session: SessionModel)
    requires
        !wants_ecr(session.options, session.environment),
    ensures
        logins_begun(session).step is Finished,
{
    reveal(logins_begun);
    reveal(logins_over);
}

/// A login that failed keeps none of the others from being tried, and its
/// message is kept.
pub proof fn law_logins_go_on(session: SessionModel, error: Seq<char>)
    requires
        is_turn(session),
        session.client + 1 < session.clients.len() || session.registry + 1
            < session.registries.len(),
    ensures
        !(login_ended(session, Err(error)).step is Finished),
        login_ended(session, Err(error)).failures == session.failures.push(error),
{
    reveal(login_ended);
    reveal(advanced);
    reveal(login_begun);
    reveal(client_located);
    reveal(password_sent);
}

} // verus!
