//! The login of the registry clients, as a part of a run.
use crate::command::{
    aws, aws_run, bytes_of, plain, plain_run, run_of, verdict, CommandOutput, FailureModel,
    FileModel, FileRead, OutputModel, RunFailure,
};
use crate::paths::{helm_registry_config_path, non_empty};
use crate::registry::{
    account_found, asks_aws, cleanup_verdict, clear_helm_registry_credential, client_config,
    credential_helper, discover_account_registry, ecr_password, ecr_registries,
    finish_credential_helper, finish_registry_logins, finish_second_login, first_login, helper_call,
    helper_read, helper_verdict, installed_clients, installed_registry_clients, is_client,
    login_note, login_of, login_run, logins_verdict, logout_run, password_found,
    password_registry_login, print_registry_login, registries_wanted, retry_helm_login,
    run_password_registry_login, second_login, uses_ecr_credential_helper,
    validate_ecr_credential_helper, Login, LoginModel, RegistryClient, RegistryLoginMethod,
};
use crate::report::{login_lines, print_ecr_warning, print_login, warning_lines};
use crate::session::{
    awaited, finished, reading, running, saying, Session, SessionModel, Step, Task, TaskModel,
};
use crate::settings::{
    no_line, one_line, progress_line, should_authenticate_ecr, trace_line, wants_ecr, Line,
    LineModel,
};
use crate::shell::{print_shell_tip, tip_lines};
use crate::text::{copied_or, or_else, slices};
use vstd::prelude::*;

verus! {

/// The run switches to a profile.
pub open spec fn is_switch(task: TaskModel) -> bool {
    task is Switch || task is Previous
}

/// The arguments that ask the AWS CLI for the caller's account.
pub open spec fn account_arguments() -> Seq<Seq<char>> {
    seq!["sts"@, "get-caller-identity"@, "--query"@, "Account"@, "--output"@, "text"@]
}

/// The arguments that ask the AWS CLI for a password for registries.
pub open spec fn password_arguments(region: Seq<char>) -> Seq<Seq<char>> {
    seq!["ecr"@, "get-login-password"@, "--region"@, region]
}

/// The registry that is logged in to.
pub open spec fn registry_in(session: SessionModel) -> Seq<char> {
    if session.registry < session.registries.len() {
        session.registries[session.registry as int]
    } else {
        Seq::empty()
    }
}

/// The client that logs in.
pub open spec fn client_in(session: SessionModel) -> RegistryClient {
    if session.client < session.clients.len() {
        session.clients[session.client as int]
    } else {
        RegistryClient::Docker
    }
}

/// What a program left behind, if it ran.
pub open spec fn output_in(run: Result<OutputModel, FailureModel>) -> Option<OutputModel> {
    match run {
        Ok(output) => Some(output),
        Err(_) => None,
    }
}

/// The login of the clients is over. A switch has succeeded all the same; of a
/// login it is the result.
#[verifier::opaque]
pub open spec fn logins_over(session: SessionModel, result: Result<(), Seq<char>>) -> SessionModel {
    if is_switch(session.task) {
        let warned = match result {
            Ok(_) => session,
            Err(error) => saying(session, warning_lines(error, session.environment)),
        };
        finished(saying(warned, tip_lines(session.options, session.environment)), Ok(()))
    } else {
        match result {
            Ok(_) => finished(
                saying(
                    session,
                    login_lines(
                        session.profile,
                        session.identity,
                        session.options,
                        session.environment,
                    ),
                ),
                Ok(()),
            ),
            Err(error) => finished(session, Err(error)),
        }
    }
}

/// The clients are logged in, if that is wanted.
#[verifier::opaque]
pub open spec fn logins_begun(session: SessionModel) -> SessionModel {
    if wants_ecr(session.options, session.environment) {
        registries_sought(session)
    } else {
        logins_over(session, Ok(()))
    }
}

/// The registries are found out.
#[verifier::opaque]
pub open spec fn registries_sought(session: SessionModel) -> SessionModel {
    match registries_wanted(session.config, session.options, session.environment) {
        Some(registries) => registries_known(SessionModel { registries, ..session }),
        None => running(
            saying(
                session,
                trace_line(session.options, session.environment, "aws"@, account_arguments()),
            ),
            Step::Account,
            aws_run(session.profile, account_arguments()),
        ),
    }
}

/// The registries are known: a password for them is asked for.
#[verifier::opaque]
pub open spec fn registries_known(session: SessionModel) -> SessionModel {
    if session.registries.len() == 0 {
        logins_over(session, Ok(()))
    } else {
        match installed_clients(session.environment.docker, session.environment.helm) {
            Err(error) => logins_over(session, Err(error)),
            Ok(clients) => match session.config.region {
                None => logins_over(
                    session,
                    Err("profile '"@ + session.profile + "' has no region; skipped ECR login"@),
                ),
                Some(region) => running(
                    saying(
                        saying(
                            SessionModel { clients, ..session },
                            progress_line(
                                session.options,
                                session.environment,
                                "Requesting ECR credentials in "@ + region + "…"@,
                            ),
                        ),
                        trace_line(
                            session.options,
                            session.environment,
                            "aws"@,
                            password_arguments(region),
                        ),
                    ),
                    Step::Password,
                    aws_run(session.profile, password_arguments(region)),
                ),
            },
        }
    }
}

/// The account of the caller was asked for.
#[verifier::opaque]
pub open spec fn account_told(
    session: SessionModel,
    run: Result<OutputModel, FailureModel>,
) -> SessionModel {
    match account_found(
        session.profile,
        or_else(session.config.region, Seq::empty()),
        session.options.verbose,
        run,
    ) {
        Ok(registries) => registries_known(SessionModel { registries, ..session }),
        Err(error) => logins_over(session, Err(error)),
    }
}

/// The password was asked for.
#[verifier::opaque]
pub open spec fn password_told(
    session: SessionModel,
    run: Result<OutputModel, FailureModel>,
) -> SessionModel {
    match password_found(session.profile, session.options.verbose, run) {
        Ok(password) => login_begun(
            SessionModel { password, failures: Seq::empty(), registry: 0, client: 0, ..session },
        ),
        Err(error) => logins_over(session, Err(error)),
    }
}

/// The next login begins, if there is one left: the client's configuration is
/// looked for.
#[verifier::opaque]
pub open spec fn login_begun(session: SessionModel) -> SessionModel {
    let places = session.environment.places;
    if session.registry >= session.registries.len() {
        logins_over(session, logins_verdict(session.failures))
    } else if client_in(session) is Helm && non_empty(places.helm_registry_config) is None {
        running(session, Step::HelmSettings, plain_run("helm"@, seq!["env"@]))
    } else {
        client_located(session, client_config(client_in(session), places, None))
    }
}

/// The client's configuration is read, if it is known where it is.
#[verifier::opaque]
pub open spec fn client_located(session: SessionModel, path: Option<Seq<u8>>) -> SessionModel {
    match path {
        Some(path) => reading(session, Step::ClientConfig, path),
        None => password_sent(session),
    }
}

/// The client logs in with the password.
#[verifier::opaque]
pub open spec fn password_sent(session: SessionModel) -> SessionModel {
    running(
        session,
        Step::FirstLogin,
        login_run(client_in(session), registry_in(session), session.password),
    )
}

/// Helm was asked for its settings.
#[verifier::opaque]
pub open spec fn settings_told(
    session: SessionModel,
    run: Result<OutputModel, FailureModel>,
) -> SessionModel {
    client_located(
        session,
        client_config(client_in(session), session.environment.places, output_in(run)),
    )
}

/// The client's configuration was read: where it names the helper that asks AWS
/// itself, that helper is tried, and else the client logs in with the password.
#[verifier::opaque]
pub open spec fn client_told(session: SessionModel, read: FileModel) -> SessionModel {
    match helper_read(awaited(session.action), read, registry_in(session)) {
        Ok(helper) => if asks_aws(helper) {
            match helper_call(
                session.profile,
                registry_in(session),
                session.environment.credential_helper,
            ) {
                Ok(invocation) => running(session, Step::Helper, invocation),
                Err(error) => login_ended(session, Err(error)),
            }
        } else {
            password_sent(session)
        },
        Err(error) => login_ended(session, Err(error)),
    }
}

/// The helper was tried.
#[verifier::opaque]
pub open spec fn helper_told(
    session: SessionModel,
    run: Result<OutputModel, FailureModel>,
) -> SessionModel {
    match helper_verdict(registry_in(session), run) {
        Ok(_) => login_ended(session, Ok(RegistryLoginMethod::EcrCredentialHelper)),
        Err(error) => login_ended(session, Err(error)),
    }
}

/// The client has tried to log in.
#[verifier::opaque]
pub open spec fn first_told(
    session: SessionModel,
    run: Result<OutputModel, FailureModel>,
) -> SessionModel {
    match first_login(client_in(session), registry_in(session), run) {
        LoginModel::Over(outcome) => login_ended(session, outcome),
        LoginModel::Again(login_error) => running(
            SessionModel { login_error, ..session },
            Step::Logout,
            logout_run(registry_in(session)),
        ),
    }
}

/// Helm was logged out.
#[verifier::opaque]
pub open spec fn logout_told(
    session: SessionModel,
    run: Result<OutputModel, FailureModel>,
) -> SessionModel {
    match cleanup_verdict(registry_in(session), session.login_error, run) {
        Ok(_) => running(
            session,
            Step::SecondLogin,
            login_run(client_in(session), registry_in(session), session.password),
        ),
        Err(error) => login_ended(session, Err(error)),
    }
}

/// The client has tried to log in once more.
#[verifier::opaque]
pub open spec fn second_told(
    session: SessionModel,
    run: Result<OutputModel, FailureModel>,
) -> SessionModel {
    login_ended(session, second_login(client_in(session), registry_in(session), run))
}

/// One login is over: it is noted, or its failure is kept for the end.
#[verifier::opaque]
pub open spec fn login_ended(
    session: SessionModel,
    outcome: Result<RegistryLoginMethod, Seq<char>>,
) -> SessionModel {
    match outcome {
        Ok(method) => advanced(
            saying(
                session,
                if session.options.quiet || session.options.json {
                    Seq::empty()
                } else {
                    seq![
                        LineModel::Note(
                            login_note(
                                client_in(session),
                                registry_in(session),
                                method,
                                session.environment.color,
                            ),
                        ),
                    ]
                },
            ),
        ),
        Err(error) => advanced(
            SessionModel { failures: session.failures.push(error), ..session },
        ),
    }
}

/// The next client of the registry has its turn, or the first of the next
/// registry.
#[verifier::opaque]
pub open spec fn advanced(session: SessionModel) -> SessionModel {
    if session.client + 1 < session.clients.len() {
        login_begun(SessionModel { client: session.client + 1, ..session })
    } else {
        login_begun(
            SessionModel {
                client: 0,
                registry: if session.registry < session.registries.len() {
                    session.registry + 1
                } else {
                    session.registry
                },
                ..session
            },
        )
    }
}

fn switches(task: &Task) -> (result: bool)
    ensures
        result == is_switch(task@),
{
    match task {
        Task::Switch(_) => true,
        Task::Previous => true,
        _ => false,
    }
}

/// Ends the login of the clients.
pub fn finish_logins(session: &mut Session, result: Result<(), String>)
    ensures
        final(session)@ == logins_over(old(session)@, verdict(result)),
{
    proof {
        reveal(logins_over);
    }
    if switches(&session.task) {
        match result {
            Ok(_) => {},
            Err(error) => {
                let warning = print_ecr_warning(error.as_str(), &session.environment);
                session.say(warning);
            },
        }
        let tip = print_shell_tip(&session.options, &session.environment);
        session.say(tip);
        session.finish(Ok(()));
    } else {
        match result {
            Ok(_) => {
                let receipt = print_login(
                    session.profile.as_str(),
                    &session.identity,
                    &session.options,
                    &session.environment,
                );
                session.say(receipt);
                session.finish(Ok(()));
            },
            Err(error) => {
                session.finish(Err(error));
            },
        }
    }
}

/// Logs the clients in, if that is wanted.
pub fn login_ecr_if_enabled(session: &mut Session)
    ensures
        final(session)@ == logins_begun(old(session)@),
{
    proof {
        reveal(logins_begun);
    }
    if should_authenticate_ecr(true, &session.options, &session.environment) {
        login_ecr(session);
    } else {
        finish_logins(session, Ok(()));
    }
}

/// Finds the registries out.
pub fn login_ecr(session: &mut Session)
    ensures
        final(session)@ == registries_sought(old(session)@),
{
    proof {
        reveal(registries_sought);
    }
    match ecr_registries(&session.config, &session.options, &session.environment) {
        Some(registries) => {
            session.registries = registries;
            login_ecr_registries(session);
        },
        None => {
            let args: [&str; 6] = [
                "sts",
                "get-caller-identity",
                "--query",
                "Account",
                "--output",
                "text",
            ];
            assert(slices(args@) =~= account_arguments());
            let note = session.options.trace("aws", args.as_slice(), &session.environment);
            let invocation = aws(session.profile.as_str(), args.as_slice());
            session.say(note);
            session.run(Step::Account, invocation);
        },
    }
}

/// Asks for a password, once the registries are known.
pub fn login_ecr_registries(session: &mut Session)
    ensures
        final(session)@ == registries_known(old(session)@),
{
    proof {
        reveal(registries_known);
    }
    if session.registries.len() == 0 {
        finish_logins(session, Ok(()));
        return ;
    }
    match installed_registry_clients(session.environment.docker, session.environment.helm) {
        Err(error) => {
            finish_logins(session, Err(error));
        },
        Ok(clients) => match &session.config.region {
            None => {
                let mut message = "profile '".to_owned();
                message.append(session.profile.as_str());
                message.append("' has no region; skipped ECR login");
                finish_logins(session, Err(message));
            },
            Some(region) => {
                let args: [&str; 4] = ["ecr", "get-login-password", "--region", region.as_str()];
                assert(slices(args@) =~= password_arguments(region@));
                let mut message = "Requesting ECR credentials in ".to_owned();
                message.append(region.as_str());
                message.append("…");
                let progress = session.options.progress(message.as_str(), &session.environment);
                let note = session.options.trace("aws", args.as_slice(), &session.environment);
                let invocation = aws(session.profile.as_str(), args.as_slice());
                session.clients = clients;
                session.say(progress);
                session.say(note);
                session.run(Step::Password, invocation);
            },
        },
    }
}

/// Takes the account of the caller over.
pub fn take_account(session: &mut Session, run: &Result<CommandOutput, RunFailure>)
    ensures
        final(session)@ == account_told(old(session)@, run_of(*run)),
{
    proof {
        reveal(account_told);
    }
    proof {
        reveal_strlit("");
    }
    assert(""@ =~= Seq::empty());
    let region = copied_or(&session.config.region, "");
    match discover_account_registry(
        session.profile.as_str(),
        region.as_str(),
        session.options.verbose,
        run,
    ) {
        Ok(registries) => {
            session.registries = registries;
            login_ecr_registries(session);
        },
        Err(error) => {
            finish_logins(session, Err(error));
        },
    }
}

/// Takes the password over, and begins the first login.
pub fn take_password(session: &mut Session, run: &Result<CommandOutput, RunFailure>)
    ensures
        final(session)@ == password_told(old(session)@, run_of(*run)),
{
    proof {
        reveal(password_told);
    }
    match ecr_password(session.profile.as_str(), session.options.verbose, run) {
        Ok(password) => {
            session.password = password;
            session.failures = Vec::new();
            assert(session@.failures =~= Seq::empty());
            session.registry = 0;
            session.client = 0;
            registry_login(session);
        },
        Err(error) => {
            finish_logins(session, Err(error));
        },
    }
}

fn current_registry(session: &Session) -> (result: String)
    ensures
        result@ == registry_in(session@),
{
    if session.registry < session.registries.len() {
        session.registries[session.registry].clone()
    } else {
        String::new()
    }
}

fn current_client(session: &Session) -> (result: RegistryClient)
    ensures
        result == client_in(session@),
{
    if session.client < session.clients.len() {
        session.clients[session.client]
    } else {
        RegistryClient::Docker
    }
}

/// Begins the next login, if there is one left.
pub fn registry_login(session: &mut Session)
    ensures
        final(session)@ == login_begun(old(session)@),
{
    proof {
        reveal(login_begun);
    }
    if session.registry >= session.registries.len() {
        let result = finish_registry_logins(session.failures.as_slice());
        finish_logins(session, result);
        return ;
    }
    let client = current_client(session);
    let known = match helm_registry_config_path(&session.environment.places) {
        Some(_) => true,
        None => false,
    };
    if is_client(client, RegistryClient::Helm) && !known {
        let args: [&str; 1] = ["env"];
        assert(slices(args@) =~= seq!["env"@]);
        let invocation = plain("helm", args.as_slice());
        session.run(Step::HelmSettings, invocation);
    } else {
        let path = client.config_path(&session.environment.places, None);
        locate_client(session, path);
    }
}

fn locate_client(session: &mut Session, path: Option<Vec<u8>>)
    ensures
        final(session)@ == client_located(old(session)@, bytes_of(path)),
{
    proof {
        reveal(client_located);
    }
    match path {
        Some(path) => {
            session.read(Step::ClientConfig, path);
        },
        None => {
            send_password(session);
        },
    }
}

fn send_password(session: &mut Session)
    ensures
        final(session)@ == password_sent(old(session)@),
{
    proof {
        reveal(password_sent);
    }
    let client = current_client(session);
    let registry = current_registry(session);
    let invocation = run_password_registry_login(
        client,
        registry.as_str(),
        session.password.as_slice(),
    );
    session.run(Step::FirstLogin, invocation);
}

/// Takes Helm's settings over.
pub fn take_settings(session: &mut Session, run: &Result<CommandOutput, RunFailure>)
    ensures
        final(session)@ == settings_told(old(session)@, run_of(*run)),
{
    proof {
        reveal(settings_told);
    }
    let client = current_client(session);
    let output = match run {
        Ok(output) => Some(output),
        Err(_) => None,
    };
    let path = client.config_path(&session.environment.places, output);
    locate_client(session, path);
}

/// Takes the client's configuration over.
pub fn take_client_config(session: &mut Session, read: &FileRead)
    ensures
        final(session)@ == client_told(old(session)@, read@),
{
    proof {
        reveal(client_told);
    }
    let registry = current_registry(session);
    let path = session.awaited_path();
    match credential_helper(path.as_slice(), read, registry.as_str()) {
        Ok(helper) => {
            if uses_ecr_credential_helper(&helper) {
                match validate_ecr_credential_helper(
                    session.profile.as_str(),
                    registry.as_str(),
                    session.environment.credential_helper,
                ) {
                    Ok(invocation) => {
                        session.run(Step::Helper, invocation);
                    },
                    Err(error) => {
                        registry_failures(session, Err(error));
                    },
                }
            } else {
                send_password(session);
            }
        },
        Err(error) => {
            registry_failures(session, Err(error));
        },
    }
}

/// Takes the credential helper's answer over.
pub fn take_helper(session: &mut Session, run: &Result<CommandOutput, RunFailure>)
    ensures
        final(session)@ == helper_told(old(session)@, run_of(*run)),
{
    proof {
        reveal(helper_told);
    }
    let registry = current_registry(session);
    match finish_credential_helper(registry.as_str(), run) {
        Ok(_) => {
            registry_failures(session, Ok(RegistryLoginMethod::EcrCredentialHelper));
        },
        Err(error) => {
            registry_failures(session, Err(error));
        },
    }
}

/// Takes the first login over.
pub fn take_first_login(session: &mut Session, run: &Result<CommandOutput, RunFailure>)
    ensures
        final(session)@ == first_told(old(session)@, run_of(*run)),
{
    proof {
        reveal(first_told);
    }
    let client = current_client(session);
    let registry = current_registry(session);
    match password_registry_login(client, registry.as_str(), run) {
        Login::Over(outcome) => {
            registry_failures(session, outcome);
        },
        Login::Again(error) => {
            session.login_error = error;
            let invocation = clear_helm_registry_credential(registry.as_str());
            session.run(Step::Logout, invocation);
        },
    }
}

/// Takes the logout over.
pub fn take_logout(session: &mut Session, run: &Result<CommandOutput, RunFailure>)
    ensures
        final(session)@ == logout_told(old(session)@, run_of(*run)),
{
    proof {
        reveal(logout_told);
    }
    let client = current_client(session);
    let registry = current_registry(session);
    match retry_helm_login(registry.as_str(), session.login_error.as_str(), run) {
        Ok(_) => {
            let invocation = run_password_registry_login(
                client,
                registry.as_str(),
                session.password.as_slice(),
            );
            session.run(Step::SecondLogin, invocation);
        },
        Err(error) => {
            registry_failures(session, Err(error));
        },
    }
}

/// Takes the second login over.
pub fn take_second_login(session: &mut Session, run: &Result<CommandOutput, RunFailure>)
    ensures
        final(session)@ == second_told(old(session)@, run_of(*run)),
{
    proof {
        reveal(second_told);
    }
    let client = current_client(session);
    let registry = current_registry(session);
    let outcome = finish_second_login(client, registry.as_str(), run);
    registry_failures(session, outcome);
}

/// Notes a login, or keeps its failure for the end, and goes on to the next.
pub fn registry_failures(session: &mut Session, outcome: Result<RegistryLoginMethod, String>)
    ensures
        final(session)@ == login_ended(old(session)@, login_of(outcome)),
{
    proof {
        reveal(login_ended);
    }
    match outcome {
        Ok(method) => {
            let client = current_client(session);
            let registry = current_registry(session);
            let note = if session.options.quiet || session.options.json {
                no_line()
            } else {
                one_line(
                    Line::Note(
                        print_registry_login(
                            client,
                            registry.as_str(),
                            method,
                            session.environment.color,
                        ),
                    ),
                )
            };
            session.say(note);
        },
        Err(error) => {
            let ghost before = session@.failures;
            session.failures.push(error);
            assert(session@.failures =~= before.push(error@));
        },
    }
    registry_login_failures(session);
}

/// Goes on to the next client of the registry, or to the first of the next
/// registry.
pub fn registry_login_failures(session: &mut Session)
    ensures
        final(session)@ == advanced(old(session)@),
{
    proof {
        reveal(advanced);
    }
    if session.client < session.clients.len() && session.client + 1 < session.clients.len() {
        session.client = session.client + 1;
    } else {
        session.client = 0;
        if session.registry < session.registries.len() {
            session.registry = session.registry + 1;
        }
    }
    registry_login(session);
}

} // verus!
