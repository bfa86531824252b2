//! What every run prints, whatever it is told.
use crate::command::{FailureModel, FileModel, OutputModel};
use crate::config::profile_read;
use crate::credentials::{
    after_check, caller_found, identity_arguments, login_notice, refresh_notice, renewal,
    CredentialCheckModel,
};
use crate::doctor::{all_checks, checks_lines, cli_version, diagnosis_of, no_diagnosis, CheckModel};
use crate::flow::{
    activated, caller_told, choice_config_told, choice_told, concluded, context_of,
    current_informed, diagnosed, doctor_helper_told, doctor_informed, file_told, first_check_told,
    informed, list_informed, listed, listing_told, loading, login_informed, next, offered_profiles,
    previous_informed, profiles_told, receipted, region_told, remembering, report_config_told,
    run_told, save_told, scan_told, sign_in_config_told, sign_in_told, state_told, status_informed,
    switch_informed, validating, version_told, versioned,
};
use crate::json::{rendered, Tree};
use crate::login::{
    account_arguments, account_told, advanced, client_in, client_located, client_told, first_told,
    helper_told, is_switch, login_begun, login_ended, logins_begun, logins_over, logout_told,
    output_in, password_arguments, password_sent, password_told, registries_known,
    registries_sought, registry_in, second_told, settings_told,
};
use crate::registry::{
    installed_clients, login_note, logins_verdict, registries_wanted, RegistryLoginMethod,
};
use crate::report::{
    activation_lines, current_lines, listed_lines, login_lines, status_lines, status_of,
    warning_lines,
};
use crate::session::{awaited, saying, ReplyModel, SessionModel, Step, TaskModel};
use crate::settings::{profile_in_effect, progress_line, trace_line, EnvironmentModel, LineModel};
use crate::shell::tip_lines;
use crate::state::state_read;
use vstd::prelude::*;

verus! {

/// The line belongs to the warning that the login to the registries failed.
pub open spec fn is_warning(line: LineModel, environment: EnvironmentModel) -> bool {
    exists|error: Seq<char>| #[trigger] warning_lines(error, environment).contains(line)
}

/// The line is output in JSON, or no output.
pub open spec fn is_json(line: LineModel) -> bool {
    match line {
        LineModel::Out(text) => exists|tree: Tree| text == #[trigger] rendered(tree),
        _ => true,
    }
}

/// The task prints a result even where the user asked for quiet.
pub open spec fn is_query(task: TaskModel) -> bool {
    task is List || task is Current
}

/// A line that a run may print: where JSON was asked for, no other output; where
/// quiet was asked for, and neither JSON nor to see more, nothing but a warning
/// or the result of a query.
pub open spec fn proper(session: SessionModel, line: LineModel) -> bool {
    let options = session.options;
    &&& options.json ==> is_json(line)
    &&& options.quiet && !options.json && !options.verbose && !is_query(session.task) ==> is_warning(
        line,
        session.environment,
    )
}

pub open spec fn all_proper(session: SessionModel, lines: Seq<LineModel>) -> bool {
    forall|i: int| 0 <= i < lines.len() ==> proper(session, #[trigger] lines[i])
}

/// One run goes on to another state of itself: it goes by the same options and
/// environment, it is for the same task, and what it has printed stands.
pub open spec fn follows(before: SessionModel, after: SessionModel) -> bool {
    &&& after.options == before.options
    &&& after.environment == before.environment
    &&& after.task == before.task
    &&& before.said.len() <= after.said.len()
    &&& forall|i: int| 0 <= i < before.said.len() ==> #[trigger] after.said[i] == before.said[i]
    &&& forall|i: int|
        before.said.len() <= i < after.said.len() ==> proper(before, #[trigger] after.said[i])
}

proof fn lemma_chain(first: SessionModel, second: SessionModel, third: SessionModel)
    requires
        follows(first, second),
        follows(second, third),
    ensures
        follows(first, third),
{
    assert forall|i: int| 0 <= i < first.said.len() implies #[trigger] third.said[i]
        == first.said[i] by {
        assert(second.said[i] == first.said[i]);
    }
    assert forall|i: int| first.said.len() <= i < third.said.len() implies proper(
        first,
        #[trigger] third.said[i],
    ) by {
        if i < second.said.len() {
            assert(proper(first, second.said[i]));
        } else {
            assert(proper(second, third.said[i]));
        }
    }
}

proof fn lemma_say(session: SessionModel, lines: Seq<LineModel>)
    requires
        all_proper(session, lines),
    ensures
        follows(session, saying(session, lines)),
{
    let after = saying(session, lines);
    assert forall|i: int| session.said.len() <= i < after.said.len() implies proper(
        session,
        #[trigger] after.said[i],
    ) by {
        assert(after.said[i] == lines[i - session.said.len()]);
    }
}

proof fn lemma_progress(session: SessionModel, message: Seq<char>)
    ensures
        follows(
            session,
            saying(session, progress_line(session.options, session.environment, message)),
        ),
{
    lemma_say(session, progress_line(session.options, session.environment, message));
}

proof fn lemma_trace(session: SessionModel, args: Seq<Seq<char>>)
    ensures
        follows(
            session,
            saying(session, trace_line(session.options, session.environment, "aws"@, args)),
        ),
{
    lemma_say(session, trace_line(session.options, session.environment, "aws"@, args));
}

proof fn lemma_logins_over(session: SessionModel, result: Result<(), Seq<char>>)
    ensures
        follows(session, logins_over(session, result)),
{
    reveal(logins_over);
    let environment = session.environment;
    if is_switch(session.task) {
        let warned = match result {
            Ok(_) => session,
            Err(error) => saying(session, warning_lines(error, environment)),
        };
        if result is Err {
            let error = result->Err_0;
            let lines = warning_lines(error, environment);
            assert forall|i: int| 0 <= i < lines.len() implies proper(
                session,
                #[trigger] lines[i],
            ) by {
                assert(warning_lines(error, environment).contains(lines[i]));
                assert(is_warning(lines[i], environment));
            }
            lemma_say(session, lines);
        }
        lemma_say(warned, tip_lines(session.options, environment));
        lemma_chain(session, warned, saying(warned, tip_lines(session.options, environment)));
    } else {
        lemma_say(
            session,
            login_lines(session.profile, session.identity, session.options, environment),
        );
    }
}

proof fn lemma_registries_known(session: SessionModel)
    ensures
        follows(session, registries_known(session)),
{
    reveal(registries_known);
    lemma_logins_over(session, Ok(()));
    lemma_logins_over(
        session,
        Err("profile '"@ + session.profile + "' has no region; skipped ECR login"@),
    );
    match installed_clients(session.environment.docker, session.environment.helm) {
        Err(error) => lemma_logins_over(session, Err(error)),
        Ok(clients) => {
            if session.config.region is Some {
                let region = session.config.region->0;
                let ready = SessionModel { clients, ..session };
                let message = "Requesting ECR credentials in "@ + region + "…"@;
                let told = saying(
                    ready,
                    progress_line(session.options, session.environment, message),
                );
                lemma_progress(ready, message);
                lemma_trace(told, password_arguments(region));
                lemma_chain(
                    ready,
                    told,
                    saying(
                        told,
                        trace_line(
                            session.options,
                            session.environment,
                            "aws"@,
                            password_arguments(region),
                        ),
                    ),
                );
            }
        },
    }
}

proof fn lemma_logins_begun(session: SessionModel)
    ensures
        follows(session, logins_begun(session)),
{
    reveal(logins_begun);
    reveal(registries_sought);
    lemma_logins_over(session, Ok(()));
    match registries_wanted(session.config, session.options, session.environment) {
        Some(registries) => lemma_registries_known(SessionModel { registries, ..session }),
        None => lemma_trace(session, account_arguments()),
    }
}

proof fn lemma_login_begun(session: SessionModel)
    ensures
        follows(session, login_begun(session)),
{
    reveal(login_begun);
    reveal(client_located);
    reveal(password_sent);
    lemma_logins_over(session, logins_verdict(session.failures));
}

proof fn lemma_login_ended(
    session: SessionModel,
    outcome: Result<RegistryLoginMethod, Seq<char>>,
)
    ensures
        follows(session, login_ended(session, outcome)),
{
    reveal(login_ended);
    reveal(advanced);
    let noted = match outcome {
        Ok(method) => {
            let lines = if session.options.quiet || session.options.json {
                Seq::empty()
            } else {
                seq![
                    LineModel::Note(
                        login_note(
                            client_in(session),
                            registry_in(session),
                            method,
                            session.environment.color,
                        ),
                    ),
                ]
            };
            lemma_say(session, lines);
            saying(session, lines)
        },
        Err(error) => SessionModel { failures: session.failures.push(error), ..session },
    };
    let same = SessionModel { client: noted.client + 1, ..noted };
    let other = SessionModel {
        client: 0,
        registry: if noted.registry < noted.registries.len() {
            noted.registry + 1
        } else {
            noted.registry
        },
        ..noted
    };
    lemma_login_begun(same);
    lemma_login_begun(other);
    lemma_chain(session, noted, login_begun(same));
    lemma_chain(session, noted, login_begun(other));
}

/// While the clients log in, what was printed stands.
proof fn lemma_logins_told(
    session: SessionModel,
    run: Result<OutputModel, FailureModel>,
    read: FileModel,
)
    ensures
        follows(session, account_told(session, run)),
        follows(session, password_told(session, run)),
        follows(session, settings_told(session, run)),
        follows(session, client_told(session, read)),
        follows(session, helper_told(session, run)),
        follows(session, first_told(session, run)),
        follows(session, logout_told(session, run)),
        follows(session, second_told(session, run)),
{
    reveal(account_told);
    reveal(password_told);
    reveal(settings_told);
    reveal(client_told);
    reveal(helper_told);
    reveal(first_told);
    reveal(logout_told);
    reveal(second_told);
    reveal(client_located);
    reveal(password_sent);
    assert forall|error: Seq<char>| follows(session, #[trigger] logins_over(session, Err(error))) by {
        lemma_logins_over(session, Err(error));
    }
    assert forall|outcome: Result<RegistryLoginMethod, Seq<char>>|
        follows(session, #[trigger] login_ended(session, outcome)) by {
        lemma_login_ended(session, outcome);
    }
    assert forall|registries: Seq<Seq<char>>|
        follows(
            session,
            #[trigger] registries_known(SessionModel { registries, ..session }),
        ) by {
        lemma_registries_known(SessionModel { registries, ..session });
    }
    assert forall|password: Seq<u8>|
        follows(
            session,
            #[trigger] login_begun(
                SessionModel { password, failures: Seq::empty(), registry: 0, client: 0, ..session },
            ),
        ) by {
        lemma_login_begun(
            SessionModel { password, failures: Seq::empty(), registry: 0, client: 0, ..session },
        );
    }
}

proof fn lemma_validating(session: SessionModel)
    ensures
        follows(session, validating(session)),
{
    reveal(validating);
    let message = "Validating credentials for "@ + session.profile + "…"@;
    let told = saying(session, progress_line(session.options, session.environment, message));
    lemma_progress(session, message);
    lemma_trace(told, identity_arguments());
    lemma_chain(
        session,
        told,
        saying(
            told,
            trace_line(session.options, session.environment, "aws"@, identity_arguments()),
        ),
    );
}

proof fn lemma_activated(session: SessionModel, profile: Seq<char>)
    ensures
        follows(session, activated(session, profile)),
{
    reveal(activated);
    lemma_validating(SessionModel { profile, first_error: None, ..session });
}

proof fn lemma_concluded(session: SessionModel, helper: Option<CheckModel>)
    requires
        session.task is Doctor,
    ensures
        follows(session, concluded(session, helper)),
{
    reveal(concluded);
    let checks = all_checks(
        context_of(session),
        session.diagnosis,
        session.version,
        helper,
        session.environment,
    );
    lemma_say(session, checks_lines(checks, session.options, session.environment.color));
}

proof fn lemma_versioned(session: SessionModel)
    requires
        session.task is Doctor,
    ensures
        follows(session, versioned(session)),
{
    reveal(versioned);
    assert forall|helper: Option<CheckModel>|
        follows(session, #[trigger] concluded(session, helper)) by {
        lemma_concluded(session, helper);
    }
}

proof fn lemma_diagnosed(session: SessionModel)
    requires
        session.task is Doctor,
    ensures
        follows(session, diagnosed(session)),
{
    reveal(diagnosed);
    lemma_versioned(SessionModel { version: None, ..session });
}

proof fn lemma_listed(session: SessionModel, read: FileModel)
    requires
        session.task is List,
    ensures
        follows(session, listed(session, read)),
{
    reveal(listed);
    match listed_lines(
        offered_profiles(session),
        session.state,
        profile_in_effect(session.environment, session.state),
        session.options,
        session.environment,
        read,
    ) {
        Ok(lines) => lemma_say(session, lines),
        Err(_) => {},
    }
}

proof fn lemma_informed(session: SessionModel)
    ensures
        follows(session, informed(session)),
{
    reveal(informed);
    reveal(switch_informed);
    reveal(previous_informed);
    reveal(login_informed);
    reveal(status_informed);
    reveal(doctor_informed);
    reveal(list_informed);
    reveal(current_informed);
    assert forall|profile: Seq<char>|
        follows(session, #[trigger] activated(session, profile)) by {
        lemma_activated(session, profile);
    }
    match session.task {
        TaskModel::Doctor(_) => lemma_diagnosed(
            SessionModel { diagnosis: no_diagnosis(), ..session },
        ),
        TaskModel::List => lemma_listed(session, FileModel::Missing),
        TaskModel::Current => match current_lines(
            session.state,
            session.options,
            session.environment,
        ) {
            Ok(lines) => lemma_say(session, lines),
            Err(_) => {},
        },
        _ => {},
    }
}

proof fn lemma_first_check_told(session: SessionModel, check: CredentialCheckModel)
    ensures
        follows(session, first_check_told(session, check)),
{
    reveal(first_check_told);
    reveal(remembering);
    match check {
        CredentialCheckModel::Renew(error) => {
            lemma_say(
                SessionModel { first_error: Some(error), ..session },
                refresh_notice(session.profile, session.options, session.environment),
            );
        },
        _ => {},
    }
}

proof fn lemma_caller_told(session: SessionModel, run: Result<OutputModel, FailureModel>)
    ensures
        follows(session, caller_told(session, run)),
{
    reveal(caller_told);
    reveal(remembering);
    let caller = caller_found(session.profile, session.options.verbose, run);
    match session.task {
        TaskModel::Status(_) => match caller {
            Ok(identity) => {
                let known = SessionModel { identity, ..session };
                lemma_say(
                    known,
                    status_lines(
                        status_of(session.profile, session.config, identity, session.environment),
                        session.options,
                        session.environment.color,
                    ),
                );
            },
            Err(_) => {},
        },
        TaskModel::Doctor(_) => lemma_diagnosed(
            SessionModel { diagnosis: diagnosis_of(session.config, caller), ..session },
        ),
        _ => lemma_first_check_told(session, after_check(caller)),
    }
}

proof fn lemma_sign_in_config_told(session: SessionModel, read: FileModel)
    ensures
        follows(session, sign_in_config_told(session, read)),
{
    reveal(sign_in_config_told);
    match renewal(session.profile, read) {
        Ok(args) => {
            let notice = login_notice(session.profile, session.options, session.environment);
            let told = saying(session, notice);
            lemma_say(session, notice);
            lemma_trace(told, args);
            lemma_chain(
                session,
                told,
                saying(told, trace_line(session.options, session.environment, "aws"@, args)),
            );
        },
        Err(_) => {},
    }
}

proof fn lemma_region_told(session: SessionModel, read: FileModel)
    ensures
        follows(session, region_told(session, read)),
{
    reveal(region_told);
    reveal(receipted);
    match profile_read(read, session.profile) {
        Ok(config) => {
            let known = SessionModel { config, ..session };
            let lines = activation_lines(
                session.profile,
                session.identity,
                config,
                session.options,
                session.environment,
            );
            lemma_say(known, lines);
            lemma_logins_begun(known);
            lemma_logins_begun(saying(known, lines));
            lemma_chain(known, saying(known, lines), logins_begun(saying(known, lines)));
        },
        Err(_) => {},
    }
}

proof fn lemma_file_told(session: SessionModel, read: FileModel)
    requires
        session.step is ListConfig ==> session.task is List,
        session.step is DoctorHelper ==> session.task is Doctor,
    ensures
        follows(session, file_told(session, read)),
{
    reveal(file_told);
    match session.step {
        Step::ConfigScan => reveal(scan_told),
        Step::CredentialsScan => {
            reveal(profiles_told);
            reveal(loading);
        },
        Step::Loading => {
            reveal(state_told);
            match state_read(awaited(session.action), read) {
                Ok(state) => lemma_informed(SessionModel { state, ..session }),
                Err(_) => {},
            }
        },
        Step::ChoiceConfig => reveal(choice_config_told),
        Step::SignInConfig => lemma_sign_in_config_told(session, read),
        Step::RegionConfig => lemma_region_told(session, read),
        Step::ClientConfig => lemma_logins_told(session, Err(FailureModel::Input), read),
        Step::ListConfig => lemma_listed(session, read),
        Step::StatusConfig | Step::DoctorConfig => {
            reveal(report_config_told);
            match profile_read(read, session.profile) {
                Ok(config) => lemma_validating(SessionModel { config, ..session }),
                Err(_) => {},
            }
        },
        Step::DoctorHelper => {
            reveal(doctor_helper_told);
            assert forall|helper: Option<CheckModel>|
                follows(session, #[trigger] concluded(session, helper)) by {
                lemma_concluded(session, helper);
            }
        },
        _ => {},
    }
}

proof fn lemma_run_told(session: SessionModel, run: Result<OutputModel, FailureModel>)
    requires
        session.step is Version ==> session.task is Doctor,
    ensures
        follows(session, run_told(session, run)),
{
    reveal(run_told);
    lemma_logins_told(session, run, FileModel::Missing);
    match session.step {
        Step::Listing => reveal(listing_told),
        Step::Validating => lemma_caller_told(session, run),
        Step::SigningIn => {
            reveal(sign_in_told);
            lemma_validating(session);
        },
        Step::Version => {
            reveal(version_told);
            lemma_versioned(SessionModel { version: cli_version(output_in(run)), ..session });
        },
        _ => {},
    }
}

/// What a run has printed stands, and its options, its environment and its task
/// stay; where JSON was asked for, all output is JSON; and where quiet was asked
/// for, and neither JSON nor to see more, nothing is printed but a warning that
/// the login to the registries failed and the result of a query.
pub proof fn law_printing(session: SessionModel, reply: ReplyModel)
    requires
        well_placed(session),
    ensures
        follows(session, next(session, reply)),
{
    match reply {
        ReplyModel::File(read) => lemma_file_told(session, read),
        ReplyModel::Ran(run) => lemma_run_told(session, run),
        ReplyModel::Saved(_) => reveal(save_told),
        ReplyModel::Chosen(choice) => {
            reveal(choice_told);
            match choice {
                Ok(index) => if index < offered_profiles(session).len() {
                    lemma_activated(session, offered_profiles(session)[index as int]);
                },
                Err(_) => {},
            }
        },
    }
}

/// A run waits only for what its task can lead to.
pub open spec fn well_placed(session: SessionModel) -> bool {
    &&& session.step is ListConfig ==> session.task is List
    &&& session.step is DoctorHelper ==> session.task is Doctor
    &&& session.step is Version ==> session.task is Doctor
}

} // verus!
