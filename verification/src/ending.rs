//! Every run comes to an end.
use crate::command::{FailureModel, FileModel, OutputModel};
use crate::config::profile_read;
use crate::credentials::caller_found;
use crate::doctor::{cli_version, diagnosis_of, no_diagnosis};
use crate::flow::{
    activated, caller_told, choice_config_told, choice_told, concluded, current_informed, diagnosed,
    doctor_helper_told, doctor_informed, file_told, first_check_told, informed, list_informed,
    listed, listing_told, loading, login_informed, next, offered_profiles, previous_informed,
    profiles_told, receipted, region_told, remembering, report_config_told, run_told, save_told,
    scan_told, sign_in_config_told, sign_in_told, state_told, status_informed, switch_informed,
    validating, version_told, versioned,
};
use crate::login::{
    account_told, advanced, client_in, client_located, client_told, first_told, helper_told,
    is_switch, login_begun, login_ended, logins_begun, logins_over, logout_told, output_in,
    password_sent, password_told, registries_known, registries_sought, registry_in, second_told,
    settings_told,
};
use crate::registry::{login_note, logins_verdict, password_found, RegistryLoginMethod};
use crate::report::activation_lines;
use crate::session::{awaited, saying, ReplyModel, SessionModel, Step};
use crate::settings::LineModel;
use crate::state::state_read;
use crate::waiting::{answers, consistent, is_turn};
use vstd::prelude::*;

verus! {

/// How far a run is from its end, by what it waits for. All that one login may
/// wait for counts the same.
pub open spec fn distance_left(session: SessionModel) -> nat {
    match session.step {
        Step::Listing => 18,
        Step::ConfigScan => 17,
        Step::CredentialsScan => 16,
        Step::Loading => 15,
        Step::ChoiceConfig => 14,
        Step::Choosing => 13,
        Step::StatusConfig => 12,
        Step::DoctorConfig => 12,
        Step::ListConfig => 12,
        Step::Validating => if is_switch(session.task) && session.first_error is None {
            11
        } else {
            8
        },
        Step::SignInConfig => 10,
        Step::SigningIn => 9,
        Step::Saving => 7,
        Step::RegionConfig => 6,
        Step::Account => 5,
        Step::Password => 4,
        Step::HelmSettings => 3,
        Step::ClientConfig => 3,
        Step::Helper => 3,
        Step::FirstLogin => 3,
        Step::Logout => 3,
        Step::SecondLogin => 3,
        Step::Version => 2,
        Step::DoctorHelper => 1,
        Step::Finished => 0,
    }
}

/// How many registries are left to log in to.
pub open spec fn registries_left(session: SessionModel) -> int {
    session.registries.len() - session.registry
}

/// How many clients are left to log in to the registry.
pub open spec fn clients_left(session: SessionModel) -> int {
    session.clients.len() - session.client
}

/// How far one login is from its end.
pub open spec fn login_left(step: Step) -> nat {
    match step {
        Step::HelmSettings => 6,
        Step::ClientConfig => 5,
        Step::Helper => 4,
        Step::FirstLogin => 3,
        Step::Logout => 2,
        Step::SecondLogin => 1,
        _ => 0,
    }
}

/// A run has come closer to its end: by what it waits for, or else by the
/// registries, the clients and the steps of a login that are left, in this order.
pub open spec fn is_closer(after: SessionModel, before: SessionModel) -> bool {
    ||| distance_left(after) < distance_left(before)
    ||| {
        &&& distance_left(after) == distance_left(before)
        &&& registries_left(after) >= 0
        &&& clients_left(after) >= 0
        &&& {
            ||| registries_left(after) < registries_left(before)
            ||| registries_left(after) == registries_left(before) && clients_left(after)
                < clients_left(before)
            ||| registries_left(after) == registries_left(before) && clients_left(after)
                == clients_left(before) && login_left(after.step) < login_left(before.step)
        }
    }
}

proof fn lemma_logins_over(session: SessionModel, result: Result<(), Seq<char>>)
    ensures
        distance_left(logins_over(session, result)) == 0,
{
    reveal(logins_over);
}

proof fn lemma_registries_known(session: SessionModel)
    ensures
        distance_left(registries_known(session)) <= 4,
{
    reveal(registries_known);
    assert forall|result: Result<(), Seq<char>>| distance_left(
        #[trigger] logins_over(session, result),
    ) == 0 by {
        lemma_logins_over(session, result);
    }
}

proof fn lemma_logins_begun(session: SessionModel)
    ensures
        distance_left(logins_begun(session)) <= 5,
{
    reveal(logins_begun);
    reveal(registries_sought);
    lemma_logins_over(session, Ok(()));
    assert forall|registries: Seq<Seq<char>>| distance_left(
        #[trigger] registries_known(SessionModel { registries, ..session }),
    ) <= 4 by {
        lemma_registries_known(SessionModel { registries, ..session });
    }
}

/// The next login keeps its place, or all are over.
proof fn lemma_login_begun(session: SessionModel)
    ensures
        distance_left(login_begun(session)) == 0 || {
            &&& distance_left(login_begun(session)) == 3
            &&& session.registry < session.registries.len()
            &&& login_begun(session).registries == session.registries
            &&& login_begun(session).registry == session.registry
            &&& login_begun(session).clients == session.clients
            &&& login_begun(session).client == session.client
        },
{
    reveal(login_begun);
    reveal(client_located);
    reveal(password_sent);
    lemma_logins_over(session, logins_verdict(session.failures));
}

proof fn lemma_login_ended(
    session: SessionModel,
    outcome: Result<RegistryLoginMethod, Seq<char>>,
)
    requires
        is_turn(session),
        distance_left(session) == 3,
    ensures
        is_closer(login_ended(session, outcome), session),
{
    reveal(login_ended);
    reveal(advanced);
    let noted = match outcome {
        Ok(method) => saying(
            session,
            if session.options.quiet || session.options.json {
                Seq::empty()
            } else {
                seq![
                    LineModel::Note(
                        login_note(
                            client_in(session),
                            registry_in(session),
                            method,
                            session.environment.color,
                        ),
                    ),
                ]
            },
        ),
        Err(error) => SessionModel { failures: session.failures.push(error), ..session },
    };
    if noted.client + 1 < noted.clients.len() {
        lemma_login_begun(SessionModel { client: noted.client + 1, ..noted });
    } else {
        lemma_login_begun(
            SessionModel { client: 0, registry: noted.registry + 1, ..noted },
        );
    }
}

proof fn lemma_login_run_told(session: SessionModel, run: Result<OutputModel, FailureModel>)
    requires
        consistent(session),
    ensures
        session.step is Account ==> is_closer(account_told(session, run), session),
        session.step is Password ==> is_closer(password_told(session, run), session),
        session.step is HelmSettings ==> is_closer(settings_told(session, run), session),
        session.step is Helper ==> is_closer(helper_told(session, run), session),
        session.step is FirstLogin ==> is_closer(first_told(session, run), session),
        session.step is Logout ==> is_closer(logout_told(session, run), session),
        session.step is SecondLogin ==> is_closer(second_told(session, run), session),
{
    reveal(account_told);
    reveal(password_told);
    reveal(settings_told);
    reveal(helper_told);
    reveal(first_told);
    reveal(logout_told);
    reveal(second_told);
    reveal(client_located);
    reveal(password_sent);
    assert forall|result: Result<(), Seq<char>>| distance_left(
        #[trigger] logins_over(session, result),
    ) == 0 by {
        lemma_logins_over(session, result);
    }
    assert forall|registries: Seq<Seq<char>>| distance_left(
        #[trigger] registries_known(SessionModel { registries, ..session }),
    ) <= 4 by {
        lemma_registries_known(SessionModel { registries, ..session });
    }
    if session.step is Password {
        match password_found(session.profile, session.options.verbose, run) {
            Ok(password) => lemma_login_begun(
                SessionModel { password, failures: Seq::empty(), registry: 0, client: 0, ..session },
            ),
            Err(_) => {},
        }
    }
    if is_turn(session) && distance_left(session) == 3 {
        assert forall|outcome: Result<RegistryLoginMethod, Seq<char>>| is_closer(
            #[trigger] login_ended(session, outcome),
            session,
        ) by {
            lemma_login_ended(session, outcome);
        }
    }
}

proof fn lemma_client_told(session: SessionModel, read: FileModel)
    requires
        consistent(session),
        session.step is ClientConfig,
    ensures
        is_closer(client_told(session, read), session),
{
    reveal(client_told);
    reveal(password_sent);
    assert forall|outcome: Result<RegistryLoginMethod, Seq<char>>| is_closer(
        #[trigger] login_ended(session, outcome),
        session,
    ) by {
        lemma_login_ended(session, outcome);
    }
}

proof fn lemma_diagnosed(session: SessionModel)
    ensures
        distance_left(diagnosed(session)) <= 2,
        distance_left(versioned(session)) <= 1,
{
    reveal(diagnosed);
    reveal(versioned);
    reveal(concluded);
}

proof fn lemma_informed(session: SessionModel)
    ensures
        distance_left(informed(session)) < 15,
{
    reveal(informed);
    reveal(switch_informed);
    reveal(previous_informed);
    reveal(activated);
    reveal(validating);
    reveal(login_informed);
    reveal(status_informed);
    reveal(doctor_informed);
    reveal(list_informed);
    reveal(listed);
    reveal(current_informed);
    lemma_diagnosed(SessionModel { diagnosis: no_diagnosis(), ..session });
}

proof fn lemma_file_told(session: SessionModel, read: FileModel)
    requires
        consistent(session),
        session.action is Read,
    ensures
        is_closer(file_told(session, read), session),
{
    reveal(file_told);
    match session.step {
        Step::ConfigScan => {
            reveal(scan_told);
        },
        Step::CredentialsScan => {
            reveal(profiles_told);
            reveal(loading);
        },
        Step::Loading => {
            reveal(state_told);
            match state_read(awaited(session.action), read) {
                Ok(state) => lemma_informed(SessionModel { state, ..session }),
                Err(_) => {},
            }
        },
        Step::ChoiceConfig => {
            reveal(choice_config_told);
        },
        Step::SignInConfig => {
            reveal(sign_in_config_told);
        },
        Step::RegionConfig => {
            reveal(region_told);
            reveal(receipted);
            match profile_read(read, session.profile) {
                Ok(config) => {
                    let known = SessionModel { config, ..session };
                    lemma_logins_begun(known);
                    lemma_logins_begun(
                        saying(
                            known,
                            activation_lines(
                                known.profile,
                                known.identity,
                                known.config,
                                known.options,
                                known.environment,
                            ),
                        ),
                    );
                },
                Err(_) => {},
            }
        },
        Step::ClientConfig => {
            lemma_client_told(session, read);
        },
        Step::ListConfig => {
            reveal(listed);
        },
        Step::StatusConfig | Step::DoctorConfig => {
            reveal(report_config_told);
            reveal(validating);
        },
        Step::DoctorHelper => {
            reveal(doctor_helper_told);
            reveal(concluded);
        },
        _ => {},
    }
}

proof fn lemma_run_told(session: SessionModel, run: Result<OutputModel, FailureModel>)
    requires
        consistent(session),
        session.action is Run,
    ensures
        is_closer(run_told(session, run), session),
{
    reveal(run_told);
    lemma_login_run_told(session, run);
    match session.step {
        Step::Listing => {
            reveal(listing_told);
        },
        Step::Validating => {
            reveal(caller_told);
            reveal(first_check_told);
            reveal(remembering);
            let caller = caller_found(session.profile, session.options.verbose, run);
            lemma_diagnosed(
                SessionModel { diagnosis: diagnosis_of(session.config, caller), ..session },
            );
        },
        Step::SigningIn => {
            reveal(sign_in_told);
            reveal(validating);
        },
        Step::Version => {
            reveal(version_told);
            lemma_diagnosed(SessionModel { version: cli_version(output_in(run)), ..session });
        },
        _ => {},
    }
}

/// Each reply to what a run has asked for brings it closer to its end, but for
/// the choice of a profile that was not offered.
pub proof fn law_run_ends(session: SessionModel, reply: ReplyModel)
    requires
        consistent(session),
        answers(session.action, reply),
        reply matches ReplyModel::Chosen(Ok(index)) ==> index < offered_profiles(session).len(),
    ensures
        is_closer(next(session, reply), session),
{
    match reply {
        ReplyModel::File(read) => lemma_file_told(session, read),
        ReplyModel::Ran(run) => lemma_run_told(session, run),
        ReplyModel::Saved(_) => {
            reveal(save_told);
        },
        ReplyModel::Chosen(_) => {
            reveal(choice_told);
            reveal(activated);
            reveal(validating);
        },
    }
}

} // verus!
