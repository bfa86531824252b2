//! What a run learns, and when: from which reply it has each of the things that it
//! goes by.
use crate::command::{FailureModel, FileModel, OutputModel};
use crate::credentials::caller_found;
use crate::doctor::{cli_version, diagnosis_of, no_diagnosis};
use crate::flow::{
    activated, caller_told, choice_config_told, choice_told, concluded, current_informed, diagnosed,
    doctor_helper_told, doctor_informed, file_told, first_check_told, informed, list_informed,
    listed, listing_told, loading, login_informed, next, previous_informed, profiles_told,
    receipted, region_told, remembering, report_config_told, run_told, save_told, scan_told,
    sign_in_config_told, sign_in_told, state_told, status_informed, switch_informed, validating,
    version_told, versioned,
};
use crate::login::{
    account_told, advanced, client_located, client_told, first_told, helper_told, login_begun,
    login_ended, logins_begun, logins_over, logout_told, output_in, password_sent, password_told,
    registries_known, registries_sought, second_told, settings_told,
};
use crate::registry::{logins_verdict, password_found, registries_wanted, RegistryLoginMethod};
use crate::session::{awaited, ReplyModel, SessionModel, Step};
use crate::state::state_read;
use vstd::prelude::*;

verus! {

/// The two runs go by the same things.
pub open spec fn agree(left: SessionModel, right: SessionModel) -> bool {
    &&& left.options == right.options
    &&& left.environment == right.environment
    &&& left.task == right.task
    &&& left.listed == right.listed
    &&& left.scanned == right.scanned
    &&& left.profiles == right.profiles
    &&& left.state == right.state
    &&& left.profile == right.profile
    &&& left.config == right.config
    &&& left.identity == right.identity
    &&& left.first_error == right.first_error
    &&& left.diagnosis == right.diagnosis
    &&& left.login_error == right.login_error
}

/// What a reply leaves as it was, by what the run was waiting for.
pub open spec fn keeps(before: SessionModel, after: SessionModel) -> bool {
    let step = before.step;
    &&& after.options == before.options
    &&& after.environment == before.environment
    &&& after.task == before.task
    &&& step is Listing || after.listed == before.listed
    &&& step is ConfigScan || after.scanned == before.scanned
    &&& step is CredentialsScan || after.profiles == before.profiles
    &&& step is Loading || step is Validating || after.state == before.state
    &&& step is Loading || step is Choosing || after.profile == before.profile
    &&& step is RegionConfig || step is StatusConfig || step is DoctorConfig || after.config
        == before.config
    &&& step is Validating || after.identity == before.identity
    &&& step is Loading || step is Choosing || step is Validating || after.first_error
        == before.first_error
    &&& step is Loading || step is Validating || after.diagnosis == before.diagnosis
    &&& step is RegionConfig || step is Account || after.registries == before.registries
    &&& step is RegionConfig || step is Account || after.clients == before.clients
    &&& step is Password || after.password == before.password
    &&& step is FirstLogin || after.login_error == before.login_error
}

proof fn lemma_logins_over(session: SessionModel, result: Result<(), Seq<char>>)
    ensures
        agree(logins_over(session, result), session),
        logins_over(session, result).registries == session.registries,
        logins_over(session, result).clients == session.clients,
        logins_over(session, result).password == session.password,
{
    reveal(logins_over);
}

proof fn lemma_registries_known(session: SessionModel)
    ensures
        agree(registries_known(session), session),
        registries_known(session).registries == session.registries,
        registries_known(session).password == session.password,
{
    reveal(registries_known);
    assert forall|result: Result<(), Seq<char>>| {
        let over = #[trigger] logins_over(session, result);
        agree(over, session) && over.registries == session.registries && over.password
            == session.password
    } by {
        lemma_logins_over(session, result);
    }
}

proof fn lemma_logins_begun(session: SessionModel)
    ensures
        agree(logins_begun(session), session),
        logins_begun(session).password == session.password,
{
    reveal(logins_begun);
    reveal(registries_sought);
    lemma_logins_over(session, Ok(()));
    match registries_wanted(session.config, session.options, session.environment) {
        Some(registries) => lemma_registries_known(SessionModel { registries, ..session }),
        None => {},
    }
}

proof fn lemma_login_begun(session: SessionModel)
    ensures
        agree(login_begun(session), session),
        login_begun(session).registries == session.registries,
        login_begun(session).clients == session.clients,
        login_begun(session).password == session.password,
{
    reveal(login_begun);
    reveal(client_located);
    reveal(password_sent);
    lemma_logins_over(session, logins_verdict(session.failures));
}

proof fn lemma_login_ended(
    session: SessionModel,
    outcome: Result<RegistryLoginMethod, Seq<char>>,
)
    ensures
        agree(login_ended(session, outcome), session),
        login_ended(session, outcome).registries == session.registries,
        login_ended(session, outcome).clients == session.clients,
        login_ended(session, outcome).password == session.password,
{
    reveal(login_ended);
    reveal(advanced);
    assert forall|other: SessionModel| {
        let begun = #[trigger] login_begun(other);
        agree(begun, other) && begun.registries == other.registries && begun.clients
            == other.clients && begun.password == other.password
    } by {
        lemma_login_begun(other);
    }
}

proof fn lemma_login_run_told(session: SessionModel, run: Result<OutputModel, FailureModel>)
    ensures
        session.step is Account ==> keeps(session, account_told(session, run)),
        session.step is Password ==> keeps(session, password_told(session, run)),
        session.step is HelmSettings ==> keeps(session, settings_told(session, run)),
        session.step is Helper ==> keeps(session, helper_told(session, run)),
        session.step is FirstLogin ==> keeps(session, first_told(session, run)),
        session.step is Logout ==> keeps(session, logout_told(session, run)),
        session.step is SecondLogin ==> keeps(session, second_told(session, run)),
{
    reveal(account_told);
    reveal(password_told);
    reveal(settings_told);
    reveal(helper_told);
    reveal(first_told);
    reveal(logout_told);
    reveal(second_told);
    reveal(client_located);
    reveal(password_sent);
    assert forall|result: Result<(), Seq<char>>| {
        let over = #[trigger] logins_over(session, result);
        agree(over, session) && over.registries == session.registries && over.clients
            == session.clients && over.password == session.password
    } by {
        lemma_logins_over(session, result);
    }
    assert forall|outcome: Result<RegistryLoginMethod, Seq<char>>| {
        let ended = #[trigger] login_ended(session, outcome);
        agree(ended, session) && ended.registries == session.registries && ended.clients
            == session.clients && ended.password == session.password
    } by {
        lemma_login_ended(session, outcome);
    }
    assert forall|registries: Seq<Seq<char>>| {
        let known = #[trigger] registries_known(SessionModel { registries, ..session });
        agree(known, session) && known.password == session.password
    } by {
        lemma_registries_known(SessionModel { registries, ..session });
    }
    match password_found(session.profile, session.options.verbose, run) {
        Ok(password) => lemma_login_begun(
            SessionModel { password, failures: Seq::empty(), registry: 0, client: 0, ..session },
        ),
        Err(_) => {},
    }
}

proof fn lemma_diagnosed(session: SessionModel)
    ensures
        agree(diagnosed(session), session),
        agree(versioned(session), session),
        diagnosed(session).registries == session.registries,
        versioned(session).registries == session.registries,
        diagnosed(session).clients == session.clients,
        versioned(session).clients == session.clients,
        diagnosed(session).password == session.password,
        versioned(session).password == session.password,
{
    reveal(diagnosed);
    reveal(versioned);
    reveal(concluded);
}

proof fn lemma_informed(session: SessionModel)
    ensures
        ({
            let after = informed(session);
            &&& after.options == session.options
            &&& after.environment == session.environment
            &&& after.task == session.task
            &&& after.listed == session.listed
            &&& after.scanned == session.scanned
            &&& after.profiles == session.profiles
            &&& after.state == session.state
            &&& after.config == session.config
            &&& after.identity == session.identity
            &&& after.registries == session.registries
            &&& after.clients == session.clients
            &&& after.password == session.password
            &&& after.login_error == session.login_error
        }),
{
    reveal(informed);
    reveal(switch_informed);
    reveal(previous_informed);
    reveal(activated);
    reveal(validating);
    reveal(login_informed);
    reveal(status_informed);
    reveal(doctor_informed);
    reveal(list_informed);
    reveal(listed);
    reveal(current_informed);
    lemma_diagnosed(SessionModel { diagnosis: no_diagnosis(), ..session });
}

proof fn lemma_file_told(session: SessionModel, read: FileModel)
    ensures
        keeps(session, file_told(session, read)),
{
    reveal(file_told);
    match session.step {
        Step::ConfigScan => {
            reveal(scan_told);
        },
        Step::CredentialsScan => {
            reveal(profiles_told);
            reveal(loading);
        },
        Step::Loading => {
            reveal(state_told);
            match state_read(awaited(session.action), read) {
                Ok(state) => lemma_informed(SessionModel { state, ..session }),
                Err(_) => {},
            }
        },
        Step::ChoiceConfig => {
            reveal(choice_config_told);
        },
        Step::SignInConfig => {
            reveal(sign_in_config_told);
        },
        Step::RegionConfig => {
            reveal(region_told);
            reveal(receipted);
            assert forall|other: SessionModel| {
                let begun = #[trigger] logins_begun(other);
                agree(begun, other) && begun.password == other.password
            } by {
                lemma_logins_begun(other);
            }
        },
        Step::ClientConfig => {
            reveal(client_told);
            reveal(password_sent);
            assert forall|outcome: Result<RegistryLoginMethod, Seq<char>>| {
                let ended = #[trigger] login_ended(session, outcome);
                agree(ended, session) && ended.registries == session.registries && ended.clients
                    == session.clients && ended.password == session.password
            } by {
                lemma_login_ended(session, outcome);
            }
        },
        Step::ListConfig => {
            reveal(listed);
        },
        Step::StatusConfig | Step::DoctorConfig => {
            reveal(report_config_told);
            reveal(validating);
        },
        Step::DoctorHelper => {
            reveal(doctor_helper_told);
            reveal(concluded);
        },
        _ => {},
    }
}

proof fn lemma_run_told(session: SessionModel, run: Result<OutputModel, FailureModel>)
    ensures
        keeps(session, run_told(session, run)),
{
    reveal(run_told);
    lemma_login_run_told(session, run);
    match session.step {
        Step::Listing => {
            reveal(listing_told);
        },
        Step::Validating => {
            reveal(caller_told);
            reveal(first_check_told);
            reveal(remembering);
            let caller = caller_found(session.profile, session.options.verbose, run);
            lemma_diagnosed(
                SessionModel { diagnosis: diagnosis_of(session.config, caller), ..session },
            );
        },
        Step::SigningIn => {
            reveal(sign_in_told);
            reveal(validating);
        },
        Step::Version => {
            reveal(version_told);
            lemma_diagnosed(SessionModel { version: cli_version(output_in(run)), ..session });
        },
        _ => {},
    }
}

/// A reply changes what the run goes by only where the run was waiting for that:
/// the profiles come from the three places where they are looked for, the state
/// from its file and from a check that succeeded, the profile from the task or the
/// choice, its configuration from the file, the caller from AWS, and the password
/// from AWS.
pub proof fn law_keeps(session: SessionModel, reply: ReplyModel)
    ensures
        keeps(session, next(session, reply)),
{
    match reply {
        ReplyModel::File(read) => lemma_file_told(session, read),
        ReplyModel::Ran(run) => lemma_run_told(session, run),
        ReplyModel::Saved(_) => {
            reveal(save_told);
        },
        ReplyModel::Chosen(_) => {
            reveal(choice_told);
            reveal(activated);
            reveal(validating);
        },
    }
}

} // verus!
