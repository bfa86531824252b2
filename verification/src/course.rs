//! The course of each task: what it does with what it is told, step by step.
use crate::choice::{hint_for, law_listing, law_listing_order, listing, SelectionFailureModel};
use crate::cli::{asked, CliModel, CommandModel, VERSION};
use crate::command::{detail_of, FailureModel, FileModel, OutputModel};
use crate::config::{auth_of, config_of, file_names, law_known_profiles, listed_names};
use crate::credentials::{caller_found, sign_in_message};
use crate::doctor::{
    all_checks, checks_lines, diagnosis_of, failures_in, helper_checked, law_diagnosis_verdict,
    CheckModel, ContextModel, DiagnosisModel,
};
use crate::flow::{
    activated, begun, caller_told, choice_config_told, choice_told, concluded, context_of,
    current_informed, diagnosed, diagnosed_profile, discovering, doctor_helper_told,
    doctor_informed, file_told, first_check_told, informed, list_informed, listed, listing_told,
    loading, login_informed, next, offered_profiles, previous_informed, profiles_told, receipted,
    region_told, remembering, report_config_told, run_told, save_told, scan_told,
    sign_in_config_told, sign_in_told, state_told, status_informed, switch_informed, validating,
    version_told, versioned,
};
use crate::identity::IdentityModel;
use crate::learning::law_keeps;
use crate::login::{logins_begun, logins_over, registries_known, registries_sought};
use crate::meaning::law_expired_texts;
use crate::ordered::{ascending, law_sorted};
use crate::paths::{
    aws_config_file, aws_credentials_file, docker_config_file, state_directory, state_file,
};
use crate::platform::path_below;
use crate::registry::{helper_read, registry_of};
use crate::report::{
    activation_lines, client_names, listed_lines, name_lines, status_lines, status_of, StatusModel,
};
use crate::session::{ActionModel, ReplyModel, SessionModel, TaskModel};
use crate::settings::{profile_in_effect, EnvironmentModel, LineModel, OptionsModel};
use crate::shell::{
    Shell, BASH_COMPLETIONS, FISH_COMPLETIONS, FISH_HOOK, POSIX_HOOK, ZSH_COMPLETIONS,
};
use crate::state::{contents_of, law_switch, state_of, switched, SaveFailureModel, StateModel};
use crate::text::{contains, decimal, lines_of, lowered, nonblank, pieces, trimmed};
use crate::utf8::lossy;
use crate::waiting::consistent;
use vstd::prelude::*;

verus! {

/// The run asks AWS who the caller is, under the profile.
pub open spec fn asks_caller(session: SessionModel, profile: Seq<char>) -> bool {
    &&& session.profile == profile
    &&& session.step is Validating
    &&& session.action matches ActionModel::Run(call) && call.program == "aws"@ && call.args
        == seq!["sts"@, "get-caller-identity"@, "--output"@, "json"@, "--profile"@, profile]
        && call.unset == seq![
        "AWS_ACCESS_KEY_ID"@,
        "AWS_SECRET_ACCESS_KEY"@,
        "AWS_SESSION_TOKEN"@,
    ] && call.set == seq![("AWS_PAGER"@, ""@)] && call.input is None && call.capture is Everything
}

/// The run is over, with that error.
pub open spec fn fails(session: SessionModel, error: Seq<char>) -> bool {
    session.step is Finished && session.action == ActionModel::Finish(Err(error))
}

/// The run is over, and has succeeded.
pub open spec fn succeeds(session: SessionModel) -> bool {
    session.step is Finished && session.action == ActionModel::Finish(Ok(()))
}

/// The run waits for the AWS configuration.
pub open spec fn reads_config(session: SessionModel) -> bool {
    session.action == ActionModel::Read(aws_config_file(session.environment.places))
}

proof fn lemma_validating(session: SessionModel)
    ensures
        asks_caller(validating(session), session.profile),
        validating(session).first_error == session.first_error,
{
    reveal(validating);
    if let ActionModel::Run(call) = validating(session).action {
        assert(call.args =~= seq![
            "sts"@,
            "get-caller-identity"@,
            "--output"@,
            "json"@,
            "--profile"@,
            session.profile,
        ]);
    }
}

proof fn lemma_activated(session: SessionModel, profile: Seq<char>)
    ensures
        asks_caller(activated(session, profile), profile),
        activated(session, profile).first_error is None,
{
    reveal(activated);
    lemma_validating(SessionModel { profile, first_error: None, ..session });
}

/// The command line says what the run is for: a profile to switch to, a dash to
/// switch back, nothing to have one chosen, or a command. All but the list, the
/// diagnosis and the profile in effect need the AWS CLI, and those that look for
/// profiles first have the AWS CLI list them. A profile and a command do not go
/// together.
pub proof fn law_tasks(
    options: OptionsModel,
    profile: Option<Seq<char>>,
    command: CommandModel,
    environment: EnvironmentModel,
)
    ensures
        ({
            let plain = asked(CliModel { options, profile, command: None }, environment);
            let other = asked(
                CliModel { options, profile: None, command: Some(command) },
                environment,
            );
            &&& profile == Some("-"@) ==> plain.task is Previous
            &&& profile != Some("-"@) ==> plain.task == TaskModel::Switch(profile)
            &&& environment.aws ==> lists_profiles(plain)
            &&& !environment.aws ==> fails(plain, "'aws' was not found in PATH"@)
            &&& command matches CommandModel::Status(name) ==> {
                &&& other.task == TaskModel::Status(name)
                &&& environment.aws ==> lists_profiles(other)
                &&& !environment.aws ==> fails(other, "'aws' was not found in PATH"@)
            }
            &&& command matches CommandModel::Login(name) ==> {
                &&& other.task == TaskModel::Login(name)
                &&& environment.aws ==> lists_profiles(other)
                &&& !environment.aws ==> fails(other, "'aws' was not found in PATH"@)
            }
            &&& command matches CommandModel::Doctor(name) ==> {
                &&& other.task == TaskModel::Doctor(name)
                &&& lists_profiles(other)
            }
            &&& command is List ==> other.task is List && lists_profiles(other)
            &&& command is Current ==> other.task is Current && (state_file(
                environment.places,
            ) matches Ok(path) ==> other.step is Loading && other.action == ActionModel::Read(path))
                && (state_file(environment.places) matches Err(message) ==> fails(other, message))
            &&& plain.options == options && other.options == options
            &&& plain.environment == environment && other.environment == environment
            &&& profile is Some ==> fails(
                asked(CliModel { options, profile, command: Some(command) }, environment),
                "a profile cannot be used with a command"@,
            )
        }),
{
    reveal(begun);
    reveal(discovering);
    reveal(loading);
    reveal_strlit("'aws' was not found in PATH");
    reveal_strlit("'");
    reveal_strlit("aws");
    reveal_strlit("' was not found in PATH");
    assert("'"@ + "aws"@ + "' was not found in PATH"@ =~= "'aws' was not found in PATH"@);
}

/// The run has the AWS CLI list the profiles.
pub open spec fn lists_profiles(session: SessionModel) -> bool {
    &&& session.step is Listing
    &&& session.action matches ActionModel::Run(call) && call.program == "aws"@ && call.args == seq![
        "configure"@,
        "list-profiles"@,
    ] && call.set.len() == 0 && call.unset.len() == 0 && call.capture is Everything
}

/// One of the lines is the name, but for the space around it.
pub open spec fn has_line(text: Seq<char>, name: Seq<char>) -> bool {
    name.len() > 0 && exists|i: int|
        0 <= i < lines_of(text).len() && trimmed(#[trigger] lines_of(text)[i]) == name
}

proof fn lemma_nonblank(parts: Seq<Seq<char>>, name: Seq<char>)
    ensures
        nonblank(parts).contains(name) <==> name.len() > 0 && exists|i: int|
            0 <= i < parts.len() && trimmed(#[trigger] parts[i]) == name,
    decreases parts.len(),
{
    if parts.len() > 0 {
        let earlier = parts.drop_last();
        let kept = nonblank(earlier);
        lemma_nonblank(earlier, name);
        if nonblank(parts).contains(name) {
            let k = choose|k: int| 0 <= k < nonblank(parts).len() && nonblank(parts)[k] == name;
            if k < kept.len() {
                assert(kept[k] == name);
                assert(kept.contains(name));
                let i = choose|i: int|
                    0 <= i < earlier.len() && trimmed(#[trigger] earlier[i]) == name;
                assert(trimmed(parts[i]) == name);
            } else {
                assert(trimmed(parts[parts.len() - 1]) == name);
            }
        }
        if name.len() > 0 && exists|i: int|
            0 <= i < parts.len() && trimmed(#[trigger] parts[i]) == name {
            let i = choose|i: int| 0 <= i < parts.len() && trimmed(#[trigger] parts[i]) == name;
            if i < earlier.len() {
                assert(trimmed(earlier[i]) == name);
                assert(kept.contains(name));
                let k = choose|k: int| 0 <= k < kept.len() && kept[k] == name;
                assert(nonblank(parts)[k] == name);
            } else {
                assert(nonblank(parts).last() == name);
            }
        }
    }
}

/// The profiles are those that the AWS CLI lists, where it does, and those that the
/// configuration and the credentials name, each of them once and in order. Where
/// there is none, a switch and a list are over.
pub proof fn law_discovery(
    session: SessionModel,
    run: Result<OutputModel, FailureModel>,
    config: FileModel,
    credentials: FileModel,
    profile: Seq<char>,
)
    requires
        session.step is Listing,
    ensures
        ({
            let first = next(session, ReplyModel::Ran(run));
            let second = next(first, ReplyModel::File(config));
            let third = next(second, ReplyModel::File(credentials));
            &&& first.action == ActionModel::Read(aws_config_file(session.environment.places))
            &&& second.action == ActionModel::Read(
                aws_credentials_file(session.environment.places),
            )
            &&& ascending(third.profiles)
            &&& third.profiles.contains(profile) <==> {
                ||| run matches Ok(output) && output.success && has_line(
                    lossy(output.stdout),
                    profile,
                )
                ||| file_names(config).contains(profile)
                ||| file_names(credentials).contains(profile)
            }
            &&& third.profiles.len() == 0 && (session.task is Switch || session.task is Previous)
                ==> fails(third, "no AWS profiles found; run `aws configure sso` first"@)
            &&& third.profiles.len() == 0 && session.task is List ==> fails(
                third,
                "no AWS profiles found"@,
            )
            &&& third.profiles.len() > 0 || !(session.task is Switch || session.task is Previous
                || session.task is List) ==> match state_file(session.environment.places) {
                Ok(path) => third.step is Loading && third.action == ActionModel::Read(path),
                Err(message) => fails(third, message),
            }
        }),
{
    reveal(run_told);
    reveal(listing_told);
    reveal(file_told);
    reveal(scan_told);
    reveal(profiles_told);
    reveal(loading);
    match run {
        Ok(output) => {
            law_known_profiles(Some(output), config, credentials, profile);
            law_sorted(
                listed_names(Some(output)) + file_names(config) + file_names(credentials),
            );
            lemma_nonblank(lines_of(lossy(output.stdout)), profile);
        },
        Err(_) => {
            law_known_profiles(None, config, credentials, profile);
            law_sorted(listed_names(None) + file_names(config) + file_names(credentials));
        },
    }
}

/// What is remembered is what the state file says; where there is none, nothing;
/// where it cannot be read, the run is over.
pub proof fn law_state_loaded(session: SessionModel, contents: Seq<char>, error: Seq<char>)
    requires
        session.step is Loading,
    ensures
        next(session, ReplyModel::File(FileModel::Contents(contents))).state == state_of(contents),
        next(session, ReplyModel::File(FileModel::Missing)).state == (StateModel {
            current: None,
            previous: None,
            recent: Seq::empty(),
        }),
        session.action matches ActionModel::Read(path) ==> fails(
            next(session, ReplyModel::File(FileModel::Failed(error))),
            "could not read "@ + lossy(path) + ": "@ + error,
        ),
{
    reveal(file_told);
    reveal(state_told);
    lemma_informed_state(SessionModel { state: state_of(contents), ..session });
    let none = Seq::<char>::empty();
    assert(pieces(none, '\n') =~= seq![none]);
    assert(lines_of(none) =~= Seq::<Seq<char>>::empty());
    assert(state_of(none).recent =~= Seq::empty());
    lemma_informed_state(SessionModel { state: state_of(none), ..session });
    reveal_strlit("could not read ");
    reveal_strlit("could not ");
    reveal_strlit("read");
    reveal_strlit(" ");
    if let ActionModel::Read(path) = session.action {
        assert("could not "@ + "read"@ + " "@ + lossy(path) + ": "@ + error =~= "could not read "@
            + lossy(path) + ": "@ + error);
    }
}

proof fn lemma_informed_state(session: SessionModel)
    ensures
        informed(session).state == session.state,
        informed(session).profiles == session.profiles,
{
    reveal(informed);
    reveal(switch_informed);
    reveal(previous_informed);
    reveal(activated);
    reveal(validating);
    reveal(login_informed);
    reveal(status_informed);
    reveal(doctor_informed);
    reveal(diagnosed);
    reveal(versioned);
    reveal(concluded);
    reveal(list_informed);
    reveal(listed);
    reveal(current_informed);
}

/// A task that names a configured profile is about that profile, whatever is
/// remembered and whatever the environment says.
pub proof fn law_named_profile(session: SessionModel, contents: Seq<char>, profile: Seq<char>)
    requires
        session.step is Loading,
        session.profiles.contains(profile),
    ensures
        ({
            let after = next(session, ReplyModel::File(FileModel::Contents(contents)));
            &&& session.task == TaskModel::Switch(Some(profile)) ==> asks_caller(after, profile)
                && after.first_error is None
            &&& session.task == TaskModel::Login(Some(profile)) ==> after.profile == profile
                && after.step is SignInConfig && reads_config(after) && after.first_error is None
            &&& session.task == TaskModel::Status(Some(profile)) ==> after.profile == profile
                && after.step is StatusConfig && reads_config(after)
            &&& session.task == TaskModel::Doctor(Some(profile)) ==> after.profile == profile
                && after.step is DoctorConfig && reads_config(after)
        }),
        session.task == TaskModel::Doctor(Some(profile)) ==> context_of(session).profile == Some(
            profile,
        ),
{
    reveal(file_told);
    reveal(state_told);
    reveal(informed);
    reveal(switch_informed);
    reveal(login_informed);
    reveal(status_informed);
    reveal(doctor_informed);
    lemma_activated(SessionModel { state: state_of(contents), ..session }, profile);
}

/// A task that names a profile that is not configured is over, but for a
/// diagnosis, which then is about none.
pub proof fn law_unknown_profile(session: SessionModel, contents: Seq<char>, profile: Seq<char>)
    requires
        session.step is Loading,
        !session.profiles.contains(profile),
    ensures
        ({
            let after = next(session, ReplyModel::File(FileModel::Contents(contents)));
            &&& session.task == TaskModel::Switch(Some(profile)) || session.task
                == TaskModel::Login(Some(profile)) || session.task == TaskModel::Status(
                Some(profile),
            ) ==> after.step is Finished && (after.action matches ActionModel::Finish(Err(message))
                && ("AWS profile '"@ + profile + "' was not found"@).is_prefix_of(message))
            &&& session.task == TaskModel::Doctor(Some(profile)) ==> after.diagnosis
                == (DiagnosisModel { checks: Seq::empty(), identity: None, config: None })
        }),
        session.task == TaskModel::Doctor(Some(profile)) ==> context_of(session).profile is None,
{
    reveal(file_told);
    reveal(state_told);
    reveal(informed);
    reveal(switch_informed);
    reveal(login_informed);
    reveal(status_informed);
    reveal(doctor_informed);
    reveal(diagnosed);
    reveal(versioned);
    reveal(concluded);
    let start = "AWS profile '"@ + profile + "' was not found"@;
    let whole = start + hint_for(profile, session.profiles);
    assert(start.is_prefix_of(whole)) by {
        assert(whole.subrange(0, start.len() as int) =~= start);
    }
}

/// A task that names no profile is about the one in effect: that of the
/// environment, where it names one, and else the one that was switched to last.
/// Where that is none that is configured, a login and a report are over, and a
/// diagnosis is about none.
pub proof fn law_profile_in_effect(session: SessionModel, contents: Seq<char>, profile: Seq<char>)
    requires
        session.step is Loading,
        session.environment.aws_profile matches Some(named) ==> if trimmed(named).len() > 0 {
            profile == named
        } else {
            state_of(contents).current == Some(profile)
        },
        session.environment.aws_profile is None ==> state_of(contents).current == Some(profile),
    ensures
        ({
            let after = next(session, ReplyModel::File(FileModel::Contents(contents)));
            let known = session.profiles.contains(profile);
            &&& known && session.task == TaskModel::Login(None) ==> after.profile == profile
                && after.step is SignInConfig && reads_config(after)
            &&& known && session.task == TaskModel::Status(None) ==> after.profile == profile
                && after.step is StatusConfig && reads_config(after)
            &&& known && session.task == TaskModel::Doctor(None) ==> after.profile == profile
                && after.step is DoctorConfig && reads_config(after) && context_of(after).profile
                == Some(profile)
            &&& !known && (session.task == TaskModel::Login(None) || session.task
                == TaskModel::Status(None)) ==> fails(
                after,
                "no active profile; run `awswap <profile>` first"@,
            )
            &&& !known && session.task == TaskModel::Doctor(None) ==> context_of(
                after,
            ).profile is None
        }),
{
    reveal(file_told);
    reveal(state_told);
    reveal(informed);
    reveal(login_informed);
    reveal(status_informed);
    reveal(doctor_informed);
    reveal(diagnosed);
    reveal(versioned);
    reveal(concluded);
}

/// A switch back goes to the previous profile, where there is one and it is still
/// configured.
pub proof fn law_switch_back_goes(session: SessionModel, contents: Seq<char>)
    requires
        session.step is Loading,
        session.task is Previous,
    ensures
        ({
            let after = next(session, ReplyModel::File(FileModel::Contents(contents)));
            match state_of(contents).previous {
                Some(previous) => {
                    &&& session.profiles.contains(previous) ==> asks_caller(after, previous)
                    &&& !session.profiles.contains(previous) ==> after.step is Finished && (
                    after.action matches ActionModel::Finish(Err(message)) && (
                    "AWS profile '"@ + previous + "' was not found"@).is_prefix_of(message))
                },
                None => fails(after, "no previous AWS profile"@),
            }
        }),
{
    reveal(file_told);
    reveal(state_told);
    reveal(informed);
    reveal(previous_informed);
    let known = SessionModel { state: state_of(contents), ..session };
    match state_of(contents).previous {
        Some(previous) => {
            lemma_activated(known, previous);
            let start = "AWS profile '"@ + previous + "' was not found"@;
            let whole = start + hint_for(previous, session.profiles);
            assert(whole.subrange(0, start.len() as int) =~= start);
        },
        None => {},
    }
}

/// A switch without a profile asks for one, where there is a terminal to ask on.
pub proof fn law_switch_asks(session: SessionModel, contents: Seq<char>)
    requires
        session.step is Loading,
        session.task == TaskModel::Switch(None),
    ensures
        ({
            let after = next(session, ReplyModel::File(FileModel::Contents(contents)));
            &&& session.environment.input_terminal && session.environment.error_terminal
                ==> after.step is ChoiceConfig && reads_config(after)
            &&& !(session.environment.input_terminal && session.environment.error_terminal)
                ==> fails(after, "interactive selection requires a terminal; pass a profile name"@)
        }),
{
    reveal(file_told);
    reveal(state_told);
    reveal(informed);
    reveal(switch_informed);
}

/// The user is offered every configured profile once: the one in effect first,
/// the previous one next, and each with what the configuration says of it.
pub proof fn law_question(session: SessionModel, contents: Seq<char>)
    requires
        session.step is ChoiceConfig,
    ensures
        ({
            let after = next(session, ReplyModel::File(FileModel::Contents(contents)));
            let active = profile_in_effect(session.environment, session.state);
            &&& after.step is Choosing
            &&& after.action matches ActionModel::Ask(prompt) && {
                &&& prompt.choices.len() == offered_profiles(session).len()
                &&& prompt.page_size == if prompt.choices.len() < 12 {
                    prompt.choices.len()
                } else {
                    12
                }
                &&& forall|name: Seq<char>| #[trigger]
                    session.profiles.contains(name) <==> exists|i: int|
                        0 <= i < prompt.choices.len() && (#[trigger] prompt.choices[i]).name == name
                &&& forall|i: int, j: int|
                    0 <= i < j < prompt.choices.len() ==> (#[trigger] prompt.choices[i]).name != (
                    #[trigger] prompt.choices[j]).name
                &&& active matches Some(name) ==> session.profiles.contains(name)
                    ==> prompt.choices[0].name == name
                &&& active matches Some(name) ==> session.state.previous matches Some(previous)
                    ==> session.profiles.contains(name) && session.profiles.contains(previous)
                    && previous != name ==> prompt.choices[1].name == previous
                &&& forall|i: int| #![trigger prompt.choices[i]]
                    0 <= i < prompt.choices.len() ==> {
                        let choice = prompt.choices[i];
                        let config = config_of(contents, choice.name);
                        &&& choice.marker == if active == Some(choice.name) {
                            "● "@
                        } else if session.state.previous == Some(choice.name) {
                            "↩ "@
                        } else {
                            "  "@
                        }
                        &&& config.region matches Some(region) ==> choice.region == region
                        &&& config.region is None ==> choice.region == "—"@
                        &&& choice.auth == auth_of(config)
                        &&& config.is_sso ==> choice.auth == "SSO"@
                        &&& !config.is_sso && config.is_login ==> choice.auth == "login"@
                        &&& config.account_id matches Some(account) ==> choice.account == account
                        &&& config.account_id is None ==> choice.account.len() == 0
                    }
            }
        }),
{
    reveal(file_told);
    reveal(choice_config_told);
    let active = profile_in_effect(session.environment, session.state);
    law_listing(session.profiles, session.state, active);
    law_listing_order(session.profiles, session.state, active);
    let names = listing(session.profiles, session.state, active);
    let after = next(session, ReplyModel::File(FileModel::Contents(contents)));
    if let ActionModel::Ask(prompt) = after.action {
        assert forall|i: int| 0 <= i < prompt.choices.len() implies (
        #[trigger] prompt.choices[i]).name == names[i] by {}
        assert forall|name: Seq<char>| #[trigger] session.profiles.contains(name) <==> exists|i: int|
            0 <= i < prompt.choices.len() && (#[trigger] prompt.choices[i]).name == name by {
            assert(names.contains(name) <==> session.profiles.contains(name));
            if names.contains(name) {
                let i = choose|i: int| 0 <= i < names.len() && names[i] == name;
                assert(prompt.choices[i].name == name);
            }
            if exists|i: int| 0 <= i < prompt.choices.len() && (#[trigger] prompt.choices[i]).name
                == name {
                let i = choose|i: int|
                    0 <= i < prompt.choices.len() && (#[trigger] prompt.choices[i]).name == name;
                assert(names[i] == name);
            }
        }
        if active is Some && session.profiles.contains(active->0) {
            assert(names.contains(active->0));
            assert(prompt.choices[0].name == names[0]);
            if session.state.previous is Some && session.profiles.contains(
                session.state.previous->0,
            ) && session.state.previous != active {
                assert(names.contains(session.state.previous->0));
                let k = choose|k: int|
                    0 <= k < names.len() && names[k] == session.state.previous->0;
                assert(k != 0);
                assert(prompt.choices[1].name == names[1]);
            }
        }
    }
}

/// The switch goes on with the profile on the line that the user chose. Where they
/// chose none, the run is over, without a word where they left.
pub proof fn law_choice(session: SessionModel, index: nat, error: Seq<char>)
    requires
        consistent(session),
        session.step is Choosing,
    ensures
        session.action matches ActionModel::Ask(prompt) ==> index < prompt.choices.len()
            ==> asks_caller(
            next(session, ReplyModel::Chosen(Ok(index))),
            prompt.choices[index as int].name,
        ) && next(session, ReplyModel::Chosen(Ok(index))).first_error is None,
        fails(next(session, ReplyModel::Chosen(Err(SelectionFailureModel::Canceled))), ""@),
        fails(next(session, ReplyModel::Chosen(Err(SelectionFailureModel::Interrupted))), ""@),
        fails(
            next(session, ReplyModel::Chosen(Err(SelectionFailureModel::Other(error)))),
            "could not read selection: "@ + error,
        ),
{
    reveal(choice_told);
    reveal_strlit("");
    assert(""@ =~= Seq::<char>::empty());
    if let ActionModel::Ask(prompt) = session.action {
        if index < prompt.choices.len() {
            assert(prompt.choices[index as int].name == offered_profiles(session)[index as int]);
            lemma_activated(session, offered_profiles(session)[index as int]);
        }
    }
}

/// A report and a diagnosis take over what the configuration says of their
/// profile, and then check its credentials.
pub proof fn law_report_configured(session: SessionModel, contents: Seq<char>, error: Seq<char>)
    requires
        session.step is StatusConfig || session.step is DoctorConfig,
    ensures
        ({
            let after = next(session, ReplyModel::File(FileModel::Contents(contents)));
            after.config == config_of(contents, session.profile) && asks_caller(
                after,
                session.profile,
            )
        }),
        fails(
            next(session, ReplyModel::File(FileModel::Failed(error))),
            "could not read AWS config: "@ + error,
        ),
{
    reveal(file_told);
    reveal(report_config_told);
    lemma_validating(
        SessionModel { config: config_of(contents, session.profile), ..session },
    );
    reveal(validating);
}

/// A report shows the caller that AWS named, with the profile and what the
/// configuration says of it; where AWS named none, the run is over with the error.
pub proof fn law_status_reported(session: SessionModel, run: Result<OutputModel, FailureModel>)
    requires
        session.step is Validating,
        session.task is Status,
    ensures
        ({
            let after = next(session, ReplyModel::Ran(run));
            match caller_found(session.profile, session.options.verbose, run) {
                Ok(identity) => {
                    &&& succeeds(after)
                    &&& after.identity == identity
                    &&& exists|report: StatusModel|
                        {
                            &&& after.said == session.said + #[trigger] status_lines(
                                report,
                                session.options,
                                session.environment.color,
                            )
                            &&& report.identity == identity
                            &&& report.profile == session.profile
                            &&& report.config == session.config
                            &&& report.shell_hook == session.environment.shell_hook
                            &&& report.clients == (if session.environment.docker {
                                seq!["Docker"@]
                            } else {
                                Seq::empty()
                            }) + (if session.environment.helm {
                                seq!["Helm"@]
                            } else {
                                Seq::empty()
                            })
                        }
                },
                Err(message) => fails(after, message) && after.said == session.said,
            }
        }),
{
    reveal(run_told);
    reveal(caller_told);
    let environment = session.environment;
    let names = client_names(environment.docker, environment.helm);
    assert(names =~= (if environment.docker {
        seq!["Docker"@]
    } else {
        Seq::empty()
    }) + (if environment.helm {
        seq!["Helm"@]
    } else {
        Seq::empty()
    }));
    match caller_found(session.profile, session.options.verbose, run) {
        Ok(identity) => {
            let report = status_of(
                session.profile,
                session.config,
                identity,
                environment,
            );
            assert(next(session, ReplyModel::Ran(run)).said == session.said + status_lines(
                report,
                session.options,
                environment.color,
            ));
        },
        Err(_) => {},
    }
}

/// A login takes the caller over that AWS named, and goes on to the registries;
/// where AWS named none, it is over with the error.
pub proof fn law_login_checked(session: SessionModel, run: Result<OutputModel, FailureModel>)
    requires
        session.step is Validating,
        session.task is Login,
    ensures
        ({
            let after = next(session, ReplyModel::Ran(run));
            match caller_found(session.profile, session.options.verbose, run) {
                Ok(identity) => after.identity == identity && after.step is RegionConfig
                    && reads_config(after),
                Err(message) => fails(after, message),
            }
        }),
{
    reveal(run_told);
    reveal(caller_told);
}

/// A switch whose credentials AWS accepts is remembered: what is written, below
/// the directory of the state, is that the profile is the current one, that the one
/// before it is the previous one, and that it was used most recently.
pub proof fn law_switch_checked(
    session: SessionModel,
    run: Result<OutputModel, FailureModel>,
    identity: IdentityModel,
)
    requires
        session.step is Validating,
        session.task is Switch || session.task is Previous,
        caller_found(session.profile, session.options.verbose, run) == Ok::<_, Seq<char>>(identity),
    ensures
        ({
            let after = next(session, ReplyModel::Ran(run));
            &&& after.state.current == Some(session.profile)
            &&& session.state.current != Some(session.profile) ==> after.state.previous
                == session.state.current
            &&& session.state.current == Some(session.profile) ==> after.state.previous
                == session.state.previous
            &&& after.state.recent.len() > 0 && after.state.recent[0] == session.profile
            &&& after.identity == identity
            &&& match state_directory(session.environment.places) {
                Ok(directory) => {
                    &&& after.step is Saving
                    &&& after.action matches ActionModel::Save(save) && save.directory == directory
                        && save.contents == contents_of(after.state) && save.temporary == path_below(
                        session.environment.places.platform,
                        directory,
                        ".state."@ + decimal(session.environment.process as nat) + ".tmp"@,
                    )
                        && Ok::<_, Seq<char>>(save.path) == state_file(session.environment.places)
                },
                Err(message) => fails(after, message),
            }
        }),
{
    reveal(run_told);
    reveal(caller_told);
    reveal(first_check_told);
    reveal(remembering);
    law_switch(session.state, session.profile);
}

/// A switch whose credentials AWS does not accept asks for a sign-in where the
/// error advises one, the first time; else it is over with the error.
pub proof fn law_switch_refused(
    session: SessionModel,
    run: Result<OutputModel, FailureModel>,
    message: Seq<char>,
)
    requires
        session.step is Validating,
        session.task is Switch || session.task is Previous,
        caller_found(session.profile, session.options.verbose, run) == Err::<IdentityModel, _>(
            message,
        ),
    ensures
        ({
            let after = next(session, ReplyModel::Ran(run));
            &&& session.first_error is None && contains(message, "`awswap login"@) ==> {
                &&& after.step is SignInConfig
                &&& reads_config(after)
                &&& after.first_error == Some(message)
                &&& !session.options.quiet && !session.options.json && !session.environment.color
                    ==> after.said == session.said.push(
                    LineModel::Note(
                        "auth: credentials for "@ + session.profile + " need refreshing"@,
                    ),
                )
            }
            &&& session.first_error is Some || !contains(message, "`awswap login"@) ==> fails(
                after,
                message,
            )
        }),
{
    reveal(run_told);
    reveal(caller_told);
    reveal(first_check_told);
    reveal_strlit("auth: credentials for ");
    reveal_strlit("auth:");
    reveal_strlit(" credentials for ");
    assert("auth:"@ + " credentials for "@ =~= "auth: credentials for "@);
}

/// A switch whose credentials have expired, by what the AWS CLI says, asks for a
/// sign-in.
pub proof fn law_expired_switch_signs_in(session: SessionModel, output: OutputModel)
    requires
        session.step is Validating,
        session.task is Switch || session.task is Previous,
        session.first_error is None,
        !output.success,
        contains(lowered(detail_of(output)), "expiredtoken"@) || contains(
            lowered(detail_of(output)),
            "token has expired"@,
        ) || contains(lowered(detail_of(output)), "unauthorizedssotoken"@) || (contains(
            lowered(detail_of(output)),
            "sso session"@,
        ) && contains(lowered(detail_of(output)), "expired"@)),
    ensures
        next(session, ReplyModel::Ran(Ok(output))).step is SignInConfig,
        reads_config(next(session, ReplyModel::Ran(Ok(output)))),
        next(session, ReplyModel::Ran(Ok(output))).first_error is Some,
{
    law_expired_texts(session.profile, session.options.verbose, output);
    reveal(run_told);
    reveal(caller_told);
    reveal(first_check_told);
}

/// A sign-in is the one that the configuration calls for, under the profile and
/// without static credentials; once it has worked, the credentials are checked.
pub proof fn law_sign_in(
    session: SessionModel,
    contents: Seq<char>,
    run: Result<OutputModel, FailureModel>,
)
    requires
        session.step is SignInConfig,
    ensures
        ({
            let config = config_of(contents, session.profile);
            let after = next(session, ReplyModel::File(FileModel::Contents(contents)));
            let done = next(after, ReplyModel::Ran(run));
            &&& config.is_sso || config.is_login ==> {
                &&& after.step is SigningIn
                &&& after.action matches ActionModel::Run(call) && call.program == "aws"@
                    && call.args == (if config.is_sso {
                    seq!["sso"@, "login"@, "--profile"@, session.profile]
                } else {
                    seq!["login"@, "--profile"@, session.profile]
                }) && call.unset == seq![
                    "AWS_ACCESS_KEY_ID"@,
                    "AWS_SECRET_ACCESS_KEY"@,
                    "AWS_SESSION_TOKEN"@,
                ] && call.set.len() == 0 && call.capture is Nothing
                &&& (run matches Ok(output) && output.success) ==> asks_caller(done, session.profile)
                    && done.first_error == session.first_error
                &&& run matches Ok(output) ==> !output.success ==> fails(
                    done,
                    sign_in_message(session.first_error, "AWS login failed with "@ + output.status),
                )
                &&& run matches Err(FailureModel::Start(error)) ==> fails(
                    done,
                    sign_in_message(session.first_error, "could not start AWS login: "@ + error),
                )
                &&& !session.options.quiet && !session.options.json && !session.options.verbose
                    && !session.environment.color ==> after.said == session.said.push(
                    LineModel::Note(
                        "auth: opening AWS sign-in for "@ + session.profile + "…"@,
                    ),
                )
            }
            &&& !config.is_sso && !config.is_login ==> fails(
                after,
                sign_in_message(
                    session.first_error,
                    "profile '"@ + session.profile
                        + "' is not configured for SSO or `aws login`; refresh its credentials manually"@,
                ),
            )
        }),
{
    reveal(file_told);
    reveal(sign_in_config_told);
    reveal(run_told);
    reveal(sign_in_told);
    reveal_strlit("auth: opening AWS sign-in for ");
    reveal_strlit("auth:");
    reveal_strlit(" opening AWS sign-in for ");
    assert("auth:"@ + " opening AWS sign-in for "@ =~= "auth: opening AWS sign-in for "@);
    let after = next(session, ReplyModel::File(FileModel::Contents(contents)));
    lemma_validating(after);
    if let ActionModel::Run(call) = after.action {
        if config_of(contents, session.profile).is_sso {
            assert(call.args =~= seq!["sso"@, "login"@, "--profile"@, session.profile]);
        } else {
            assert(call.args =~= seq!["login"@, "--profile"@, session.profile]);
        }
    }
}

/// Once a switch was written it goes on with the configuration; where it could not
/// be written, it is over, and the message names the step that failed.
pub proof fn law_switch_written(session: SessionModel, error: Seq<char>)
    requires
        session.step is Saving,
    ensures
        next(session, ReplyModel::Saved(Ok(()))).step is RegionConfig,
        reads_config(next(session, ReplyModel::Saved(Ok(())))),
        session.action matches ActionModel::Save(save) ==> {
            &&& fails(
                next(
                    session,
                    ReplyModel::Saved(Err(SaveFailureModel::Create(error))),
                ),
                "could not create "@ + lossy(save.directory) + ": "@ + error,
            )
            &&& fails(
                next(
                    session,
                    ReplyModel::Saved(Err(SaveFailureModel::Write(error))),
                ),
                "could not write "@ + lossy(save.temporary) + ": "@ + error,
            )
            &&& fails(
                next(
                    session,
                    ReplyModel::Saved(Err(SaveFailureModel::Update(error))),
                ),
                "could not update "@ + lossy(save.path) + ": "@ + error,
            )
        },
{
    reveal(save_told);
    reveal_strlit("could not create ");
    reveal_strlit("could not write ");
    reveal_strlit("could not update ");
    reveal_strlit("could not ");
    reveal_strlit("create");
    reveal_strlit("write");
    reveal_strlit("update");
    reveal_strlit(" ");
    assert("could not "@ + "create"@ + " "@ =~= "could not create "@);
    assert("could not "@ + "write"@ + " "@ =~= "could not write "@);
    assert("could not "@ + "update"@ + " "@ =~= "could not update "@);
}

/// A switch prints its receipt, of the profile, the caller and the region that the
/// configuration gives, before anything is done about registries; a login prints
/// none.
pub proof fn law_receipt(session: SessionModel, contents: Seq<char>, error: Seq<char>)
    requires
        session.step is RegionConfig,
    ensures
        ({
            let after = next(session, ReplyModel::File(FileModel::Contents(contents)));
            let config = config_of(contents, session.profile);
            let receipt = activation_lines(
                session.profile,
                session.identity,
                config,
                session.options,
                session.environment,
            );
            &&& after.config == config
            &&& session.task is Switch || session.task is Previous ==> after == logins_begun(
                SessionModel { config, said: session.said + receipt, ..session },
            )
            &&& !(session.task is Switch || session.task is Previous) ==> after == logins_begun(
                SessionModel { config, ..session },
            )
        }),
        fails(
            next(session, ReplyModel::File(FileModel::Failed(error))),
            "could not read AWS config: "@ + error,
        ),
{
    law_keeps(session, ReplyModel::File(FileModel::Contents(contents)));
    reveal(file_told);
    reveal(region_told);
    reveal(receipted);
    let config = config_of(contents, session.profile);
    lemma_begun_config(SessionModel { config, ..session });
    lemma_begun_config(
        SessionModel {
            config,
            said: session.said + activation_lines(
                session.profile,
                session.identity,
                config,
                session.options,
                session.environment,
            ),
            ..session
        },
    );
}

proof fn lemma_begun_config(session: SessionModel)
    ensures
        logins_begun(session).config == session.config,
{
    reveal(logins_begun);
    reveal(registries_sought);
    reveal(registries_known);
    reveal(logins_over);
}

/// The profile in effect is printed: that of the environment, where it names one,
/// and else the current one; where there is none, the run is over with an error.
pub proof fn law_current_printed(session: SessionModel, contents: Seq<char>)
    requires
        session.step is Loading,
        session.task is Current,
        !session.options.json,
    ensures
        ({
            let after = next(session, ReplyModel::File(FileModel::Contents(contents)));
            let named = session.environment.aws_profile;
            let current = state_of(contents).current;
            &&& named is Some && trimmed(named->0).len() > 0 ==> succeeds(after) && after.said
                == session.said.push(LineModel::Out(named->0))
            &&& (named is None || trimmed(named->0).len() == 0) && current is Some ==> succeeds(
                after,
            ) && after.said == session.said.push(LineModel::Out(current->0))
            &&& (named is None || trimmed(named->0).len() == 0) && current is None ==> fails(
                after,
                "no active AWS profile"@,
            ) && after.said == session.said
        }),
{
    reveal(file_told);
    reveal(state_told);
    reveal(informed);
    reveal(current_informed);
}

/// A list that is not for a terminal holds one line for each configured profile,
/// its name: the one in effect first.
pub proof fn law_names_listed(session: SessionModel, contents: Seq<char>)
    requires
        session.step is Loading,
        session.task is List,
        !session.options.json,
        session.options.quiet || !session.environment.output_terminal,
    ensures
        ({
            let after = next(session, ReplyModel::File(FileModel::Contents(contents)));
            let added = after.said.skip(session.said.len() as int);
            let active = profile_in_effect(session.environment, state_of(contents));
            &&& succeeds(after)
            &&& after.said == session.said + added
            &&& forall|name: Seq<char>| #[trigger]
                session.profiles.contains(name) <==> added.contains(LineModel::Out(name))
            &&& added.no_duplicates()
            &&& active matches Some(name) ==> session.profiles.contains(name) ==> added[0]
                == LineModel::Out(name)
        }),
{
    reveal(file_told);
    reveal(state_told);
    reveal(informed);
    reveal(list_informed);
    reveal(listed);
    let state = state_of(contents);
    let active = profile_in_effect(session.environment, state);
    law_listing(session.profiles, state, active);
    law_listing_order(session.profiles, state, active);
    let names = listing(session.profiles, state, active);
    let after = next(session, ReplyModel::File(FileModel::Contents(contents)));
    let added = after.said.skip(session.said.len() as int);
    let lines = name_lines(names);
    assert(after.said == session.said + lines);
    assert(added =~= lines);
    assert forall|name: Seq<char>| #[trigger] session.profiles.contains(name) <==> added.contains(
        LineModel::Out(name),
    ) by {
        assert(names.contains(name) <==> session.profiles.contains(name));
        if names.contains(name) {
            let i = choose|i: int| 0 <= i < names.len() && names[i] == name;
            assert(lines[i] == LineModel::Out(name));
        }
        if added.contains(LineModel::Out(name)) {
            let i = choose|i: int| 0 <= i < added.len() && added[i] == LineModel::Out(name);
            assert(lines[i] == LineModel::Out(names[i]));
        }
    }
    if active is Some && session.profiles.contains(active->0) {
        assert(names.contains(active->0));
        assert(lines[0] == LineModel::Out(names[0]));
    }
}

/// A diagnosis takes over the caller that AWS named, or why it named none, with
/// what the configuration says of the profile; then it asks for the version of the
/// AWS CLI, where there is one.
pub proof fn law_doctor_checked(session: SessionModel, run: Result<OutputModel, FailureModel>)
    requires
        session.step is Validating,
        session.task is Doctor,
    ensures
        ({
            let after = next(session, ReplyModel::Ran(run));
            let caller = caller_found(session.profile, session.options.verbose, run);
            &&& after.diagnosis == diagnosis_of(session.config, caller)
            &&& after.diagnosis.config == Some(session.config)
            &&& caller matches Ok(identity) ==> after.diagnosis.identity == Some(identity)
            &&& caller is Err ==> after.diagnosis.identity is None
            &&& session.environment.aws ==> asks_version(after)
        }),
{
    reveal(run_told);
    reveal(caller_told);
    reveal(diagnosed);
    reveal(versioned);
    reveal(concluded);
}

/// The run asks for the version of the AWS CLI.
pub open spec fn asks_version(session: SessionModel) -> bool {
    &&& session.step is Version
    &&& session.action matches ActionModel::Run(call) && call.program == "aws"@ && call.args == seq![
        "--version"@,
    ]
}

/// All checks of a diagnosis: of what it has found out, of the version and of
/// Docker's helper.
pub open spec fn checks_made(
    session: SessionModel,
    version: Option<Seq<char>>,
    helper: Option<CheckModel>,
) -> Seq<CheckModel> {
    let context = ContextModel {
        profiles: session.profiles,
        profile: diagnosed_profile(session),
        config_path: aws_config_file(session.environment.places),
        state_path: match state_file(session.environment.places) {
            Ok(path) => path,
            Err(_) => Seq::empty(),
        },
    };
    all_checks(context, session.diagnosis, version, helper, session.environment)
}

/// One of the checks has failed.
pub open spec fn has_problem(checks: Seq<CheckModel>) -> bool {
    exists|i: int| 0 <= i < checks.len() && (#[trigger] checks[i]).level is Fail
}

/// The run is over, and has printed all checks. It has succeeded where none of them
/// failed.
pub open spec fn has_diagnosed(
    before: SessionModel,
    after: SessionModel,
    version: Option<Seq<char>>,
    helper: Option<CheckModel>,
) -> bool {
    let checks = checks_made(before, version, helper);
    &&& after.step is Finished
    &&& after.said == before.said + checks_lines(checks, before.options, before.environment.color)
    &&& !has_problem(checks) ==> succeeds(after)
    &&& has_problem(checks) ==> fails(
        after,
        "doctor found "@ + decimal(failures_in(checks)) + " blocking problem(s)"@,
    )
}

proof fn lemma_concluded(session: SessionModel, helper: Option<CheckModel>)
    ensures
        has_diagnosed(session, concluded(session, helper), session.version, helper),
{
    reveal(concluded);
    let checks = all_checks(
        context_of(session),
        session.diagnosis,
        session.version,
        helper,
        session.environment,
    );
    law_diagnosis_verdict(checks);
}

/// The version is what the AWS CLI printed. Where the caller, its region and Docker
/// are known, Docker's configuration is read for the helper of the account's
/// registry; else the diagnosis is printed without it.
pub proof fn law_doctor_version(session: SessionModel, output: OutputModel)
    requires
        session.step is Version,
        session.task is Doctor,
    ensures
        ({
            let after = next(session, ReplyModel::Ran(Ok(output)));
            let version = if detail_of(output).len() > 0 {
                Some(detail_of(output))
            } else {
                None
            };
            let known = session.environment.docker && session.diagnosis.identity is Some
                && session.diagnosis.config is Some
                && session.diagnosis.config->0.region is Some;
            let registry = registry_of(
                session.diagnosis.identity->0.account,
                session.diagnosis.config->0.region->0,
            );
            &&& after.version == version
            &&& !known ==> has_diagnosed(session, after, version, None)
            &&& known ==> match docker_config_file(session.environment.places) {
                Some(path) => after.step is DoctorHelper && after.action == ActionModel::Read(path),
                None => has_diagnosed(
                    session,
                    after,
                    version,
                    Some(helper_checked(registry, Ok(None))),
                ),
            }
        }),
{
    reveal(run_told);
    reveal(version_told);
    reveal(versioned);
    let version = if detail_of(output).len() > 0 {
        Some(detail_of(output))
    } else {
        None
    };
    let known = SessionModel { version, ..session };
    lemma_concluded(known, None);
    let registry = registry_of(
        session.diagnosis.identity->0.account,
        session.diagnosis.config->0.region->0,
    );
    lemma_concluded(known, Some(helper_checked(registry, Ok(None))));
    lemma_concluded_version(known, None);
    lemma_concluded_version(known, Some(helper_checked(registry, Ok(None))));
}

proof fn lemma_concluded_version(session: SessionModel, helper: Option<CheckModel>)
    ensures
        concluded(session, helper).version == session.version,
{
    reveal(concluded);
}

/// Once Docker's configuration was read, the diagnosis is printed with the helper
/// that it names for the account's registry.
pub proof fn law_doctor_helper(session: SessionModel, read: FileModel)
    requires
        session.step is DoctorHelper,
        session.environment.docker,
        session.diagnosis.identity is Some,
        session.diagnosis.config is Some,
        session.diagnosis.config->0.region is Some,
    ensures
        ({
            let registry = registry_of(
                session.diagnosis.identity->0.account,
                session.diagnosis.config->0.region->0,
            );
            session.action matches ActionModel::Read(path) ==> has_diagnosed(
                session,
                next(session, ReplyModel::File(read)),
                session.version,
                Some(helper_checked(registry, helper_read(path, read, registry))),
            )
        }),
{
    reveal(file_told);
    reveal(doctor_helper_told);
    let registry = registry_of(
        session.diagnosis.identity->0.account,
        session.diagnosis.config->0.region->0,
    );
    if let ActionModel::Read(path) = session.action {
        lemma_concluded(
            session,
            Some(helper_checked(registry, helper_read(path, read, registry))),
        );
    }
}

/// The blocking problems are the checks that failed, and each of them counts.
pub proof fn law_problems_counted(checks: Seq<CheckModel>, check: CheckModel)
    ensures
        failures_in(Seq::empty()) == 0,
        check.level is Fail ==> failures_in(checks.push(check)) == failures_in(checks) + 1,
        !(check.level is Fail) ==> failures_in(checks.push(check)) == failures_in(checks),
{
    assert(checks.push(check).drop_last() =~= checks);
}

/// A command that takes nothing but itself prints its text and is over.
pub proof fn law_scripts(options: OptionsModel, shell: Shell, environment: EnvironmentModel)
    ensures
        ({
            let hook = asked(
                CliModel { options, profile: None, command: Some(CommandModel::Init(shell)) },
                environment,
            );
            let completions = asked(
                CliModel { options, profile: None, command: Some(CommandModel::Completions(shell)) },
                environment,
            );
            let version = asked(
                CliModel { options, profile: None, command: Some(CommandModel::Version) },
                environment,
            );
            &&& succeeds(version) && version.said == seq![LineModel::Out("awswap "@ + VERSION@)]
            &&& succeeds(hook) && hook.said == seq![
                LineModel::Script(
                    match shell {
                        Shell::Fish => FISH_HOOK@,
                        _ => POSIX_HOOK@,
                    },
                ),
            ]
            &&& succeeds(completions) && completions.said == seq![
                LineModel::Script(
                    match shell {
                        Shell::Bash => BASH_COMPLETIONS@,
                        Shell::Zsh => ZSH_COMPLETIONS@,
                        Shell::Fish => FISH_COMPLETIONS@,
                    },
                ),
            ]
        }),
{
    let none = Seq::<LineModel>::empty();
    assert(none + seq![LineModel::Out("awswap "@ + VERSION@)] =~= seq![
        LineModel::Out("awswap "@ + VERSION@),
    ]);
    assert(none + seq![LineModel::Script(POSIX_HOOK@)] =~= seq![LineModel::Script(POSIX_HOOK@)]);
    assert(none + seq![LineModel::Script(FISH_HOOK@)] =~= seq![LineModel::Script(FISH_HOOK@)]);
    assert(none + seq![LineModel::Script(BASH_COMPLETIONS@)] =~= seq![
        LineModel::Script(BASH_COMPLETIONS@),
    ]);
    assert(none + seq![LineModel::Script(ZSH_COMPLETIONS@)] =~= seq![
        LineModel::Script(ZSH_COMPLETIONS@),
    ]);
    assert(none + seq![LineModel::Script(FISH_COMPLETIONS@)] =~= seq![
        LineModel::Script(FISH_COMPLETIONS@),
    ]);
}

/// A list for a terminal or in JSON reads the configuration first, and then prints
/// every configured profile: the one in effect first.
pub proof fn law_list_printed(session: SessionModel, contents: Seq<char>)
    requires
        session.task is List,
        session.options.json || (session.environment.output_terminal && !session.options.quiet),
    ensures
        session.step is Loading ==> {
            let after = next(session, ReplyModel::File(FileModel::Contents(contents)));
            after.step is ListConfig && reads_config(after) && after.state == state_of(contents)
        },
        session.step is ListConfig ==> {
            let after = next(session, ReplyModel::File(FileModel::Contents(contents)));
            let active = profile_in_effect(session.environment, session.state);
            &&& succeeds(after)
            &&& exists|lines: Seq<LineModel>|
                {
                    &&& after.said == #[trigger] (session.said + lines)
                    &&& listed_lines(
                        listing(session.profiles, session.state, active),
                        session.state,
                        active,
                        session.options,
                        session.environment,
                        FileModel::Contents(contents),
                    ) == Ok::<_, Seq<char>>(lines)
                }
        },
{
    reveal(file_told);
    reveal(state_told);
    reveal(informed);
    reveal(list_informed);
    reveal(listed);
    if session.step is ListConfig {
        let active = profile_in_effect(session.environment, session.state);
        let lines = listed_lines(
            listing(session.profiles, session.state, active),
            session.state,
            active,
            session.options,
            session.environment,
            FileModel::Contents(contents),
        )->Ok_0;
        let after = next(session, ReplyModel::File(FileModel::Contents(contents)));
        assert(after.said == session.said + lines);
    }
}

/// A file that is not there counts as one that is empty; one that cannot be read
/// ends what needs it.
pub proof fn law_missing_file(session: SessionModel, error: Seq<char>)
    requires
        session.step is Loading || session.step is ChoiceConfig || session.step is SignInConfig
            || session.step is RegionConfig || session.step is StatusConfig
            || session.step is DoctorConfig || (session.step is ListConfig
            && !session.options.json),
    ensures
        next(session, ReplyModel::File(FileModel::Missing)) == next(
            session,
            ReplyModel::File(FileModel::Contents(Seq::empty())),
        ),
        session.step is ChoiceConfig || session.step is RegionConfig || session.step is StatusConfig
            || session.step is DoctorConfig || (session.step is ListConfig && !session.options.quiet
            && session.environment.output_terminal) ==> fails(
            next(session, ReplyModel::File(FileModel::Failed(error))),
            "could not read AWS config: "@ + error,
        ),
        session.step is SignInConfig ==> fails(
            next(session, ReplyModel::File(FileModel::Failed(error))),
            sign_in_message(session.first_error, "could not read AWS config: "@ + error),
        ),
{
    reveal(file_told);
    reveal(state_told);
    reveal(choice_config_told);
    reveal(sign_in_config_told);
    reveal(region_told);
    reveal(report_config_told);
    reveal(listed);
}

/// A check of the credentials is announced with the profile's name where progress
/// is shown.
pub proof fn law_check_announced(session: SessionModel, contents: Seq<char>)
    requires
        session.step is StatusConfig || session.step is DoctorConfig,
        session.environment.error_terminal,
        !session.environment.color,
        !session.options.quiet,
        !session.options.json,
        !session.options.verbose,
    ensures
        next(session, ReplyModel::File(FileModel::Contents(contents))).said == session.said.push(
            LineModel::Note("… Validating credentials for "@ + session.profile + "…"@),
        ),
{
    reveal(file_told);
    reveal(report_config_told);
    reveal(validating);
    reveal_strlit("… Validating credentials for ");
    reveal_strlit("…");
    reveal_strlit(" ");
    reveal_strlit("Validating credentials for ");
    assert("…"@ + " "@ + ("Validating credentials for "@ + session.profile + "…"@)
        =~= "… Validating credentials for "@ + session.profile + "…"@);
}

/// An AWS CLI that cannot be asked for its version is like one that prints none.
pub proof fn law_no_version(session: SessionModel, failure: FailureModel, output: OutputModel)
    requires
        session.step is Version,
        detail_of(output).len() == 0,
    ensures
        next(session, ReplyModel::Ran(Err(failure))) == next(session, ReplyModel::Ran(Ok(output))),
{
    reveal(run_told);
    reveal(version_told);
}

} // verus!
