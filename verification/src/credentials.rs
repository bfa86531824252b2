//! Whether a profile's credentials are valid, and how to renew them.
use crate::command::{
    aws_output, aws_ran, cause, detail_of, run_cause, run_of, verdict, CommandOutput, FailureModel,
    FileModel, FileRead, OutputModel, RunFailure,
};
use crate::config::{profile_read, read_profile_config, ConfigModel, ProfileConfig};
use crate::failure::{advice, aws_command_error, aws_message, kind_of, Failure};
use crate::identity::{identified, identity_of, parse_identity, Identity, IdentityModel};
use crate::settings::{
    lines_in, no_line, one_line, Environment, EnvironmentModel, Line, LineModel, Options,
    OptionsModel,
};
use crate::style::{paint, paint_strong, painted, strong, Style};
use crate::text::{contains, mentions, occurs_at, slices, text_of};
use vstd::prelude::*;

verus! {

/// The arguments that ask the AWS CLI who the caller is.
pub open spec fn identity_arguments() -> Seq<Seq<char>> {
    seq!["sts"@, "get-caller-identity"@, "--output"@, "json"@]
}

/// The arguments that ask the AWS CLI who the caller is.
pub fn identity_args() -> (result: Vec<&'static str>)
    ensures
        slices(result@) == identity_arguments(),
{
    let result: Vec<&'static str> = vec!["sts", "get-caller-identity", "--output", "json"];
    assert(slices(result@) =~= identity_arguments());
    result
}

/// Who the caller is, by what the AWS CLI answered under a profile.
pub open spec fn caller_found(
    profile: Seq<char>,
    verbose: bool,
    run: Result<OutputModel, FailureModel>,
) -> Result<IdentityModel, Seq<char>> {
    match aws_ran(run) {
        Ok(output) => if output.success {
            identity_of(output.stdout)
        } else {
            Err(aws_message("AWS credential check failed"@, profile, output, verbose))
        },
        Err(message) => Err(message),
    }
}

/// Who the caller is, by what the AWS CLI answered under a profile.
pub fn validate_credentials(
    profile: &str,
    verbose: bool,
    run: &Result<CommandOutput, RunFailure>,
) -> (result: Result<Identity, String>)
    ensures
        identified(result) == caller_found(profile@, verbose, run_of(*run)),
{
    match aws_output(run) {
        Ok(output) => if output.success {
            parse_identity(output.stdout.as_slice())
        } else {
            Err(aws_command_error("AWS credential check failed", profile, output, verbose))
        },
        Err(message) => Err(message),
    }
}

/// A new sign-in may help against the failure: its message advises one.
pub open spec fn needs_sign_in(message: Seq<char>) -> bool {
    contains(message, "`awswap login"@)
}

/// What follows the first check of the credentials: they are valid, they are to
/// be renewed because of a failure, or the run is over.
pub enum CredentialCheck {
    Valid(Identity),
    Renew(String),
    Over(String),
}

pub enum CredentialCheckModel {
    Valid(IdentityModel),
    Renew(Seq<char>),
    Over(Seq<char>),
}

impl View for CredentialCheck {
    type V = CredentialCheckModel;

    open spec fn view(&self) -> CredentialCheckModel {
        match self {
            CredentialCheck::Valid(identity) => CredentialCheckModel::Valid(identity@),
            CredentialCheck::Renew(message) => CredentialCheckModel::Renew(message@),
            CredentialCheck::Over(message) => CredentialCheckModel::Over(message@),
        }
    }
}

/// What follows a failed check of the credentials.
pub open spec fn after_failure(first_error: Seq<char>) -> CredentialCheckModel {
    if needs_sign_in(first_error) {
        CredentialCheckModel::Renew(first_error)
    } else {
        CredentialCheckModel::Over(first_error)
    }
}

/// What follows the first check of the credentials.
pub open spec fn after_check(check: Result<IdentityModel, Seq<char>>) -> CredentialCheckModel {
    match check {
        Ok(identity) => CredentialCheckModel::Valid(identity),
        Err(first_error) => after_failure(first_error),
    }
}

/// What follows a failed check of the credentials.
pub fn refresh_expired_credentials(first_error: String) -> (result: CredentialCheck)
    ensures
        result@ == after_failure(first_error@),
{
    if mentions(first_error.as_str(), "`awswap login") {
        CredentialCheck::Renew(first_error)
    } else {
        CredentialCheck::Over(first_error)
    }
}

/// What follows the first check of the credentials.
pub fn ensure_credentials(check: Result<Identity, String>) -> (result: CredentialCheck)
    ensures
        result@ == after_check(identified(check)),
{
    match check {
        Ok(identity) => CredentialCheck::Valid(identity),
        Err(first_error) => refresh_expired_credentials(first_error),
    }
}

proof fn lemma_contains_inside(before: Seq<char>, text: Seq<char>, after: Seq<char>, pattern: Seq<char>)
    requires
        contains(text, pattern),
    ensures
        contains(before + text + after, pattern),
{
    let index = choose|index: int| occurs_at(text, pattern, index);
    let whole = before + text + after;
    let at = before.len() + index;
    assert(whole.subrange(at, at + pattern.len()) =~= text.subrange(index, index + pattern.len()));
    assert(occurs_at(whole, pattern, at));
}

/// Credentials that expired, or that AWS does not find or know, lead to a new
/// sign-in.
pub proof fn law_expired_renewed(profile: Seq<char>, verbose: bool, output: OutputModel)
    requires
        !output.success,
        kind_of(detail_of(output)) == Some(Failure::Expired) || kind_of(detail_of(output)) == Some(
            Failure::Unavailable,
        ),
    ensures
        after_check(caller_found(profile, verbose, Ok(output))) is Renew,
{
    let pattern = "`awswap login"@;
    let context = "AWS credential check failed"@;
    let kind = kind_of(detail_of(output))->0;
    let message = advice(kind, context, profile);
    let start = context + ": credentials for '"@ + profile;
    let end = profile + "`"@;
    reveal_strlit("`awswap login");
    if kind is Expired {
        let middle = "' expired; run `awswap login "@;
        reveal_strlit("' expired; run `awswap login ");
        assert(middle.subrange(15, 28) =~= pattern);
        assert(occurs_at(middle, pattern, 15));
        lemma_contains_inside(start, middle, end, pattern);
        assert(start + middle + end =~= message);
    } else {
        let middle = "' are unavailable; run `awswap login "@;
        reveal_strlit("' are unavailable; run `awswap login ");
        assert(middle.subrange(23, 36) =~= pattern);
        assert(occurs_at(middle, pattern, 23));
        lemma_contains_inside(start, middle, end, pattern);
        assert(start + middle + end =~= message);
    }
    let tail = "\nAWS CLI: "@ + detail_of(output);
    lemma_contains_inside(Seq::empty(), message, tail, pattern);
    assert(Seq::<char>::empty() + message + tail =~= message + "\nAWS CLI: "@ + detail_of(output));
}

/// The message of a sign-in that failed, where it was to renew credentials with
/// the message of what had failed before.
pub open spec fn sign_in_message(first_error: Option<Seq<char>>, login_error: Seq<char>) -> Seq<char> {
    match first_error {
        Some(first_error) => "credentials are unavailable ("@ + first_error + "); "@ + login_error,
        None => login_error,
    }
}

/// The message of a sign-in that failed.
pub fn sign_in_error(first_error: &Option<String>, login_error: String) -> (result: String)
    ensures
        result@ == sign_in_message(text_of(*first_error), login_error@),
{
    match first_error {
        Some(first_error) => {
            let mut message = "credentials are unavailable (".to_owned();
            message.append(first_error.as_str());
            message.append("); ");
            message.append(login_error.as_str());
            message
        },
        None => login_error,
    }
}

/// The arguments with which a profile signs in, or the message that it cannot.
pub open spec fn sign_in_arguments(profile: Seq<char>, config: ConfigModel) -> Result<
    Seq<Seq<char>>,
    Seq<char>,
> {
    if config.is_sso {
        Ok(seq!["sso"@, "login"@])
    } else if config.is_login {
        Ok(seq!["login"@])
    } else {
        Err(
            "profile '"@ + profile
                + "' is not configured for SSO or `aws login`; refresh its credentials manually"@,
        )
    }
}

/// Arguments, or the message of why there are none.
pub open spec fn arguments_of(result: Result<Vec<&'static str>, String>) -> Result<
    Seq<Seq<char>>,
    Seq<char>,
> {
    match result {
        Ok(args) => Ok(slices(args@)),
        Err(message) => Err(message@),
    }
}

/// The arguments with which a profile signs in.
pub fn credential_login_args(profile: &str, config: &ProfileConfig) -> (result: Result<
    Vec<&'static str>,
    String,
>)
    ensures
        arguments_of(result) == sign_in_arguments(profile@, config@),
{
    if config.is_sso {
        let args: Vec<&'static str> = vec!["sso", "login"];
        assert(slices(args@) =~= seq!["sso"@, "login"@]);
        Ok(args)
    } else if config.is_login {
        let args: Vec<&'static str> = vec!["login"];
        assert(slices(args@) =~= seq!["login"@]);
        Ok(args)
    } else {
        let mut message = "profile '".to_owned();
        message.append(profile);
        message.append(
            "' is not configured for SSO or `aws login`; refresh its credentials manually",
        );
        Err(message)
    }
}

/// The arguments with which a profile signs in, by what reading the
/// configuration gave.
pub open spec fn renewal(profile: Seq<char>, read: FileModel) -> Result<Seq<Seq<char>>, Seq<char>> {
    match profile_read(read, profile) {
        Ok(config) => sign_in_arguments(profile, config),
        Err(message) => Err(message),
    }
}

/// The arguments with which a profile signs in, by what reading the
/// configuration gave.
pub fn refresh_credentials(profile: &str, read: &FileRead) -> (result: Result<
    Vec<&'static str>,
    String,
>)
    ensures
        arguments_of(result) == renewal(profile@, read@),
{
    match read_profile_config(read, profile) {
        Ok(config) => credential_login_args(profile, &config),
        Err(message) => Err(message),
    }
}

/// A sign-in succeeded, or the message of why it did not.
pub open spec fn sign_in_verdict(run: Result<OutputModel, FailureModel>) -> Result<(), Seq<char>> {
    match run {
        Ok(output) => if output.success {
            Ok(())
        } else {
            Err("AWS login failed with "@ + output.status)
        },
        Err(failure) => Err("could not start AWS login: "@ + run_cause(failure)),
    }
}

/// A sign-in succeeded, or the message of why it did not.
pub fn run_aws_login(run: &Result<CommandOutput, RunFailure>) -> (result: Result<(), String>)
    ensures
        verdict(result) == sign_in_verdict(run_of(*run)),
{
    match run {
        Ok(output) => if output.success {
            Ok(())
        } else {
            let mut message = "AWS login failed with ".to_owned();
            message.append(output.status.as_str());
            Err(message)
        },
        Err(failure) => {
            let mut message = "could not start AWS login: ".to_owned();
            message.append(cause(failure));
            Err(message)
        },
    }
}

/// The note that credentials are to be renewed.
pub open spec fn refresh_notice(
    profile: Seq<char>,
    options: OptionsModel,
    environment: EnvironmentModel,
) -> Seq<LineModel> {
    if !options.quiet && !options.json {
        seq![
            LineModel::Note(
                strong(Style::Yellow, "auth:"@, environment.color) + " credentials for "@ + painted(
                    Style::Bold,
                    profile,
                    environment.color,
                ) + " need refreshing"@,
            ),
        ]
    } else {
        Seq::empty()
    }
}

/// The note that credentials are to be renewed.
pub fn print_refresh_notice(profile: &str, options: &Options, environment: &Environment) -> (result:
    Vec<Line>)
    ensures
        lines_in(result@) == refresh_notice(profile@, options@, environment@),
{
    if options.quiet || options.json {
        return no_line();
    }
    let name = paint(Style::Bold, profile, environment.color);
    let mut line = paint_strong(Style::Yellow, "auth:", environment.color);
    line.append(" credentials for ");
    line.append(name.as_str());
    line.append(" need refreshing");
    one_line(Line::Note(line))
}

/// The note that a sign-in starts.
pub open spec fn login_notice(
    profile: Seq<char>,
    options: OptionsModel,
    environment: EnvironmentModel,
) -> Seq<LineModel> {
    if !options.quiet && !options.json {
        seq![
            LineModel::Note(
                strong(Style::Cyan, "auth:"@, environment.color) + " opening AWS sign-in for "@
                    + painted(Style::Bold, profile, environment.color) + "…"@,
            ),
        ]
    } else {
        Seq::empty()
    }
}

/// The note that a sign-in starts.
pub fn print_login_notice(profile: &str, options: &Options, environment: &Environment) -> (result: Vec<
    Line,
>)
    ensures
        lines_in(result@) == login_notice(profile@, options@, environment@),
{
    if options.quiet || options.json {
        return no_line();
    }
    let name = paint(Style::Bold, profile, environment.color);
    let mut line = paint_strong(Style::Cyan, "auth:", environment.color);
    line.append(" opening AWS sign-in for ");
    line.append(name.as_str());
    line.append("…");
    one_line(Line::Note(line))
}

} // verus!
