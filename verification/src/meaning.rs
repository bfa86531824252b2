//! What the failures of the AWS CLI mean: which words tell which failure, what
//! the user is told of it, and which failures a sign-in may mend.
use crate::command::{command_message, detail_of, run_message, FailureModel, OutputModel};
use crate::credentials::{
    after_check, after_failure, caller_found, law_expired_renewed, sign_in_message, sign_in_verdict,
    CredentialCheckModel,
};
use crate::failure::{aws_message, classified, contains_one, kind_of, Failure};
use crate::identity::{identity_of, IdentityModel};
use crate::text::{contains, lowered, occurs_at, trimmed};
use crate::utf8::lossy;
use vstd::prelude::*;

verus! {

proof fn lemma_contains_one(text: Seq<char>, patterns: Seq<Seq<char>>, index: int)
    requires
        0 <= index < patterns.len(),
        contains(text, patterns[index]),
    ensures
        contains_one(text, patterns),
{
}

/// A failure is told by words in what the AWS CLI printed, in any case of their
/// letters: first those of expired credentials, next those of credentials that
/// are missing or unknown, of access that was denied, of a network that failed, of
/// a region that is missing, and of a profile that is not configured. Each has a
/// message of its own.
pub proof fn law_failure_words(context: Seq<char>, profile: Seq<char>, detail: Seq<char>)
    ensures
        ({
            let text = lowered(detail);
            let expired = contains(text, "expiredtoken"@) || contains(text, "token has expired"@)
                || contains(text, "unauthorizedssotoken"@) || (contains(text, "sso session"@)
                && contains(text, "expired"@));
            let unavailable = contains(text, "unable to locate credentials"@) || contains(
                text,
                "invalidclienttokenid"@,
            ) || contains(text, "unrecognizedclientexception"@) || contains(
                text,
                "credentials could not be loaded"@,
            );
            let denied = contains(text, "accessdenied"@) || contains(text, "access denied"@)
                || contains(text, "not authorized"@);
            let network = contains(text, "could not connect"@) || contains(text, "endpoint url"@)
                || contains(text, "timed out"@) || contains(text, "name or service not known"@)
                || contains(text, "temporary failure in name resolution"@);
            let region = contains(text, "you must specify a region"@) || contains(
                text,
                "invalid region"@,
            );
            let missing = contains(text, "config profile"@) && contains(
                text,
                "could not be found"@,
            );
            let told = classified(context, profile, detail);
            if expired {
                told == Some(
                    context + ": credentials for '"@ + profile + "' expired; run `awswap login "@
                        + profile + "`"@,
                )
            } else if unavailable {
                told == Some(
                    context + ": credentials for '"@ + profile
                        + "' are unavailable; run `awswap login "@ + profile + "`"@,
                )
            } else if denied {
                told == Some(
                    context + ": access denied for '"@ + profile
                        + "'; verify its IAM permissions"@,
                )
            } else if network {
                told == Some(
                    context
                        + ": could not reach AWS; check the network, proxy, and configured region"@,
                )
            } else if region {
                told == Some(
                    context + ": profile '"@ + profile
                        + "' has no valid region; configure one with `aws configure set region <region> --profile "@
                        + profile + "`"@,
                )
            } else if missing {
                told == Some(
                    context + ": profile '"@ + profile + "' is missing from the AWS configuration"@,
                )
            } else {
                told is None
            }
        }),
{
    let text = lowered(detail);
    let expired = seq!["expiredtoken"@, "token has expired"@, "unauthorizedssotoken"@];
    let unavailable = seq![
        "unable to locate credentials"@,
        "invalidclienttokenid"@,
        "unrecognizedclientexception"@,
        "credentials could not be loaded"@,
    ];
    let denied = seq!["accessdenied"@, "access denied"@, "not authorized"@];
    let network = seq![
        "could not connect"@,
        "endpoint url"@,
        "timed out"@,
        "name or service not known"@,
        "temporary failure in name resolution"@,
    ];
    let region = seq!["you must specify a region"@, "invalid region"@];
    assert forall|patterns: Seq<Seq<char>>, i: int|
        0 <= i < patterns.len() && contains(text, #[trigger] patterns[i]) implies contains_one(
        text,
        patterns,
    ) by {}
    assert(expired[0] == "expiredtoken"@ && expired[1] == "token has expired"@ && expired[2]
        == "unauthorizedssotoken"@);
    assert(unavailable[0] == "unable to locate credentials"@ && unavailable[1]
        == "invalidclienttokenid"@ && unavailable[2] == "unrecognizedclientexception"@
        && unavailable[3] == "credentials could not be loaded"@);
    assert(denied[0] == "accessdenied"@ && denied[1] == "access denied"@ && denied[2]
        == "not authorized"@);
    assert(network[0] == "could not connect"@ && network[1] == "endpoint url"@ && network[2]
        == "timed out"@ && network[3] == "name or service not known"@ && network[4]
        == "temporary failure in name resolution"@);
    assert(region[0] == "you must specify a region"@ && region[1] == "invalid region"@);
}

/// What a failed call of the AWS CLI is reported as: the message of its kind,
/// with what the AWS CLI printed below it where the user asked for more; else what
/// the AWS CLI printed, and where it printed nothing, how it ended.
pub proof fn law_failure_report(context: Seq<char>, profile: Seq<char>, output: OutputModel)
    ensures
        ({
            let detail = detail_of(output);
            match classified(context, profile, detail) {
                Some(message) => {
                    &&& aws_message(context, profile, output, false) == message
                    &&& detail.len() > 0 ==> aws_message(context, profile, output, true) == message
                        + "\nAWS CLI: "@ + detail
                },
                None => forall|verbose: bool| #[trigger]
                    aws_message(context, profile, output, verbose) == if detail.len() > 0 {
                        context + ": "@ + detail
                    } else {
                        context + " ("@ + output.status + ")"@
                    },
            }
        }),
{
}

/// What counts of a program's output is what it printed as errors, or, where that
/// is blank, what it printed otherwise: without the space around it, and on one
/// line.
pub proof fn law_detail(output: OutputModel)
    ensures
        ({
            let errors = trimmed(lossy(output.stderr));
            let printed = trimmed(lossy(output.stdout));
            let detail = detail_of(output);
            let source = if errors.len() > 0 {
                errors
            } else {
                printed
            };
            &&& detail.len() == source.len()
            &&& forall|i: int|
                0 <= i < source.len() ==> #[trigger] detail[i] == if source[i] == '\n' {
                    ' '
                } else {
                    source[i]
                }
        }),
{
}

/// Where the AWS CLI says that a token has expired, that the SSO token is not
/// authorized, or that the SSO session has expired, in any case of the letters, the
/// message says that the profile's credentials expired, and a sign-in follows.
pub proof fn law_expired_texts(profile: Seq<char>, verbose: bool, output: OutputModel)
    requires
        !output.success,
        contains(lowered(detail_of(output)), "expiredtoken"@) || contains(
            lowered(detail_of(output)),
            "token has expired"@,
        ) || contains(lowered(detail_of(output)), "unauthorizedssotoken"@) || (contains(
            lowered(detail_of(output)),
            "sso session"@,
        ) && contains(lowered(detail_of(output)), "expired"@)),
    ensures
        after_check(caller_found(profile, verbose, Ok(output))) is Renew,
        caller_found(profile, false, Ok(output)) == Err::<IdentityModel, _>(
            "AWS credential check failed: credentials for '"@ + profile
                + "' expired; run `awswap login "@ + profile + "`"@,
        ),
{
    law_failure_words("AWS credential check failed"@, profile, detail_of(output));
    let text = lowered(detail_of(output));
    assert(kind_of(detail_of(output)) == Some(Failure::Expired)) by {
        let expired = seq!["expiredtoken"@, "token has expired"@, "unauthorizedssotoken"@];
        assert(expired[0] == "expiredtoken"@ && expired[1] == "token has expired"@ && expired[2]
            == "unauthorizedssotoken"@);
        if contains(text, "expiredtoken"@) {
            lemma_contains_one(text, expired, 0);
        } else if contains(text, "token has expired"@) {
            lemma_contains_one(text, expired, 1);
        } else if contains(text, "unauthorizedssotoken"@) {
            lemma_contains_one(text, expired, 2);
        }
    }
    law_expired_renewed(profile, verbose, output);
    reveal_strlit("AWS credential check failed: credentials for '");
    reveal_strlit("AWS credential check failed");
    reveal_strlit(": credentials for '");
    assert("AWS credential check failed: credentials for '"@ =~= "AWS credential check failed"@
        + ": credentials for '"@);
}

/// Where the AWS CLI finds no credentials, or AWS does not know them, a sign-in
/// follows as well.
pub proof fn law_unavailable_texts(profile: Seq<char>, verbose: bool, output: OutputModel)
    requires
        !output.success,
        contains(lowered(detail_of(output)), "unable to locate credentials"@) || contains(
            lowered(detail_of(output)),
            "invalidclienttokenid"@,
        ) || contains(lowered(detail_of(output)), "unrecognizedclientexception"@) || contains(
            lowered(detail_of(output)),
            "credentials could not be loaded"@,
        ),
    ensures
        after_check(caller_found(profile, verbose, Ok(output))) is Renew,
{
    let text = lowered(detail_of(output));
    let unavailable = seq![
        "unable to locate credentials"@,
        "invalidclienttokenid"@,
        "unrecognizedclientexception"@,
        "credentials could not be loaded"@,
    ];
    assert(unavailable[0] == "unable to locate credentials"@ && unavailable[1]
        == "invalidclienttokenid"@ && unavailable[2] == "unrecognizedclientexception"@
        && unavailable[3] == "credentials could not be loaded"@);
    if contains(text, "unable to locate credentials"@) {
        lemma_contains_one(text, unavailable, 0);
    } else if contains(text, "invalidclienttokenid"@) {
        lemma_contains_one(text, unavailable, 1);
    } else if contains(text, "unrecognizedclientexception"@) {
        lemma_contains_one(text, unavailable, 2);
    } else {
        lemma_contains_one(text, unavailable, 3);
    }
    assert(kind_of(detail_of(output)) == Some(Failure::Expired) || kind_of(detail_of(output))
        == Some(Failure::Unavailable));
    law_expired_renewed(profile, verbose, output);
}

/// Whatever the check of the credentials ends in: a caller is taken over as AWS
/// named it; an error that advises a login leads to one, and any other error is
/// the end.
pub proof fn law_check_outcomes(
    identity: IdentityModel,
    before: Seq<char>,
    after: Seq<char>,
    error: Seq<char>,
)
    requires
        !contains(error, "`awswap login"@),
    ensures
        after_check(Ok(identity)) == CredentialCheckModel::Valid(identity),
        after_check(Err(before + "`awswap login"@ + after)) == CredentialCheckModel::Renew(
            before + "`awswap login"@ + after,
        ),
        after_check(Err(error)) == CredentialCheckModel::Over(error),
{
    let advice = "`awswap login"@;
    let whole = before + advice + after;
    assert(whole.subrange(before.len() as int, (before.len() + advice.len()) as int) =~= advice);
    assert(occurs_at(whole, advice, before.len() as int));
    assert(after_failure(whole) == CredentialCheckModel::Renew(whole));
}

/// A sign-in has worked exactly where the AWS CLI ran and succeeded; else the
/// message says how it ended or why it did not start, after the error that led to
/// it, if one did.
pub proof fn law_sign_in_outcomes(
    output: OutputModel,
    cause: Seq<char>,
    first: Seq<char>,
    error: Seq<char>,
)
    ensures
        output.success ==> sign_in_verdict(Ok(output)) is Ok,
        !output.success ==> sign_in_verdict(Ok(output)) == Err::<(), _>(
            "AWS login failed with "@ + output.status,
        ),
        sign_in_verdict(Err(FailureModel::Start(cause))) == Err::<(), _>(
            "could not start AWS login: "@ + cause,
        ),
        sign_in_message(None, error) == error,
        sign_in_message(Some(first), error) == "credentials are unavailable ("@ + first + "); "@
            + error,
{
}

/// The caller is read from what the AWS CLI printed, where it succeeded; where it
/// failed, the message is that of its failure, and where it did not run, why.
pub proof fn law_caller_found(
    profile: Seq<char>,
    verbose: bool,
    output: OutputModel,
    cause: Seq<char>,
)
    ensures
        output.success ==> caller_found(profile, verbose, Ok(output)) == identity_of(output.stdout),
        !output.success ==> caller_found(profile, verbose, Ok(output)) == Err::<IdentityModel, _>(
            aws_message("AWS credential check failed"@, profile, output, verbose),
        ),
        caller_found(profile, verbose, Err(FailureModel::Start(cause))) == Err::<IdentityModel, _>(
            "could not run AWS CLI: "@ + cause,
        ),
{
}

/// A program that could not be run is told by what failed: its start, its input,
/// what it was to be sent, or the wait for its end.
pub proof fn law_run_failures(program: Seq<char>, what: Seq<char>, error: Seq<char>)
    ensures
        run_message(program, what, FailureModel::Start(error)) == "could not start "@ + program
            + ": "@ + error,
        run_message(program, what, FailureModel::Input) == "could not open "@ + program + " input"@,
        run_message(program, what, FailureModel::Send(error)) == "could not send "@ + what + " to "@
            + program + ": "@ + error,
        run_message(program, what, FailureModel::Wait(error)) == "could not wait for "@ + program
            + ": "@ + error,
{
}

/// A failed program is told by what it printed, and where it printed nothing, by
/// how it ended.
pub proof fn law_command_failures(context: Seq<char>, output: OutputModel)
    ensures
        detail_of(output).len() > 0 ==> command_message(context, output) == context + ": "@
            + detail_of(output),
        detail_of(output).len() == 0 ==> command_message(context, output) == context + " ("@
            + output.status + ")"@,
{
}

} // verus!
