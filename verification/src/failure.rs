//! Failures of the AWS CLI, told apart by what it prints.
use crate::command::{
    command_error, command_message, detail_of, output_detail, CommandOutput, OutputModel,
};
use crate::text::{contains, lowercase, lowered, mentions, occurs_at, slices, text_of};
use vstd::prelude::*;

verus! {

/// The kinds of failure that are told apart.
pub enum Failure {
    Expired,
    Unavailable,
    Denied,
    Network,
    Region,
    MissingProfile,
}

/// One of the patterns stands in the text.
pub open spec fn contains_one(text: Seq<char>, patterns: Seq<Seq<char>>) -> bool {
    exists|i: int| 0 <= i < patterns.len() && contains(text, #[trigger] patterns[i])
}

pub open spec fn is_expired(detail: Seq<char>) -> bool {
    ||| contains_one(
        detail,
        seq!["expiredtoken"@, "token has expired"@, "unauthorizedssotoken"@],
    )
    ||| contains(detail, "sso session"@) && contains(detail, "expired"@)
}

pub open spec fn is_unavailable(detail: Seq<char>) -> bool {
    contains_one(
        detail,
        seq![
            "unable to locate credentials"@,
            "invalidclienttokenid"@,
            "unrecognizedclientexception"@,
            "credentials could not be loaded"@,
        ],
    )
}

pub open spec fn is_denied(detail: Seq<char>) -> bool {
    contains_one(detail, seq!["accessdenied"@, "access denied"@, "not authorized"@])
}

pub open spec fn is_network(detail: Seq<char>) -> bool {
    contains_one(
        detail,
        seq![
            "could not connect"@,
            "endpoint url"@,
            "timed out"@,
            "name or service not known"@,
            "temporary failure in name resolution"@,
        ],
    )
}

pub open spec fn is_region(detail: Seq<char>) -> bool {
    contains_one(detail, seq!["you must specify a region"@, "invalid region"@])
}

pub open spec fn is_missing_profile(detail: Seq<char>) -> bool {
    contains(detail, "config profile"@) && contains(detail, "could not be found"@)
}

/// The kind of a failure, from what the AWS CLI printed, in any case of its
/// letters. Where several would fit, the first in this order counts.
pub open spec fn kind_of(detail: Seq<char>) -> Option<Failure> {
    let plain = lowered(detail);
    if is_expired(plain) {
        Some(Failure::Expired)
    } else if is_unavailable(plain) {
        Some(Failure::Unavailable)
    } else if is_denied(plain) {
        Some(Failure::Denied)
    } else if is_network(plain) {
        Some(Failure::Network)
    } else if is_region(plain) {
        Some(Failure::Region)
    } else if is_missing_profile(plain) {
        Some(Failure::MissingProfile)
    } else {
        None
    }
}

/// The message for a kind of failure, with the way out of it.
pub open spec fn advice(kind: Failure, context: Seq<char>, profile: Seq<char>) -> Seq<char> {
    match kind {
        Failure::Expired => context + ": credentials for '"@ + profile
            + "' expired; run `awswap login "@ + profile + "`"@,
        Failure::Unavailable => context + ": credentials for '"@ + profile
            + "' are unavailable; run `awswap login "@ + profile + "`"@,
        Failure::Denied => context + ": access denied for '"@ + profile
            + "'; verify its IAM permissions"@,
        Failure::Network => context
            + ": could not reach AWS; check the network, proxy, and configured region"@,
        Failure::Region => context + ": profile '"@ + profile
            + "' has no valid region; configure one with `aws configure set region <region> --profile "@
            + profile + "`"@,
        Failure::MissingProfile => context + ": profile '"@ + profile
            + "' is missing from the AWS configuration"@,
    }
}

/// The message, where the failure has one of the kinds.
pub open spec fn classified(context: Seq<char>, profile: Seq<char>, detail: Seq<char>) -> Option<
    Seq<char>,
> {
    match kind_of(detail) {
        Some(kind) => Some(advice(kind, context, profile)),
        None => None,
    }
}

/// The message of a failed call of the AWS CLI. A message of one of the kinds
/// is followed by what the AWS CLI printed, where the user asked for it.
pub open spec fn aws_message(
    context: Seq<char>,
    profile: Seq<char>,
    output: OutputModel,
    verbose: bool,
) -> Seq<char> {
    let detail = detail_of(output);
    match classified(context, profile, detail) {
        Some(message) => with_detail(message, detail, verbose),
        None => command_message(context, output),
    }
}

pub open spec fn with_detail(message: Seq<char>, detail: Seq<char>, verbose: bool) -> Seq<char> {
    if verbose && detail.len() > 0 {
        message + "\nAWS CLI: "@ + detail
    } else {
        message
    }
}

/// The message, where there is reason for it.
pub open spec fn given(reason: bool, message: Seq<char>) -> Option<Seq<char>> {
    if reason {
        Some(message)
    } else {
        None
    }
}

/// One of the patterns stands in the text.
pub fn contains_any(value: &str, patterns: &[&str]) -> (result: bool)
    ensures
        result == contains_one(value@, slices(patterns@)),
{
    for i in 0..patterns.len()
        invariant
            forall|j: int| 0 <= j < i ==> !contains(value@, #[trigger] slices(patterns@)[j]),
    {
        if mentions(value, patterns[i]) {
            assert(contains(value@, slices(patterns@)[i as int]));
            return true;
        }
        assert(slices(patterns@)[i as int] == patterns@[i as int]@);
    }
    false
}

/// The message, where the credentials have expired.
pub fn expired_aws_error(context: &str, profile: &str, detail: &str) -> (result: Option<String>)
    ensures
        text_of(result) == given(
            is_expired(detail@),
            advice(Failure::Expired, context@, profile@),
        ),
{
    let patterns: [&str; 3] = ["expiredtoken", "token has expired", "unauthorizedssotoken"];
    assert(slices(patterns@) =~= seq![
        "expiredtoken"@,
        "token has expired"@,
        "unauthorizedssotoken"@,
    ]);
    if contains_any(detail, patterns.as_slice()) || (mentions(detail, "sso session") && mentions(
        detail,
        "expired",
    )) {
        let mut message = context.to_owned();
        message.append(": credentials for '");
        message.append(profile);
        message.append("' expired; run `awswap login ");
        message.append(profile);
        message.append("`");
        Some(message)
    } else {
        None
    }
}

/// The message, where there are no credentials.
pub fn unavailable_aws_error(context: &str, profile: &str, detail: &str) -> (result: Option<String>)
    ensures
        text_of(result) == given(
            is_unavailable(detail@),
            advice(Failure::Unavailable, context@, profile@),
        ),
{
    let patterns: [&str; 4] = [
        "unable to locate credentials",
        "invalidclienttokenid",
        "unrecognizedclientexception",
        "credentials could not be loaded",
    ];
    assert(slices(patterns@) =~= seq![
        "unable to locate credentials"@,
        "invalidclienttokenid"@,
        "unrecognizedclientexception"@,
        "credentials could not be loaded"@,
    ]);
    if contains_any(detail, patterns.as_slice()) {
        let mut message = context.to_owned();
        message.append(": credentials for '");
        message.append(profile);
        message.append("' are unavailable; run `awswap login ");
        message.append(profile);
        message.append("`");
        Some(message)
    } else {
        None
    }
}

/// The message, where access was denied.
pub fn denied_aws_error(context: &str, profile: &str, detail: &str) -> (result: Option<String>)
    ensures
        text_of(result) == given(
            is_denied(detail@),
            advice(Failure::Denied, context@, profile@),
        ),
{
    let patterns: [&str; 3] = ["accessdenied", "access denied", "not authorized"];
    assert(slices(patterns@) =~= seq!["accessdenied"@, "access denied"@, "not authorized"@]);
    if contains_any(detail, patterns.as_slice()) {
        let mut message = context.to_owned();
        message.append(": access denied for '");
        message.append(profile);
        message.append("'; verify its IAM permissions");
        Some(message)
    } else {
        None
    }
}

/// The message, where AWS was not reached.
pub fn network_aws_error(context: &str, detail: &str) -> (result: Option<String>)
    ensures
        text_of(result) == given(
            is_network(detail@),
            advice(Failure::Network, context@, ""@),
        ),
{
    let patterns: [&str; 5] = [
        "could not connect",
        "endpoint url",
        "timed out",
        "name or service not known",
        "temporary failure in name resolution",
    ];
    assert(slices(patterns@) =~= seq![
        "could not connect"@,
        "endpoint url"@,
        "timed out"@,
        "name or service not known"@,
        "temporary failure in name resolution"@,
    ]);
    if contains_any(detail, patterns.as_slice()) {
        let mut message = context.to_owned();
        message.append(": could not reach AWS; check the network, proxy, and configured region");
        Some(message)
    } else {
        None
    }
}

/// The message, where the profile's region is missing or invalid.
pub fn region_aws_error(context: &str, profile: &str, detail: &str) -> (result: Option<String>)
    ensures
        text_of(result) == given(
            is_region(detail@),
            advice(Failure::Region, context@, profile@),
        ),
{
    let patterns: [&str; 2] = ["you must specify a region", "invalid region"];
    assert(slices(patterns@) =~= seq!["you must specify a region"@, "invalid region"@]);
    if contains_any(detail, patterns.as_slice()) {
        let mut message = context.to_owned();
        message.append(": profile '");
        message.append(profile);
        message.append(
            "' has no valid region; configure one with `aws configure set region <region> --profile ",
        );
        message.append(profile);
        message.append("`");
        Some(message)
    } else {
        None
    }
}

/// The message, where the AWS CLI does not know the profile.
pub fn missing_profile_aws_error(context: &str, profile: &str, detail: &str) -> (result: Option<
    String,
>)
    ensures
        text_of(result) == given(
            is_missing_profile(detail@),
            advice(Failure::MissingProfile, context@, profile@),
        ),
{
    if mentions(detail, "config profile") && mentions(detail, "could not be found") {
        let mut message = context.to_owned();
        message.append(": profile '");
        message.append(profile);
        message.append("' is missing from the AWS configuration");
        Some(message)
    } else {
        None
    }
}

/// The message, where the failure has one of the kinds.
pub fn classify_aws_error(context: &str, profile: &str, detail: &str) -> (result: Option<String>)
    ensures
        text_of(result) == classified(context@, profile@, detail@),
{
    let plain = lowercase(detail);
    let normalized = plain.as_str();
    let expired = expired_aws_error(context, profile, normalized);
    if expired.is_some() {
        return expired;
    }
    let unavailable = unavailable_aws_error(context, profile, normalized);
    if unavailable.is_some() {
        return unavailable;
    }
    let denied = denied_aws_error(context, profile, normalized);
    if denied.is_some() {
        return denied;
    }
    let network = network_aws_error(context, normalized);
    if network.is_some() {
        return network;
    }
    let region = region_aws_error(context, profile, normalized);
    if region.is_some() {
        return region;
    }
    missing_profile_aws_error(context, profile, normalized)
}

/// A message of one of the kinds, followed by the detail where it is wanted.
pub fn classified_aws_error(classified: String, detail: &str, verbose: bool) -> (result: String)
    ensures
        result@ == with_detail(classified@, detail@, verbose),
{
    if verbose && !detail.is_empty() {
        let mut message = classified;
        message.append("\nAWS CLI: ");
        message.append(detail);
        message
    } else {
        classified
    }
}

/// The message of a failed call of the AWS CLI.
pub fn aws_command_error(context: &str, profile: &str, output: &CommandOutput, verbose: bool) -> (result:
    String)
    ensures
        result@ == aws_message(context@, profile@, output@, verbose),
{
    let detail = output_detail(output);
    match classify_aws_error(context, profile, detail.as_str()) {
        Some(message) => classified_aws_error(message, detail.as_str(), verbose),
        None => command_error(context, output),
    }
}

proof fn lemma_ends_with(text: Seq<char>, end: Seq<char>)
    ensures
        contains(text + end, end),
{
    let whole = text + end;
    assert(whole.subrange(text.len() as int, whole.len() as int) =~= end);
    assert(occurs_at(whole, end, text.len() as int));
}

/// Where the user asked to see more, the message of a failed call of the AWS CLI
/// holds all that the AWS CLI said.
pub proof fn law_verbose_shows_detail(context: Seq<char>, profile: Seq<char>, output: OutputModel)
    ensures
        contains(aws_message(context, profile, output, true), detail_of(output)),
{
    let detail = detail_of(output);
    match classified(context, profile, detail) {
        Some(message) => {
            if detail.len() > 0 {
                lemma_ends_with(message + "\nAWS CLI: "@, detail);
            } else {
                lemma_ends_with(message, detail);
                assert(message + detail =~= message);
            }
        },
        None => {
            if detail.len() > 0 {
                lemma_ends_with(context + ": "@, detail);
            } else {
                let message = command_message(context, output);
                lemma_ends_with(message, detail);
                assert(message + detail =~= message);
            }
        },
    }
}

} // verus!
