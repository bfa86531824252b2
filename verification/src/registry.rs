//! Container registries: where an account's registry is, and how the clients log
//! in to one.
use crate::command::{
    aws_output, aws_ran, bytes_of, cause, command_error, command_message, detail_of,
    missing_message, outcome, output_detail, pairs, plain, plain_run, require_command, run_cause,
    run_error, run_message, run_of, verdict, Capture, CommandOutput, FailureModel, FileModel,
    FileRead, Invocation, InvocationModel, OutputModel, RunFailure,
};
use crate::config::{ConfigModel, ProfileConfig};
use crate::failure::{aws_command_error, aws_message};
use crate::json::{parsed_text, text_at, text_below, Document, Tree};
use crate::ordered::{collect, law_sorted, sorted};
use crate::paths::{
    docker_config_file, docker_config_path, file_message, helm_answer,
    helm_registry_config_from_helm, helm_registry_config_path, non_empty, path_error, Places,
    PlacesModel,
};
use crate::platform::copied;
use crate::settings::{
    configured_ecr_registries, named_registries, Environment, EnvironmentModel, Options,
    OptionsModel,
};
use crate::style::{paint, painted, Style};
use crate::text::{
    after_prefix, characters, contains, is_digit, join, joined, law_pieces_separated,
    lemma_pieces_nonempty, lowercase, lowered, mentions, owned, pad, padded, pieces, same, slice_of,
    slices, split, starts_with, strip_prefix, text_of, texts, trim, trim_trailing, trimmed,
    without_trailing,
};
use crate::utf8::{decode, lossy};
use vstd::prelude::*;
use vstd::utf8::encode_utf8;

verus! {

/// How a client came to be logged in.
#[derive(Debug, Clone, Copy, PartialEq, Eq)]
pub enum RegistryLoginMethod {
    Password,
    EcrCredentialHelper,
}

/// A program that logs in to registries.
#[derive(Debug, Clone, Copy, PartialEq, Eq)]
pub enum RegistryClient {
    Docker,
    Helm,
}

/// The program's name on the command line.
pub open spec fn command_of(client: RegistryClient) -> Seq<char> {
    match client {
        RegistryClient::Docker => "docker"@,
        RegistryClient::Helm => "helm"@,
    }
}

/// The program's name in messages.
pub open spec fn label_of(client: RegistryClient) -> Seq<char> {
    match client {
        RegistryClient::Docker => "Docker"@,
        RegistryClient::Helm => "Helm"@,
    }
}

/// The arguments with which the program logs in to a registry.
pub open spec fn login_arguments(client: RegistryClient, registry: Seq<char>) -> Seq<Seq<char>> {
    match client {
        RegistryClient::Docker => seq![
            "login"@,
            registry,
            "--username"@,
            "AWS"@,
            "--password-stdin"@,
        ],
        RegistryClient::Helm => seq![
            "registry"@,
            "login"@,
            registry,
            "--username"@,
            "AWS"@,
            "--password-stdin"@,
        ],
    }
}

/// Where the program's configuration is, if that is known: Helm itself is asked
/// where the environment does not say.
pub open spec fn client_config(
    client: RegistryClient,
    places: PlacesModel,
    helm: Option<OutputModel>,
) -> Option<Seq<u8>> {
    match client {
        RegistryClient::Docker => docker_config_file(places),
        RegistryClient::Helm => match non_empty(places.helm_registry_config) {
            Some(path) => Some(path),
            None => helm_answer(helm),
        },
    }
}

impl RegistryClient {
    /// The program's name on the command line.
    pub fn command(self) -> (result: &'static str)
        ensures
            result@ == command_of(self),
    {
        match self {
            RegistryClient::Docker => "docker",
            RegistryClient::Helm => "helm",
        }
    }

    /// The program's name in messages.
    pub fn label(self) -> (result: &'static str)
        ensures
            result@ == label_of(self),
    {
        match self {
            RegistryClient::Docker => "Docker",
            RegistryClient::Helm => "Helm",
        }
    }

    /// The arguments with which the program logs in to a registry.
    pub fn login_args<'a>(self, registry: &'a str) -> (result: Vec<&'a str>)
        ensures
            slices(result@) == login_arguments(self, registry@),
    {
        let result: Vec<&'a str> = match self {
            RegistryClient::Docker => vec![
                "login",
                registry,
                "--username",
                "AWS",
                "--password-stdin",
            ],
            RegistryClient::Helm => vec![
                "registry",
                "login",
                registry,
                "--username",
                "AWS",
                "--password-stdin",
            ],
        };
        assert(slices(result@) =~= login_arguments(self, registry@));
        result
    }

    /// Where the program's configuration is, if that is known.
    pub fn config_path(self, places: &Places, helm: Option<&CommandOutput>) -> (result: Option<
        Vec<u8>,
    >)
        ensures
            bytes_of(result) == client_config(
                self,
                places@,
                match helm {
                    Some(output) => Some(output@),
                    None => None,
                },
            ),
    {
        match self {
            RegistryClient::Docker => docker_config_path(places),
            RegistryClient::Helm => match helm_registry_config_path(places) {
                Some(path) => Some(path),
                None => helm_registry_config_from_helm(helm),
            },
        }
    }
}

/// The client is the given one.
pub fn is_client(left: RegistryClient, right: RegistryClient) -> (result: bool)
    ensures
        result == (left == right),
{
    match left {
        RegistryClient::Docker => match right {
            RegistryClient::Docker => true,
            RegistryClient::Helm => false,
        },
        RegistryClient::Helm => match right {
            RegistryClient::Docker => false,
            RegistryClient::Helm => true,
        },
    }
}

/// A registry on the command line, or the message that it is missing.
pub open spec fn registry_named(value: Seq<char>) -> Result<Seq<char>, Seq<char>> {
    if trimmed(value).len() == 0 {
        Err("registry cannot be empty"@)
    } else {
        Ok(trimmed(value))
    }
}

/// A registry on the command line.
pub fn parse_registry(value: &str) -> (result: Result<String, String>)
    ensures
        outcome(result) == registry_named(value@),
{
    let value = trim(value);
    if value.is_empty() {
        Err("registry cannot be empty".to_owned())
    } else {
        Ok(value.to_owned())
    }
}

/// The end of the host names in the partition that a region belongs to.
pub open spec fn suffix_of(region: Seq<char>) -> Seq<char> {
    if "cn-"@.is_prefix_of(region) {
        "amazonaws.com.cn"@
    } else if "us-gov-"@.is_prefix_of(region) {
        "amazonaws.com"@
    } else if "us-iso-"@.is_prefix_of(region) {
        "c2s.ic.gov"@
    } else if "us-isob-"@.is_prefix_of(region) {
        "sc2s.sgov.gov"@
    } else if "eu-isoe-"@.is_prefix_of(region) {
        "cloud.adc-e.uk"@
    } else if "us-isof-"@.is_prefix_of(region) {
        "csp.hci.ic.gov"@
    } else if "eusc-"@.is_prefix_of(region) {
        "amazonaws.eu"@
    } else {
        "amazonaws.com"@
    }
}

/// The registry of an account in a region.
pub open spec fn registry_of(account: Seq<char>, region: Seq<char>) -> Seq<char> {
    account + ".dkr.ecr."@ + region + "."@ + suffix_of(region)
}

/// The end of the host names in the partition that a region belongs to.
pub fn ecr_dns_suffix(region: &str) -> (result: &'static str)
    ensures
        result@ == suffix_of(region@),
{
    if starts_with(region, "cn-") {
        "amazonaws.com.cn"
    } else if starts_with(region, "us-gov-") {
        "amazonaws.com"
    } else if starts_with(region, "us-iso-") {
        "c2s.ic.gov"
    } else if starts_with(region, "us-isob-") {
        "sc2s.sgov.gov"
    } else if starts_with(region, "eu-isoe-") {
        "cloud.adc-e.uk"
    } else if starts_with(region, "us-isof-") {
        "csp.hci.ic.gov"
    } else if starts_with(region, "eusc-") {
        "amazonaws.eu"
    } else {
        "amazonaws.com"
    }
}

/// The registry of an account in a region.
pub fn ecr_registry(account: &str, region: &str) -> (result: String)
    ensures
        result@ == registry_of(account@, region@),
{
    let mut result = account.to_owned();
    result.append(".dkr.ecr.");
    result.append(region);
    result.append(".");
    result.append(ecr_dns_suffix(region));
    result
}

/// The partitions are told apart by their prefixes alone: no region starts with
/// two of them.
pub proof fn law_partitions(region: Seq<char>)
    ensures
        "cn-"@.is_prefix_of(region) ==> suffix_of(region) == "amazonaws.com.cn"@,
        "us-gov-"@.is_prefix_of(region) ==> suffix_of(region) == "amazonaws.com"@,
        "us-iso-"@.is_prefix_of(region) ==> suffix_of(region) == "c2s.ic.gov"@,
        "us-isob-"@.is_prefix_of(region) ==> suffix_of(region) == "sc2s.sgov.gov"@,
        "eu-isoe-"@.is_prefix_of(region) ==> suffix_of(region) == "cloud.adc-e.uk"@,
        "us-isof-"@.is_prefix_of(region) ==> suffix_of(region) == "csp.hci.ic.gov"@,
        "eusc-"@.is_prefix_of(region) ==> suffix_of(region) == "amazonaws.eu"@,
{
    reveal_strlit("cn-");
    reveal_strlit("us-gov-");
    reveal_strlit("us-iso-");
    reveal_strlit("us-isob-");
    reveal_strlit("eu-isoe-");
    reveal_strlit("us-isof-");
    reveal_strlit("eusc-");
    assert forall|prefix: Seq<char>, i: int|
        prefix.is_prefix_of(region) && 0 <= i < prefix.len() implies #[trigger] prefix[i]
        == region[i] by {
        assert(region.take(prefix.len() as int)[i] == region[i]);
    }
    if "cn-"@.is_prefix_of(region) {
        assert("cn-"@[0] == region[0]);
    }
    if "us-gov-"@.is_prefix_of(region) {
        assert("us-gov-"@[0] == region[0]);
        assert("us-gov-"@[3] == region[3]);
    }
    if "us-iso-"@.is_prefix_of(region) {
        assert("us-iso-"@[0] == region[0]);
        assert("us-iso-"@[3] == region[3]);
        assert("us-iso-"@[6] == region[6]);
    }
    if "us-isob-"@.is_prefix_of(region) {
        assert("us-isob-"@[0] == region[0]);
        assert("us-isob-"@[3] == region[3]);
        assert("us-isob-"@[6] == region[6]);
    }
    if "eu-isoe-"@.is_prefix_of(region) {
        assert("eu-isoe-"@[0] == region[0]);
        assert("eu-isoe-"@[2] == region[2]);
    }
    if "us-isof-"@.is_prefix_of(region) {
        assert("us-isof-"@[0] == region[0]);
        assert("us-isof-"@[3] == region[3]);
        assert("us-isof-"@[6] == region[6]);
    }
    if "eusc-"@.is_prefix_of(region) {
        assert("eusc-"@[0] == region[0]);
        assert("eusc-"@[2] == region[2]);
    }
}

/// An address without its scheme.
pub open spec fn without_scheme(address: Seq<char>) -> Seq<char> {
    match after_prefix(address, "https://"@) {
        Some(rest) => rest,
        None => match after_prefix(address, "http://"@) {
            Some(rest) => rest,
            None => address,
        },
    }
}

/// The host in the address of a registry.
pub open spec fn host_of(value: Seq<char>) -> Seq<char> {
    pieces(without_scheme(without_trailing(trimmed(value), '/')), '/')[0]
}

/// The host in the address of a registry.
pub fn normalize_registry(value: &str) -> (result: String)
    ensures
        result@ == host_of(value@),
{
    let address = trim_trailing(trim(value), '/');
    let rest = match strip_prefix(address, "https://") {
        Some(rest) => rest,
        None => match strip_prefix(address, "http://") {
            Some(rest) => rest,
            None => address,
        },
    };
    let parts = split(rest, '/');
    assert(texts(parts@)[0] == parts@[0]@);
    parts[0].clone()
}

/// A host holds no slash.
pub proof fn law_host_has_no_slash(value: Seq<char>)
    ensures
        !host_of(value).contains('/'),
{
    let rest = without_scheme(without_trailing(trimmed(value), '/'));
    lemma_pieces_nonempty(rest, '/');
    law_pieces_separated(rest, '/');
}

/// A text of nothing but digits.
pub open spec fn all_digits(text: Seq<char>) -> bool {
    forall|i: int| 0 <= i < text.len() ==> is_digit(#[trigger] text[i])
}

/// The registry that an account or an address stands for.
pub open spec fn registry_for(item: Seq<char>, region: Seq<char>) -> Seq<char> {
    if all_digits(item) {
        registry_of(item, region)
    } else {
        host_of(item)
    }
}

/// The registries that accounts and addresses stand for.
pub open spec fn registries_for(items: Seq<Seq<char>>, region: Seq<char>) -> Seq<Seq<char>> {
    sorted(items.map_values(|item: Seq<char>| registry_for(item, region)))
}

fn only_digits(text: &str) -> (result: bool)
    ensures
        result == all_digits(text@),
{
    let all = characters(text);
    for i in 0..all.len()
        invariant
            all@ == text@,
            forall|j: int| 0 <= j < i ==> is_digit(#[trigger] all@[j]),
    {
        if !('0' <= all[i] && all[i] <= '9') {
            assert(!is_digit(text@[i as int]));
            return false;
        }
    }
    true
}

/// The registry that an account or an address stands for.
pub fn normalize_registry_item(item: &str, region: &str) -> (result: String)
    ensures
        result@ == registry_for(item@, region@),
{
    if only_digits(item) {
        ecr_registry(item, region)
    } else {
        normalize_registry(item)
    }
}

/// The registries that accounts and addresses stand for.
pub fn normalize_registries(configured: Vec<String>, region: &str) -> (result: Vec<String>)
    ensures
        texts(result@) == registries_for(texts(configured@), region@),
{
    let ghost wanted = texts(configured@).map_values(
        |item: Seq<char>| registry_for(item, region@),
    );
    let mut found: Vec<String> = Vec::new();
    for i in 0..configured.len()
        invariant
            wanted == texts(configured@).map_values(|item: Seq<char>| registry_for(item, region@)),
            texts(found@) == wanted.take(i as int),
    {
        let ghost before = texts(found@);
        found.push(normalize_registry_item(configured[i].as_str(), region));
        assert(texts(found@) =~= before.push(wanted[i as int]));
        assert(wanted.take(i + 1) =~= before.push(wanted[i as int]));
    }
    assert(wanted.take(configured@.len() as int) =~= wanted);
    collect(found)
}

/// The registries to log in to: none without a region, else those that are
/// named; where none is, the account of the profile has to be asked for.
pub open spec fn registries_wanted(
    config: ConfigModel,
    options: OptionsModel,
    environment: EnvironmentModel,
) -> Option<Seq<Seq<char>>> {
    match config.region {
        Some(region) => if named_registries(options, environment).len() == 0 {
            None
        } else {
            Some(registries_for(named_registries(options, environment), region))
        },
        None => Some(Seq::empty()),
    }
}

pub open spec fn list_given(list: Option<Vec<String>>) -> Option<Seq<Seq<char>>> {
    match list {
        Some(list) => Some(texts(list@)),
        None => None,
    }
}

/// The registries to log in to in a region, if they are named.
pub fn ecr_registries_for_region(region: &str, options: &Options, environment: &Environment) -> (result:
    Option<Vec<String>>)
    ensures
        list_given(result) == if named_registries(options@, environment@).len() == 0 {
            None
        } else {
            Some(registries_for(named_registries(options@, environment@), region@))
        },
{
    let configured = configured_ecr_registries(options, environment);
    if configured.len() == 0 {
        None
    } else {
        Some(normalize_registries(configured, region))
    }
}

/// The registries to log in to, unless the account of the profile has to be
/// asked for.
pub fn ecr_registries(config: &ProfileConfig, options: &Options, environment: &Environment) -> (result:
    Option<Vec<String>>)
    ensures
        list_given(result) == registries_wanted(config@, options@, environment@),
{
    match &config.region {
        Some(region) => ecr_registries_for_region(region.as_str(), options, environment),
        None => {
            let none: Vec<String> = Vec::new();
            assert(texts(none@) =~= Seq::empty());
            Some(none)
        },
    }
}

/// Registries that are named give at least one registry, and none twice.
pub proof fn law_registries(items: Seq<Seq<char>>, region: Seq<char>)
    requires
        items.len() > 0,
    ensures
        registries_for(items, region).len() > 0,
        registries_for(items, region).no_duplicates(),
        forall|i: int|
            0 <= i < items.len() ==> registries_for(items, region).contains(
                registry_for(#[trigger] items[i], region),
            ),
{
    let all = items.map_values(|item: Seq<char>| registry_for(item, region));
    law_sorted(all);
    assert forall|i: int| 0 <= i < items.len() implies registries_for(items, region).contains(
        registry_for(#[trigger] items[i], region),
    ) by {
        assert(all[i] == registry_for(items[i], region));
        assert(all.contains(all[i]));
    }
    assert(registries_for(items, region).contains(registry_for(items[0], region)));
}

/// A list of registries, or the message of why there is none.
pub open spec fn registries_of(result: Result<Vec<String>, String>) -> Result<
    Seq<Seq<char>>,
    Seq<char>,
> {
    match result {
        Ok(registries) => Ok(texts(registries@)),
        Err(message) => Err(message@),
    }
}

/// The registry of an account that AWS named.
pub open spec fn account_registry(account: Seq<char>, region: Seq<char>) -> Result<
    Seq<Seq<char>>,
    Seq<char>,
> {
    if account.len() == 0 || account == "None"@ {
        Err("AWS returned no account ID; skipped ECR login"@)
    } else {
        Ok(seq![registry_of(account, region)])
    }
}

/// The registry of the account that a run of the AWS CLI names.
pub open spec fn account_answer(
    profile: Seq<char>,
    region: Seq<char>,
    verbose: bool,
    output: OutputModel,
) -> Result<Seq<Seq<char>>, Seq<char>> {
    if output.success {
        account_registry(trimmed(lossy(output.stdout)), region)
    } else {
        Err(aws_message("could not determine the AWS account"@, profile, output, verbose))
    }
}

/// The registry of an account that AWS named.
pub fn registry_for_account(account: &str, region: &str) -> (result: Result<Vec<String>, String>)
    ensures
        registries_of(result) == account_registry(account@, region@),
{
    if account.is_empty() || same(account, "None") {
        return Err("AWS returned no account ID; skipped ECR login".to_owned());
    }
    let mut result: Vec<String> = Vec::new();
    result.push(ecr_registry(account, region));
    assert(texts(result@) =~= seq![registry_of(account@, region@)]);
    Ok(result)
}

/// The registry of the account that a run of the AWS CLI names.
pub fn account_registry_from_output(
    profile: &str,
    region: &str,
    verbose: bool,
    output: &CommandOutput,
) -> (result: Result<Vec<String>, String>)
    ensures
        registries_of(result) == account_answer(profile@, region@, verbose, output@),
{
    if !output.success {
        return Err(
            aws_command_error("could not determine the AWS account", profile, output, verbose),
        );
    }
    let printed = decode(output.stdout.as_slice());
    registry_for_account(trim(printed.as_str()), region)
}

/// The registry of the account that the AWS CLI was asked for.
pub open spec fn account_found(
    profile: Seq<char>,
    region: Seq<char>,
    verbose: bool,
    run: Result<OutputModel, FailureModel>,
) -> Result<Seq<Seq<char>>, Seq<char>> {
    match aws_ran(run) {
        Ok(output) => account_answer(profile, region, verbose, output),
        Err(message) => Err(message),
    }
}

/// The registry of the account that the AWS CLI was asked for.
pub fn discover_account_registry(
    profile: &str,
    region: &str,
    verbose: bool,
    run: &Result<CommandOutput, RunFailure>,
) -> (result: Result<Vec<String>, String>)
    ensures
        registries_of(result) == account_found(profile@, region@, verbose, run_of(*run)),
{
    match aws_output(run) {
        Ok(output) => account_registry_from_output(profile, region, verbose, output),
        Err(message) => Err(message),
    }
}

/// A password, or the message of why there is none.
pub open spec fn password_of(result: Result<Vec<u8>, String>) -> Result<Seq<u8>, Seq<char>> {
    match result {
        Ok(password) => Ok(password@),
        Err(message) => Err(message@),
    }
}

/// The password for the registries, as the AWS CLI printed it.
pub open spec fn password_found(
    profile: Seq<char>,
    verbose: bool,
    run: Result<OutputModel, FailureModel>,
) -> Result<Seq<u8>, Seq<char>> {
    match aws_ran(run) {
        Ok(output) => if output.success {
            Ok(output.stdout)
        } else {
            Err(aws_message("could not get an ECR login token"@, profile, output, verbose))
        },
        Err(message) => Err(message),
    }
}

/// The password for the registries, as the AWS CLI printed it.
pub fn ecr_password(profile: &str, verbose: bool, run: &Result<CommandOutput, RunFailure>) -> (result:
    Result<Vec<u8>, String>)
    ensures
        password_of(result) == password_found(profile@, verbose, run_of(*run)),
{
    match aws_output(run) {
        Ok(output) => if output.success {
            Ok(copied(output.stdout.as_slice()))
        } else {
            Err(aws_command_error("could not get an ECR login token", profile, output, verbose))
        },
        Err(message) => Err(message),
    }
}

/// The clients that are installed, in the order in which they log in.
pub open spec fn clients_of(docker: bool, helm: bool) -> Seq<RegistryClient> {
    if docker && helm {
        seq![RegistryClient::Docker, RegistryClient::Helm]
    } else if docker {
        seq![RegistryClient::Docker]
    } else if helm {
        seq![RegistryClient::Helm]
    } else {
        Seq::empty()
    }
}

/// The clients that are installed, or the message that there are none.
pub open spec fn installed_clients(docker: bool, helm: bool) -> Result<
    Seq<RegistryClient>,
    Seq<char>,
> {
    if docker || helm {
        Ok(clients_of(docker, helm))
    } else {
        Err("Docker and Helm are not installed; skipped ECR login"@)
    }
}

/// The clients that are installed.
pub fn installed_registry_clients(docker: bool, helm: bool) -> (result: Result<
    Vec<RegistryClient>,
    String,
>)
    ensures
        match result {
            Ok(clients) => installed_clients(docker, helm) == Ok::<_, Seq<char>>(clients@),
            Err(message) => installed_clients(docker, helm) == Err::<Seq<RegistryClient>, _>(
                message@,
            ),
        },
{
    let mut clients: Vec<RegistryClient> = Vec::new();
    if docker {
        clients.push(RegistryClient::Docker);
    }
    if helm {
        clients.push(RegistryClient::Helm);
    }
    assert(clients@ =~= clients_of(docker, helm));
    if clients.len() == 0 {
        Err("Docker and Helm are not installed; skipped ECR login".to_owned())
    } else {
        Ok(clients)
    }
}

/// The helper that a configuration names: the one for the registry, or else the
/// one for all; an empty name is none.
pub open spec fn helper_from(specific: Option<Seq<char>>, global: Option<Seq<char>>) -> Option<
    Seq<char>,
> {
    let helper = match specific {
        Some(helper) => Some(helper),
        None => global,
    };
    match helper {
        Some(helper) => if helper.len() > 0 {
            Some(helper)
        } else {
            None
        },
        None => None,
    }
}

/// The helper that a parsed configuration names for a registry.
pub open spec fn helper_in(config: Tree, registry: Seq<char>) -> Option<Seq<char>> {
    helper_from(text_below(config, "credHelpers"@, registry), text_at(config, "credsStore"@))
}

/// A helper, none, or the message of why that is unknown.
pub open spec fn helper_of(result: Result<Option<String>, String>) -> Result<
    Option<Seq<char>>,
    Seq<char>,
> {
    match result {
        Ok(helper) => Ok(text_of(helper)),
        Err(message) => Err(message@),
    }
}

/// The helper that the contents of a configuration name for a registry.
pub open spec fn helper_stated(contents: Seq<char>, registry: Seq<char>) -> Result<
    Option<Seq<char>>,
    Seq<char>,
> {
    match parsed_text(contents) {
        Ok(config) => Ok(helper_in(config, registry)),
        Err(error) => Err(error),
    }
}

/// The helper for a registry, by what reading the configuration gave.
pub open spec fn helper_read(path: Seq<u8>, read: FileModel, registry: Seq<char>) -> Result<
    Option<Seq<char>>,
    Seq<char>,
> {
    match read {
        FileModel::Contents(contents) => match helper_stated(contents, registry) {
            Ok(helper) => Ok(helper),
            Err(error) => Err(file_message("parse"@, lossy(path), error)),
        },
        FileModel::Missing => Ok(None),
        FileModel::Failed(error) => Err(file_message("read"@, lossy(path), error)),
    }
}

/// The helper that a configuration names.
pub fn choose_helper(specific: Option<&str>, global: Option<&str>) -> (result: Option<String>)
    ensures
        text_of(result) == helper_from(slice_of(specific), slice_of(global)),
{
    let helper = match specific {
        Some(helper) => Some(helper),
        None => global,
    };
    match helper {
        Some(helper) => if helper.is_empty() {
            None
        } else {
            Some(helper.to_owned())
        },
        None => None,
    }
}

/// The helper that the contents of a configuration name for a registry.
pub fn parse_credential_helper(contents: &str, registry: &str) -> (result: Result<
    Option<String>,
    String,
>)
    ensures
        helper_of(result) == helper_stated(contents@, registry@),
{
    match Document::from_text(contents) {
        Ok(config) => Ok(
            choose_helper(
                config.nested_string("credHelpers", registry),
                config.string("credsStore"),
            ),
        ),
        Err(error) => Err(error),
    }
}

/// The helper for a registry, by what reading the configuration gave.
pub fn credential_helper(path: &[u8], read: &FileRead, registry: &str) -> (result: Result<
    Option<String>,
    String,
>)
    ensures
        helper_of(result) == helper_read(path@, read@, registry@),
{
    match read {
        FileRead::Contents(contents) => match parse_credential_helper(contents.as_str(), registry) {
            Ok(helper) => Ok(helper),
            Err(error) => Err(path_error("parse", path, error.as_str())),
        },
        FileRead::Missing => Ok(None),
        FileRead::Failed(error) => Err(path_error("read", path, error.as_str())),
    }
}

/// The helper is the one that asks AWS itself, to which no password is given.
pub open spec fn asks_aws(helper: Option<Seq<char>>) -> bool {
    helper == Some("ecr-login"@)
}

/// The helper is the one that asks AWS itself.
pub fn uses_ecr_credential_helper(helper: &Option<String>) -> (result: bool)
    ensures
        result == asks_aws(text_of(*helper)),
{
    match helper {
        Some(helper) => same(helper.as_str(), "ecr-login"),
        None => false,
    }
}

/// The program of the helper that asks AWS itself.
pub const HELPER: &'static str = "docker-credential-ecr-login";

/// The variables that would override a profile for the helper.
pub open spec fn helper_overrides() -> Seq<Seq<char>> {
    seq![
        "AWS_ACCESS_KEY_ID"@,
        "AWS_SECRET_ACCESS_KEY"@,
        "AWS_SESSION_TOKEN"@,
        "AWS_SECURITY_TOKEN"@,
    ]
}

/// A call of the helper under a profile, which is sent the registry on a line of
/// its own.
pub open spec fn helper_run(profile: Seq<char>, registry: Seq<char>) -> InvocationModel {
    InvocationModel {
        program: HELPER@,
        args: seq!["get"@],
        set: seq![("AWS_PROFILE"@, profile), ("AWS_DEFAULT_PROFILE"@, profile)],
        unset: helper_overrides(),
        input: Some(encode_utf8(registry + "\n"@)),
        capture: Capture::Errors,
    }
}

/// A call of the helper, or the message that it is not installed.
pub open spec fn helper_call(profile: Seq<char>, registry: Seq<char>, found: bool) -> Result<
    InvocationModel,
    Seq<char>,
> {
    if found {
        Ok(helper_run(profile, registry))
    } else {
        Err(missing_message(HELPER@))
    }
}

/// A call of a program, or the message of why it is not made.
pub open spec fn call_of(result: Result<Invocation, String>) -> Result<InvocationModel, Seq<char>> {
    match result {
        Ok(invocation) => Ok(invocation@),
        Err(message) => Err(message@),
    }
}

/// A call of the helper under a profile.
pub fn validate_ecr_credential_helper(profile: &str, registry: &str, found: bool) -> (result: Result<
    Invocation,
    String,
>)
    ensures
        call_of(result) == helper_call(profile@, registry@, found),
{
    match require_command(HELPER, found) {
        Ok(_) => {},
        Err(message) => {
            return Err(message);
        },
    }
    let args: [&str; 1] = ["get"];
    let unset: [&str; 4] = [
        "AWS_ACCESS_KEY_ID",
        "AWS_SECRET_ACCESS_KEY",
        "AWS_SESSION_TOKEN",
        "AWS_SECURITY_TOKEN",
    ];
    let mut set: Vec<(String, String)> = Vec::new();
    set.push(("AWS_PROFILE".to_owned(), profile.to_owned()));
    set.push(("AWS_DEFAULT_PROFILE".to_owned(), profile.to_owned()));
    assert(pairs(set@) =~= seq![("AWS_PROFILE"@, profile@), ("AWS_DEFAULT_PROFILE"@, profile@)]);
    assert(slices(args@) =~= seq!["get"@]);
    assert(slices(unset@) =~= helper_overrides());
    let mut line = registry.to_owned();
    line.append("\n");
    Ok(
        Invocation {
            program: HELPER.to_owned(),
            args: owned(args.as_slice()),
            set,
            unset: owned(unset.as_slice()),
            input: Some(copied(line.as_str().as_bytes())),
            capture: Capture::Errors,
        },
    )
}

/// The helper could log in to the registry, or the message of why not.
pub open spec fn helper_verdict(registry: Seq<char>, run: Result<OutputModel, FailureModel>) -> Result<
    (),
    Seq<char>,
> {
    match run {
        Ok(output) => if output.success {
            Ok(())
        } else {
            Err(command_message(HELPER@ + " could not authenticate to "@ + registry, output))
        },
        Err(failure) => Err(run_message(HELPER@, "registry"@, failure)),
    }
}

/// The helper could log in to the registry, or the message of why not.
pub fn finish_credential_helper(registry: &str, run: &Result<CommandOutput, RunFailure>) -> (result:
    Result<(), String>)
    ensures
        verdict(result) == helper_verdict(registry@, run_of(*run)),
{
    match run {
        Ok(output) => if output.success {
            Ok(())
        } else {
            let mut context = HELPER.to_owned();
            context.append(" could not authenticate to ");
            context.append(registry);
            Err(command_error(context.as_str(), output))
        },
        Err(failure) => Err(run_error(HELPER, "registry", failure)),
    }
}

/// A login of a client to a registry, which is sent the password.
pub open spec fn login_run(
    client: RegistryClient,
    registry: Seq<char>,
    password: Seq<u8>,
) -> InvocationModel {
    InvocationModel {
        program: command_of(client),
        args: login_arguments(client, registry),
        set: Seq::empty(),
        unset: Seq::empty(),
        input: Some(password),
        capture: Capture::Errors,
    }
}

/// A login of a client to a registry.
pub fn run_password_registry_login(client: RegistryClient, registry: &str, password: &[u8]) -> (result:
    Invocation)
    ensures
        result@ == login_run(client, registry@, password@),
{
    let args = client.login_args(registry);
    let result = Invocation {
        program: client.command().to_owned(),
        args: owned(args.as_slice()),
        set: Vec::new(),
        unset: Vec::new(),
        input: Some(copied(password)),
        capture: Capture::Errors,
    };
    assert(result@.set =~= Seq::empty());
    assert(result@.unset =~= Seq::empty());
    result
}

/// The message of a login that failed.
pub open spec fn login_message(
    client: RegistryClient,
    registry: Seq<char>,
    output: OutputModel,
) -> Seq<char> {
    command_message(command_of(client) + " login to "@ + registry + " failed"@, output)
}

/// How a client was logged in, or the message of why it was not.
pub open spec fn login_of(result: Result<RegistryLoginMethod, String>) -> Result<
    RegistryLoginMethod,
    Seq<char>,
> {
    match result {
        Ok(method) => Ok(method),
        Err(message) => Err(message@),
    }
}

/// The outcome of a login with a password.
pub open spec fn login_verdict(
    client: RegistryClient,
    registry: Seq<char>,
    output: OutputModel,
) -> Result<RegistryLoginMethod, Seq<char>> {
    if output.success {
        Ok(RegistryLoginMethod::Password)
    } else {
        Err(login_message(client, registry, output))
    }
}

/// The outcome of a login with a password.
pub fn finish_registry_login(output: &CommandOutput, client: RegistryClient, registry: &str) -> (result:
    Result<RegistryLoginMethod, String>)
    ensures
        login_of(result) == login_verdict(client, registry@, output@),
{
    if output.success {
        Ok(RegistryLoginMethod::Password)
    } else {
        let mut context = client.command().to_owned();
        context.append(" login to ");
        context.append(registry);
        context.append(" failed");
        Err(command_error(context.as_str(), output))
    }
}

/// A message says that the macOS Keychain holds the item already.
pub open spec fn tells_duplicate(detail: Seq<char>) -> bool {
    contains(lowered(detail), "-25299"@) || contains(
        lowered(detail),
        "the specified item already exists in the keychain"@,
    )
}

/// A program says that the macOS Keychain holds the item already.
pub open spec fn is_duplicate(output: OutputModel) -> bool {
    tells_duplicate(detail_of(output))
}

/// A login is to be tried once more after a logout.
pub open spec fn wants_retry(client: RegistryClient, output: OutputModel) -> bool {
    client == RegistryClient::Helm && !output.success && is_duplicate(output)
}

/// A program says that the macOS Keychain holds the item already.
pub fn is_duplicate_keychain_item(output: &CommandOutput) -> (result: bool)
    ensures
        result == is_duplicate(output@),
{
    let detail = output_detail(output);
    mentions_duplicate(detail.as_str())
}

/// A message says that the macOS Keychain holds the item already.
pub fn mentions_duplicate(detail: &str) -> (result: bool)
    ensures
        result == tells_duplicate(detail@),
{
    let lowered_detail = lowercase(detail);
    mentions(lowered_detail.as_str(), "-25299") || mentions(
        lowered_detail.as_str(),
        "the specified item already exists in the keychain",
    )
}

/// A login is to be tried once more after a logout.
pub fn should_retry_helm_login(client: RegistryClient, output: &CommandOutput) -> (result: bool)
    ensures
        result == wants_retry(client, output@),
{
    is_client(client, RegistryClient::Helm) && !output.success && is_duplicate_keychain_item(output)
}

/// What follows a login with a password: it is over, or, given the message of
/// its failure, it is to be tried once more.
pub enum LoginModel {
    Over(Result<RegistryLoginMethod, Seq<char>>),
    Again(Seq<char>),
}

pub enum Login {
    Over(Result<RegistryLoginMethod, String>),
    Again(String),
}

impl View for Login {
    type V = LoginModel;

    open spec fn view(&self) -> LoginModel {
        match self {
            Login::Over(result) => LoginModel::Over(login_of(*result)),
            Login::Again(message) => LoginModel::Again(message@),
        }
    }
}

/// What follows the first login with a password.
pub open spec fn first_login(
    client: RegistryClient,
    registry: Seq<char>,
    run: Result<OutputModel, FailureModel>,
) -> LoginModel {
    match run {
        Ok(output) => if wants_retry(client, output) {
            LoginModel::Again(login_message(client, registry, output))
        } else {
            LoginModel::Over(login_verdict(client, registry, output))
        },
        Err(failure) => LoginModel::Over(Err(run_message(command_of(client), "credentials"@, failure))),
    }
}

/// What follows the first login with a password.
pub fn password_registry_login(
    client: RegistryClient,
    registry: &str,
    run: &Result<CommandOutput, RunFailure>,
) -> (result: Login)
    ensures
        result@ == first_login(client, registry@, run_of(*run)),
{
    match run {
        Ok(output) => {
            let outcome = finish_registry_login(output, client, registry);
            if should_retry_helm_login(client, output) {
                match outcome {
                    Err(message) => Login::Again(message),
                    Ok(method) => Login::Over(Ok(method)),
                }
            } else {
                Login::Over(outcome)
            }
        },
        Err(failure) => Login::Over(Err(run_error(client.command(), "credentials", failure))),
    }
}

/// The outcome of the second login with a password.
pub open spec fn second_login(
    client: RegistryClient,
    registry: Seq<char>,
    run: Result<OutputModel, FailureModel>,
) -> Result<RegistryLoginMethod, Seq<char>> {
    match run {
        Ok(output) => login_verdict(client, registry, output),
        Err(failure) => Err(run_message(command_of(client), "credentials"@, failure)),
    }
}

/// The outcome of the second login with a password.
pub fn finish_second_login(
    client: RegistryClient,
    registry: &str,
    run: &Result<CommandOutput, RunFailure>,
) -> (result: Result<RegistryLoginMethod, String>)
    ensures
        login_of(result) == second_login(client, registry@, run_of(*run)),
{
    match run {
        Ok(output) => finish_registry_login(output, client, registry),
        Err(failure) => Err(run_error(client.command(), "credentials", failure)),
    }
}

/// A logout of Helm from a registry.
pub open spec fn logout_run(registry: Seq<char>) -> InvocationModel {
    plain_run("helm"@, seq!["registry"@, "logout"@, registry])
}

/// A logout of Helm from a registry.
pub fn clear_helm_registry_credential(registry: &str) -> (result: Invocation)
    ensures
        result@ == logout_run(registry@),
{
    let args: [&str; 3] = ["registry", "logout", registry];
    assert(slices(args@) =~= seq!["registry"@, "logout"@, registry@]);
    plain("helm", args.as_slice())
}

/// Helm was logged out, or the message of why it was not.
pub open spec fn logout_verdict(registry: Seq<char>, run: Result<OutputModel, FailureModel>) -> Result<
    (),
    Seq<char>,
> {
    match run {
        Ok(output) => if output.success {
            Ok(())
        } else {
            Err(command_message("helm logout from "@ + registry + " failed"@, output))
        },
        Err(failure) => Err("could not start helm: "@ + run_cause(failure)),
    }
}

/// Helm was logged out after a failed login, or the message of both failures.
pub open spec fn cleanup_verdict(
    registry: Seq<char>,
    first_error: Seq<char>,
    run: Result<OutputModel, FailureModel>,
) -> Result<(), Seq<char>> {
    match logout_verdict(registry, run) {
        Ok(_) => Ok(()),
        Err(error) => Err(first_error + "; automatic Keychain cleanup failed: "@ + error),
    }
}

fn finish_logout(registry: &str, run: &Result<CommandOutput, RunFailure>) -> (result: Result<
    (),
    String,
>)
    ensures
        verdict(result) == logout_verdict(registry@, run_of(*run)),
{
    match run {
        Ok(output) => if output.success {
            Ok(())
        } else {
            let mut context = "helm logout from ".to_owned();
            context.append(registry);
            context.append(" failed");
            Err(command_error(context.as_str(), output))
        },
        Err(failure) => {
            let mut message = "could not start helm: ".to_owned();
            message.append(cause(failure));
            Err(message)
        },
    }
}

/// Helm was logged out after a failed login, or the message of both failures.
pub fn retry_helm_login(registry: &str, first_error: &str, run: &Result<CommandOutput, RunFailure>) -> (result:
    Result<(), String>)
    ensures
        verdict(result) == cleanup_verdict(registry@, first_error@, run_of(*run)),
{
    match finish_logout(registry, run) {
        Ok(_) => Ok(()),
        Err(error) => {
            let mut message = first_error.to_owned();
            message.append("; automatic Keychain cleanup failed: ");
            message.append(error.as_str());
            Err(message)
        },
    }
}

/// All clients were logged in, or the messages of those that were not.
pub open spec fn logins_verdict(failures: Seq<Seq<char>>) -> Result<(), Seq<char>> {
    if failures.len() == 0 {
        Ok(())
    } else {
        Err(joined(failures, "; "@))
    }
}

/// All clients were logged in, or the messages of those that were not.
pub fn finish_registry_logins(failures: &[String]) -> (result: Result<(), String>)
    ensures
        verdict(result) == logins_verdict(texts(failures@)),
{
    if failures.len() == 0 {
        Ok(())
    } else {
        Err(join(failures, "; "))
    }
}

/// What to add to the note of a login.
pub open spec fn login_detail(method: RegistryLoginMethod, color: bool) -> Seq<char> {
    match method {
        RegistryLoginMethod::Password => Seq::empty(),
        RegistryLoginMethod::EcrCredentialHelper => "  "@ + painted(
            Style::Dim,
            "(ecr-login)"@,
            color,
        ),
    }
}

/// What to add to the note of a login.
pub fn registry_login_detail(method: RegistryLoginMethod, color: bool) -> (result: String)
    ensures
        result@ == login_detail(method, color),
{
    match method {
        RegistryLoginMethod::Password => String::new(),
        RegistryLoginMethod::EcrCredentialHelper => {
            let note = paint(Style::Dim, "(ecr-login)", color);
            let mut detail = "  ".to_owned();
            detail.append(note.as_str());
            detail
        },
    }
}

/// The note of a login.
pub open spec fn login_note(
    client: RegistryClient,
    registry: Seq<char>,
    method: RegistryLoginMethod,
    color: bool,
) -> Seq<char> {
    painted(Style::Green, "✓"@, color) + " "@ + padded(label_of(client), 7) + " "@ + registry
        + login_detail(method, color)
}

/// The note of a login.
pub fn print_registry_login(
    client: RegistryClient,
    registry: &str,
    method: RegistryLoginMethod,
    color: bool,
) -> (result: String)
    ensures
        result@ == login_note(client, registry@, method, color),
{
    let mut note = paint(Style::Green, "✓", color);
    let label = pad(client.label(), 7);
    let detail = registry_login_detail(method, color);
    note.append(" ");
    note.append(label.as_str());
    note.append(" ");
    note.append(registry);
    note.append(detail.as_str());
    note
}

} // verus!
