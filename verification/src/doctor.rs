//! The diagnosis: what is checked, and what each check finds.
use crate::command::{detail_of, output_detail, verdict, CommandOutput, OutputModel};
use crate::config::{ConfigModel, ProfileConfig};
use crate::identity::{identified, short_name, Identity, IdentityModel};
use crate::json::{
    fields_of, list_value, object_of, object_value, rendered, text_value, tree_of, trees,
    write_value, Tree,
};
use crate::paths::display;
use crate::platform::Platform;
use crate::registry::{ecr_registry, helper_of, registry_of};
use crate::settings::{
    lines_in, no_line, one_line, Environment, EnvironmentModel, Line, LineModel, Options,
    OptionsModel,
};
use crate::shell::{setup_hint, shell_setup_hint};
use crate::style::{paint, painted, Style};
use crate::text::{
    borrowed, decimal, join, joined, number, or_else, owned, pad, padded, slice_of, slices, text_of,
    texts,
};
use crate::utf8::lossy;
use vstd::prelude::*;

verus! {

/// How a check came out.
#[derive(Debug, Clone, Copy, PartialEq, Eq)]
pub enum CheckLevel {
    Pass,
    Warn,
    Fail,
}

/// One check: how it came out, what it is about, and what it found.
#[derive(Debug, Clone, PartialEq, Eq)]
pub struct DoctorCheck {
    pub level: CheckLevel,
    pub name: String,
    pub detail: String,
}

pub struct CheckModel {
    pub level: CheckLevel,
    pub name: Seq<char>,
    pub detail: Seq<char>,
}

impl View for DoctorCheck {
    type V = CheckModel;

    open spec fn view(&self) -> CheckModel {
        CheckModel { level: self.level, name: self.name@, detail: self.detail@ }
    }
}

pub open spec fn checks_in(checks: Seq<DoctorCheck>) -> Seq<CheckModel> {
    checks.map_values(|check: DoctorCheck| check@)
}

pub open spec fn or_warn(passed: bool) -> CheckLevel {
    if passed {
        CheckLevel::Pass
    } else {
        CheckLevel::Warn
    }
}

pub open spec fn or_fail(passed: bool) -> CheckLevel {
    if passed {
        CheckLevel::Pass
    } else {
        CheckLevel::Fail
    }
}

pub fn pass_or_warn(passed: bool) -> (result: CheckLevel)
    ensures
        result == or_warn(passed),
{
    if passed {
        CheckLevel::Pass
    } else {
        CheckLevel::Warn
    }
}

pub fn pass_or_fail(passed: bool) -> (result: CheckLevel)
    ensures
        result == or_fail(passed),
{
    if passed {
        CheckLevel::Pass
    } else {
        CheckLevel::Fail
    }
}

/// A check with a given outcome.
fn check(level: CheckLevel, name: &str, detail: String) -> (result: DoctorCheck)
    ensures
        result@ == (CheckModel { level, name: name@, detail: detail@ }),
{
    DoctorCheck { level, name: name.to_owned(), detail }
}

/// What the AWS CLI says of its version, if it says anything.
pub open spec fn cli_version(output: Option<OutputModel>) -> Option<Seq<char>> {
    match output {
        Some(output) => if detail_of(output).len() > 0 {
            Some(detail_of(output))
        } else {
            None
        },
        None => None,
    }
}

/// What the AWS CLI says of its version, if it says anything.
pub fn aws_cli_version(output: Option<&CommandOutput>) -> (result: Option<String>)
    ensures
        text_of(result) == cli_version(
            match output {
                Some(output) => Some(output@),
                None => None,
            },
        ),
{
    match output {
        Some(output) => {
            let detail = output_detail(output);
            if detail.as_str().is_empty() {
                None
            } else {
                Some(detail)
            }
        },
        None => None,
    }
}

/// The AWS CLI is installed.
pub open spec fn cli_checked(installed: bool, version: Option<Seq<char>>) -> CheckModel {
    CheckModel {
        level: or_fail(installed),
        name: "AWS CLI"@,
        detail: if installed {
            or_else(version, "installed"@)
        } else {
            "not found in PATH"@
        },
    }
}

/// The AWS CLI is installed.
pub fn aws_cli_check(installed: bool, version: Option<String>) -> (result: DoctorCheck)
    ensures
        result@ == cli_checked(installed, text_of(version)),
{
    let detail = if installed {
        match version {
            Some(version) => version,
            None => "installed".to_owned(),
        }
    } else {
        "not found in PATH".to_owned()
    };
    check(pass_or_fail(installed), "AWS CLI", detail)
}

/// The AWS configuration is there.
pub open spec fn config_checked(path: Seq<u8>, present: bool) -> CheckModel {
    CheckModel { level: or_warn(present), name: "AWS config"@, detail: lossy(path) }
}

/// The AWS configuration is there.
pub fn aws_config_check(path: &[u8], present: bool) -> (result: DoctorCheck)
    ensures
        result@ == config_checked(path@, present),
{
    check(pass_or_warn(present), "AWS config", display(path))
}

/// Some profile is configured.
pub open spec fn profiles_checked(profiles: Seq<Seq<char>>) -> CheckModel {
    CheckModel {
        level: or_fail(profiles.len() > 0),
        name: "Profiles"@,
        detail: decimal(profiles.len()) + " discovered"@,
    }
}

/// Some profile is configured.
pub fn profiles_check(profiles: &[String]) -> (result: DoctorCheck)
    ensures
        result@ == profiles_checked(texts(profiles@)),
{
    let mut detail = number(profiles.len());
    detail.append(" discovered");
    check(pass_or_fail(profiles.len() > 0), "Profiles", detail)
}

/// Some profile is in effect.
pub open spec fn active_checked(profile: Option<Seq<char>>) -> CheckModel {
    CheckModel {
        level: or_fail(profile is Some),
        name: "Active profile"@,
        detail: or_else(profile, "none selected"@),
    }
}

/// Some profile is in effect.
pub fn active_profile_check(profile: Option<&str>) -> (result: DoctorCheck)
    ensures
        result@ == active_checked(slice_of(profile)),
{
    match profile {
        Some(profile) => check(CheckLevel::Pass, "Active profile", profile.to_owned()),
        None => check(CheckLevel::Fail, "Active profile", "none selected".to_owned()),
    }
}

/// The profile has a region.
pub open spec fn region_checked(config: ConfigModel) -> CheckModel {
    CheckModel {
        level: or_warn(config.region is Some),
        name: "Region"@,
        detail: or_else(config.region, "not configured; ECR login will be skipped"@),
    }
}

/// The profile has a region.
pub fn region_check(config: &ProfileConfig) -> (result: DoctorCheck)
    ensures
        result@ == region_checked(config@),
{
    match &config.region {
        Some(region) => check(CheckLevel::Pass, "Region", region.clone()),
        None => check(
            CheckLevel::Warn,
            "Region",
            "not configured; ECR login will be skipped".to_owned(),
        ),
    }
}

/// The shell hook, in words.
pub open spec fn hook_detail(
    active: bool,
    platform: Platform,
    shell: Option<Seq<char>>,
) -> Seq<char> {
    if active {
        "active"@
    } else {
        "not active; run "@ + setup_hint(platform, shell)
    }
}

/// The shell hook, in words.
pub fn shell_hook_detail(
    active: bool,
    platform: Platform,
    shell: &Option<String>,
) -> (result: String)
    ensures
        result@ == hook_detail(active, platform, text_of(*shell)),
{
    if active {
        "active".to_owned()
    } else {
        let hint = shell_setup_hint(platform, shell);
        let mut detail = "not active; run ".to_owned();
        detail.append(hint.as_str());
        detail
    }
}

/// The shell hook is installed.
pub open spec fn hook_checked(
    active: bool,
    platform: Platform,
    shell: Option<Seq<char>>,
) -> CheckModel {
    CheckModel {
        level: or_warn(active),
        name: "Shell hook"@,
        detail: hook_detail(active, platform, shell),
    }
}

/// The shell hook is installed.
pub fn shell_hook_check(
    active: bool,
    platform: Platform,
    shell: &Option<String>,
) -> (result: DoctorCheck)
    ensures
        result@ == hook_checked(active, platform, text_of(*shell)),
{
    check(pass_or_warn(active), "Shell hook", shell_hook_detail(active, platform, shell))
}

/// Where the state is.
pub open spec fn state_checked(path: Seq<u8>) -> CheckModel {
    CheckModel { level: CheckLevel::Pass, name: "State"@, detail: lossy(path) }
}

/// Where the state is.
pub fn state_check(path: &[u8]) -> (result: DoctorCheck)
    ensures
        result@ == state_checked(path@),
{
    check(CheckLevel::Pass, "State", display(path))
}

/// The installed registry clients, in words.
pub open spec fn clients_detail(docker: bool, helm: bool) -> Seq<char> {
    if docker && helm {
        "Docker, Helm"@
    } else if docker {
        "Docker"@
    } else if helm {
        "Helm"@
    } else {
        "Docker and Helm not found; ECR login is optional"@
    }
}

/// The installed registry clients, in words.
pub fn ecr_clients_detail(docker: bool, helm: bool) -> (result: &'static str)
    ensures
        result@ == clients_detail(docker, helm),
{
    if docker && helm {
        "Docker, Helm"
    } else if docker {
        "Docker"
    } else if helm {
        "Helm"
    } else {
        "Docker and Helm not found; ECR login is optional"
    }
}

/// Some registry client is installed.
pub open spec fn clients_checked(docker: bool, helm: bool) -> CheckModel {
    CheckModel {
        level: or_warn(docker || helm),
        name: "ECR clients"@,
        detail: clients_detail(docker, helm),
    }
}

/// Some registry client is installed.
pub fn ecr_clients_check(docker: bool, helm: bool) -> (result: DoctorCheck)
    ensures
        result@ == clients_checked(docker, helm),
{
    check(pass_or_warn(docker || helm), "ECR clients", ecr_clients_detail(docker, helm).to_owned())
}

/// The credentials are valid.
pub open spec fn credentials_checked(caller: Result<IdentityModel, Seq<char>>) -> CheckModel {
    match caller {
        Ok(identity) => CheckModel {
            level: CheckLevel::Pass,
            name: "Credentials"@,
            detail: identity.account + " · "@ + short_name(identity.arn),
        },
        Err(error) => CheckModel { level: CheckLevel::Fail, name: "Credentials"@, detail: error },
    }
}

/// Who a valid caller is.
pub open spec fn caller_of(caller: Result<IdentityModel, Seq<char>>) -> Option<IdentityModel> {
    match caller {
        Ok(identity) => Some(identity),
        Err(_) => None,
    }
}

pub open spec fn identity_given(identity: Option<Identity>) -> Option<IdentityModel> {
    match identity {
        Some(identity) => Some(identity@),
        None => None,
    }
}

pub open spec fn config_given(config: Option<ProfileConfig>) -> Option<ConfigModel> {
    match config {
        Some(config) => Some(config@),
        None => None,
    }
}

/// The credentials are valid.
pub fn credentials_check(caller: Result<Identity, String>) -> (result: (DoctorCheck, Option<Identity>))
    ensures
        result.0@ == credentials_checked(identified(caller)),
        identity_given(result.1) == caller_of(identified(caller)),
{
    match caller {
        Ok(identity) => {
            let mut detail = identity.account.clone();
            detail.append(" · ");
            detail.append(identity.display_name());
            (check(CheckLevel::Pass, "Credentials", detail), Some(identity))
        },
        Err(error) => (check(CheckLevel::Fail, "Credentials", error), None),
    }
}

/// How Docker logs in to a registry.
pub open spec fn helper_checked(
    registry: Seq<char>,
    helper: Result<Option<Seq<char>>, Seq<char>>,
) -> CheckModel {
    CheckModel {
        level: or_warn(helper is Ok),
        name: "Docker helper"@,
        detail: match helper {
            Ok(Some(helper)) => helper + " for "@ + registry,
            Ok(None) => "not configured; awswap will use docker login"@,
            Err(error) => error,
        },
    }
}

/// How Docker logs in to a registry.
pub fn docker_helper_result(registry: &str, result: Result<Option<String>, String>) -> (checked:
    DoctorCheck)
    ensures
        checked@ == helper_checked(registry@, helper_of(result)),
{
    match result {
        Ok(Some(helper)) => {
            let mut detail = helper;
            detail.append(" for ");
            detail.append(registry);
            check(CheckLevel::Pass, "Docker helper", detail)
        },
        Ok(None) => check(
            CheckLevel::Pass,
            "Docker helper",
            "not configured; awswap will use docker login".to_owned(),
        ),
        Err(error) => check(CheckLevel::Warn, "Docker helper", error),
    }
}

/// The variables for static credentials that are set.
pub open spec fn overrides_of(environment: EnvironmentModel) -> Seq<Seq<char>> {
    (if environment.access_key_id {
        seq!["AWS_ACCESS_KEY_ID"@]
    } else {
        Seq::empty()
    }) + (if environment.secret_access_key {
        seq!["AWS_SECRET_ACCESS_KEY"@]
    } else {
        Seq::empty()
    }) + (if environment.session_token {
        seq!["AWS_SESSION_TOKEN"@]
    } else {
        Seq::empty()
    }) + (if environment.security_token {
        seq!["AWS_SECURITY_TOKEN"@]
    } else {
        Seq::empty()
    })
}

/// The static credentials, in words.
pub open spec fn overrides_detail(overrides: Seq<Seq<char>>) -> Seq<char> {
    if overrides.len() == 0 {
        "no static credential overrides"@
    } else {
        joined(overrides, ", "@) + " override profiles; the shell hook clears them"@
    }
}

/// The static credentials, in words.
pub fn environment_detail(overrides: &[&str]) -> (result: String)
    ensures
        result@ == overrides_detail(slices(overrides@)),
{
    if overrides.len() == 0 {
        "no static credential overrides".to_owned()
    } else {
        let names = owned(overrides);
        let mut detail = join(names.as_slice(), ", ");
        detail.append(" override profiles; the shell hook clears them");
        detail
    }
}

/// No static credentials override profiles.
pub open spec fn environment_checked(environment: EnvironmentModel) -> CheckModel {
    CheckModel {
        level: or_warn(overrides_of(environment).len() == 0),
        name: "Environment"@,
        detail: overrides_detail(overrides_of(environment)),
    }
}

/// No static credentials override profiles.
pub fn environment_check(environment: &Environment) -> (result: DoctorCheck)
    ensures
        result@ == environment_checked(environment@),
{
    let mut overrides: Vec<&str> = Vec::new();
    if environment.access_key_id {
        overrides.push("AWS_ACCESS_KEY_ID");
    }
    if environment.secret_access_key {
        overrides.push("AWS_SECRET_ACCESS_KEY");
    }
    if environment.session_token {
        overrides.push("AWS_SESSION_TOKEN");
    }
    if environment.security_token {
        overrides.push("AWS_SECURITY_TOKEN");
    }
    assert(slices(overrides@) =~= overrides_of(environment@));
    let detail = environment_detail(overrides.as_slice());
    check(pass_or_warn(overrides.len() == 0), "Environment", detail)
}

/// What the diagnosis is about.
#[derive(Debug)]
pub struct DoctorContext {
    pub profiles: Vec<String>,
    pub profile: Option<String>,
    pub config_path: Vec<u8>,
    pub state_path: Vec<u8>,
}

pub struct ContextModel {
    pub profiles: Seq<Seq<char>>,
    pub profile: Option<Seq<char>>,
    pub config_path: Seq<u8>,
    pub state_path: Seq<u8>,
}

impl View for DoctorContext {
    type V = ContextModel;

    open spec fn view(&self) -> ContextModel {
        ContextModel {
            profiles: texts(self.profiles@),
            profile: text_of(self.profile),
            config_path: self.config_path@,
            state_path: self.state_path@,
        }
    }
}

/// What the diagnosis finds of the profile in effect.
#[derive(Debug)]
pub struct ProfileDiagnosis {
    pub checks: Vec<DoctorCheck>,
    pub identity: Option<Identity>,
    pub config: Option<ProfileConfig>,
}

pub struct DiagnosisModel {
    pub checks: Seq<CheckModel>,
    pub identity: Option<IdentityModel>,
    pub config: Option<ConfigModel>,
}

impl View for ProfileDiagnosis {
    type V = DiagnosisModel;

    open spec fn view(&self) -> DiagnosisModel {
        DiagnosisModel {
            checks: checks_in(self.checks@),
            identity: identity_given(self.identity),
            config: config_given(self.config),
        }
    }
}

pub open spec fn no_diagnosis() -> DiagnosisModel {
    DiagnosisModel { checks: Seq::empty(), identity: None, config: None }
}

impl Default for ProfileDiagnosis {
    fn default() -> (result: Self)
        ensures
            result@ == no_diagnosis(),
    {
        let result = ProfileDiagnosis { checks: Vec::new(), identity: None, config: None };
        assert(result@.checks =~= Seq::empty());
        result
    }
}

impl ProfileDiagnosis {
    /// The same once more.
    pub fn copy(&self) -> (result: ProfileDiagnosis)
        ensures
            result@ == self@,
    {
        let mut checks: Vec<DoctorCheck> = Vec::new();
        for i in 0..self.checks.len()
            invariant
                checks_in(checks@) == checks_in(self.checks@).take(i as int),
        {
            let ghost before = checks_in(checks@);
            let found = &self.checks[i];
            checks.push(
                DoctorCheck {
                    level: found.level,
                    name: found.name.clone(),
                    detail: found.detail.clone(),
                },
            );
            assert(checks_in(checks@) =~= before.push(checks_in(self.checks@)[i as int]));
            assert(checks_in(self.checks@).take(i + 1) =~= before.push(
                checks_in(self.checks@)[i as int],
            ));
        }
        assert(checks_in(self.checks@).take(self.checks@.len() as int) =~= checks_in(self.checks@));
        ProfileDiagnosis {
            checks,
            identity: match &self.identity {
                Some(identity) => Some(identity.copy()),
                None => None,
            },
            config: match &self.config {
                Some(config) => Some(config.copy()),
                None => None,
            },
        }
    }
}

/// What the diagnosis finds of a profile.
pub open spec fn diagnosis_of(config: ConfigModel, caller: Result<IdentityModel, Seq<char>>) -> DiagnosisModel {
    DiagnosisModel {
        checks: seq![region_checked(config), credentials_checked(caller)],
        identity: caller_of(caller),
        config: Some(config),
    }
}

/// What the diagnosis finds of a profile.
pub fn diagnose_named_profile(config: ProfileConfig, caller: Result<Identity, String>) -> (result:
    ProfileDiagnosis)
    ensures
        result@ == diagnosis_of(config@, identified(caller)),
{
    let (credentials, identity) = credentials_check(caller);
    let mut checks: Vec<DoctorCheck> = Vec::new();
    checks.push(region_check(&config));
    checks.push(credentials);
    assert(checks_in(checks@) =~= seq![
        region_checked(config@),
        credentials_checked(identified(caller)),
    ]);
    ProfileDiagnosis { checks, identity, config: Some(config) }
}

/// The registry whose helper is looked at: that of the caller's account in the
/// profile's region, if Docker is installed.
pub open spec fn helper_registry(docker: bool, diagnosis: DiagnosisModel) -> Option<Seq<char>> {
    match diagnosis.identity {
        Some(identity) => match diagnosis.config {
            Some(config) => match config.region {
                Some(region) => if docker {
                    Some(registry_of(identity.account, region))
                } else {
                    None
                },
                None => None,
            },
            None => None,
        },
        None => None,
    }
}

/// The registry whose helper is looked at.
pub fn docker_helper_check(docker: bool, diagnosis: &ProfileDiagnosis) -> (result: Option<String>)
    ensures
        text_of(result) == helper_registry(docker, diagnosis@),
{
    if !docker {
        return None;
    }
    match &diagnosis.identity {
        Some(identity) => match &diagnosis.config {
            Some(config) => match &config.region {
                Some(region) => Some(ecr_registry(identity.account.as_str(), region.as_str())),
                None => None,
            },
            None => None,
        },
        None => None,
    }
}

/// All checks, in their order.
pub open spec fn all_checks(
    context: ContextModel,
    diagnosis: DiagnosisModel,
    version: Option<Seq<char>>,
    helper: Option<CheckModel>,
    environment: EnvironmentModel,
) -> Seq<CheckModel> {
    seq![
        cli_checked(environment.aws, version),
        config_checked(context.config_path, environment.aws_config),
        profiles_checked(context.profiles),
        active_checked(context.profile),
    ] + diagnosis.checks + seq![
        hook_checked(environment.shell_hook, environment.places.platform, environment.shell),
        state_checked(context.state_path),
        clients_checked(environment.docker, environment.helm),
    ] + (match helper {
        Some(helper) => seq![helper],
        None => Seq::empty(),
    }) + seq![environment_checked(environment)]
}

/// All checks, in their order.
pub fn assemble_doctor_checks(
    context: &DoctorContext,
    diagnosis: ProfileDiagnosis,
    version: Option<String>,
    helper: Option<DoctorCheck>,
    environment: &Environment,
) -> (result: Vec<DoctorCheck>)
    ensures
        checks_in(result@) == all_checks(
            context@,
            diagnosis@,
            text_of(version),
            match helper {
                Some(helper) => Some(helper@),
                None => None,
            },
            environment@,
        ),
{
    let ghost found = checks_in(diagnosis.checks@);
    let mut checks: Vec<DoctorCheck> = Vec::new();
    checks.push(aws_cli_check(environment.aws, version));
    checks.push(aws_config_check(context.config_path.as_slice(), environment.aws_config));
    checks.push(profiles_check(context.profiles.as_slice()));
    checks.push(active_profile_check(borrowed(&context.profile)));
    let ghost head = checks_in(checks@);
    assert(head =~= seq![
        cli_checked(environment.aws, text_of(version)),
        config_checked(context@.config_path, environment.aws_config),
        profiles_checked(context@.profiles),
        active_checked(context@.profile),
    ]);
    let mut more = diagnosis.checks;
    checks.append(&mut more);
    assert(checks_in(checks@) =~= head + found);
    checks.push(
        shell_hook_check(
            environment.shell_hook,
            environment.places.platform,
            &environment.shell,
        ),
    );
    checks.push(state_check(context.state_path.as_slice()));
    checks.push(ecr_clients_check(environment.docker, environment.helm));
    let ghost middle = seq![
        hook_checked(
            environment.shell_hook,
            environment.places.platform,
            environment@.shell,
        ),
        state_checked(context@.state_path),
        clients_checked(environment.docker, environment.helm),
    ];
    assert(checks_in(checks@) =~= head + found + middle);
    match helper {
        Some(helper) => {
            checks.push(helper);
            assert(checks_in(checks@) =~= head + found + middle + seq![helper@]);
        },
        None => {
            assert(checks_in(checks@) =~= head + found + middle + Seq::empty());
        },
    }
    let ghost before = checks_in(checks@);
    checks.push(environment_check(environment));
    assert(checks_in(checks@) =~= before + seq![environment_checked(environment@)]);
    checks
}

/// The outcome of a check, in a word.
pub open spec fn level_name(level: CheckLevel) -> Seq<char> {
    match level {
        CheckLevel::Pass => "pass"@,
        CheckLevel::Warn => "warn"@,
        CheckLevel::Fail => "fail"@,
    }
}

/// The outcome of a check, as a sign.
pub open spec fn level_symbol(level: CheckLevel, color: bool) -> Seq<char> {
    match level {
        CheckLevel::Pass => painted(Style::Green, "✓"@, color),
        CheckLevel::Warn => painted(Style::Yellow, "!"@, color),
        CheckLevel::Fail => painted(Style::Red, "✗"@, color),
    }
}

/// The outcome of a check, in a word.
pub fn check_level_name(level: CheckLevel) -> (result: &'static str)
    ensures
        result@ == level_name(level),
{
    match level {
        CheckLevel::Pass => "pass",
        CheckLevel::Warn => "warn",
        CheckLevel::Fail => "fail",
    }
}

/// The outcome of a check, as a sign.
pub fn check_level_symbol(level: CheckLevel, color: bool) -> (result: String)
    ensures
        result@ == level_symbol(level, color),
{
    match level {
        CheckLevel::Pass => paint(Style::Green, "✓", color),
        CheckLevel::Warn => paint(Style::Yellow, "!", color),
        CheckLevel::Fail => paint(Style::Red, "✗", color),
    }
}

/// A check, as JSON.
pub open spec fn check_json(check: CheckModel) -> Tree {
    object_of(
        seq![
            ("status"@, Tree::Text(level_name(check.level))),
            ("name"@, Tree::Text(check.name)),
            ("detail"@, Tree::Text(check.detail)),
        ],
    )
}

/// The checks, as JSON.
pub open spec fn checks_json(checks: Seq<CheckModel>) -> Tree {
    Tree::List(checks.map_values(|check: CheckModel| check_json(check)))
}

/// A check, as text.
pub open spec fn check_line(check: CheckModel, color: bool) -> LineModel {
    LineModel::Out(
        level_symbol(check.level, color) + " "@ + padded(check.name, 16) + " "@ + check.detail,
    )
}

/// The checks, as text.
pub open spec fn checks_text(checks: Seq<CheckModel>, color: bool) -> Seq<LineModel> {
    checks.map_values(|check: CheckModel| check_line(check, color))
}

/// The checks, as they are printed.
pub open spec fn checks_lines(checks: Seq<CheckModel>, options: OptionsModel, color: bool) -> Seq<
    LineModel,
> {
    if options.json {
        seq![LineModel::Out(rendered(checks_json(checks)))]
    } else if options.quiet {
        Seq::empty()
    } else {
        checks_text(checks, color)
    }
}

fn check_record(check: &DoctorCheck) -> (result: serde_json::Value)
    ensures
        tree_of(result) == check_json(check@),
{
    let mut fields: Vec<(String, serde_json::Value)> = Vec::new();
    fields.push(("status".to_owned(), text_value(check_level_name(check.level))));
    fields.push(("name".to_owned(), text_value(check.name.as_str())));
    fields.push(("detail".to_owned(), text_value(check.detail.as_str())));
    assert(fields_of(fields@) =~= seq![
        ("status"@, Tree::Text(level_name(check@.level))),
        ("name"@, Tree::Text(check@.name)),
        ("detail"@, Tree::Text(check@.detail)),
    ]);
    object_value(fields)
}

/// The checks, as JSON.
pub fn print_doctor_json(checks: &[DoctorCheck]) -> (result: String)
    ensures
        result@ == rendered(checks_json(checks_in(checks@))),
{
    let ghost wanted = checks_in(checks@).map_values(|check: CheckModel| check_json(check));
    let mut values: Vec<serde_json::Value> = Vec::new();
    for i in 0..checks.len()
        invariant
            wanted == checks_in(checks@).map_values(|check: CheckModel| check_json(check)),
            trees(values@) == wanted.take(i as int),
    {
        let ghost before = trees(values@);
        values.push(check_record(&checks[i]));
        assert(trees(values@) =~= before.push(wanted[i as int]));
        assert(wanted.take(i + 1) =~= before.push(wanted[i as int]));
    }
    assert(wanted.take(checks@.len() as int) =~= wanted);
    write_value(&list_value(values))
}

/// The checks, as text.
pub fn print_doctor_text(checks: &[DoctorCheck], color: bool) -> (result: Vec<Line>)
    ensures
        lines_in(result@) == checks_text(checks_in(checks@), color),
{
    let ghost wanted = checks_text(checks_in(checks@), color);
    let mut lines: Vec<Line> = Vec::new();
    for i in 0..checks.len()
        invariant
            wanted == checks_text(checks_in(checks@), color),
            lines_in(lines@) == wanted.take(i as int),
    {
        let ghost before = lines_in(lines@);
        let mut line = check_level_symbol(checks[i].level, color);
        let name = pad(checks[i].name.as_str(), 16);
        line.append(" ");
        line.append(name.as_str());
        line.append(" ");
        line.append(checks[i].detail.as_str());
        lines.push(Line::Out(line));
        assert(lines_in(lines@) =~= before.push(wanted[i as int]));
        assert(wanted.take(i + 1) =~= before.push(wanted[i as int]));
    }
    assert(wanted.take(checks@.len() as int) =~= wanted);
    lines
}

/// The checks, as they are printed.
pub fn print_doctor_checks(checks: &[DoctorCheck], options: &Options, color: bool) -> (result: Vec<Line>)
    ensures
        lines_in(result@) == checks_lines(checks_in(checks@), options@, color),
{
    if options.json {
        one_line(Line::Out(print_doctor_json(checks)))
    } else if options.quiet {
        no_line()
    } else {
        print_doctor_text(checks, color)
    }
}

/// How many checks failed.
pub open spec fn failures_in(checks: Seq<CheckModel>) -> nat
    decreases checks.len(),
{
    if checks.len() == 0 {
        0
    } else {
        failures_in(checks.drop_last()) + if checks.last().level is Fail {
            1nat
        } else {
            0nat
        }
    }
}

/// No check failed, or the message of how many did.
pub open spec fn diagnosis_verdict(checks: Seq<CheckModel>) -> Result<(), Seq<char>> {
    if failures_in(checks) == 0 {
        Ok(())
    } else {
        Err("doctor found "@ + decimal(failures_in(checks)) + " blocking problem(s)"@)
    }
}

/// No check failed, or the message of how many did.
pub fn doctor_result(checks: &[DoctorCheck]) -> (result: Result<(), String>)
    ensures
        verdict(result) == diagnosis_verdict(checks_in(checks@)),
{
    let mut failures: usize = 0;
    for i in 0..checks.len()
        invariant
            failures <= i,
            failures == failures_in(checks_in(checks@).take(i as int)),
    {
        assert(checks_in(checks@).take(i + 1).drop_last() =~= checks_in(checks@).take(i as int));
        assert(checks_in(checks@)[i as int] == checks@[i as int]@);
        match checks[i].level {
            CheckLevel::Fail => {
                failures += 1;
            },
            _ => {},
        }
    }
    assert(checks_in(checks@).take(checks@.len() as int) =~= checks_in(checks@));
    if failures == 0 {
        Ok(())
    } else {
        let count = number(failures);
        let mut message = "doctor found ".to_owned();
        message.append(count.as_str());
        message.append(" blocking problem(s)");
        Err(message)
    }
}

/// A diagnosis ends in an error exactly where one of its checks failed: a
/// warning does not.
pub proof fn law_diagnosis_verdict(checks: Seq<CheckModel>)
    ensures
        diagnosis_verdict(checks) is Err <==> exists|i: int|
            0 <= i < checks.len() && (#[trigger] checks[i]).level is Fail,
    decreases checks.len(),
{
    if checks.len() > 0 {
        let fewer = checks.drop_last();
        law_diagnosis_verdict(fewer);
        if exists|i: int| 0 <= i < fewer.len() && (#[trigger] fewer[i]).level is Fail {
            let i = choose|i: int| 0 <= i < fewer.len() && (#[trigger] fewer[i]).level is Fail;
            assert(checks[i].level is Fail);
        }
        if exists|i: int| 0 <= i < checks.len() && (#[trigger] checks[i]).level is Fail {
            let i = choose|i: int| 0 <= i < checks.len() && (#[trigger] checks[i]).level is Fail;
            if i < fewer.len() {
                assert(fewer[i].level is Fail);
            }
        }
    }
}

/// A diagnosis can only fail on the AWS CLI, the profiles, the profile in effect
/// and its credentials: without any of these it does, and whatever else is
/// missing is no more than a warning.
pub proof fn law_blocking_problems(
    context: ContextModel,
    config: ConfigModel,
    caller: Result<IdentityModel, Seq<char>>,
    version: Option<Seq<char>>,
    registry: Seq<char>,
    helper: Result<Option<Seq<char>>, Seq<char>>,
    environment: EnvironmentModel,
)
    ensures
        diagnosis_verdict(
            all_checks(
                context,
                diagnosis_of(config, caller),
                version,
                Some(helper_checked(registry, helper)),
                environment,
            ),
        ) is Ok <==> environment.aws && context.profiles.len() > 0 && context.profile is Some
            && caller is Ok,
        diagnosis_verdict(
            all_checks(context, diagnosis_of(config, caller), version, None, environment),
        ) is Ok <==> environment.aws && context.profiles.len() > 0 && context.profile is Some
            && caller is Ok,
        diagnosis_verdict(all_checks(context, no_diagnosis(), version, None, environment)) is Ok
            <==> environment.aws && context.profiles.len() > 0 && context.profile is Some,
{
    let with_helper = all_checks(
        context,
        diagnosis_of(config, caller),
        version,
        Some(helper_checked(registry, helper)),
        environment,
    );
    let without = all_checks(context, diagnosis_of(config, caller), version, None, environment);
    let bare = all_checks(context, no_diagnosis(), version, None, environment);
    law_diagnosis_verdict(with_helper);
    law_diagnosis_verdict(without);
    law_diagnosis_verdict(bare);
    assert(with_helper[0].level == or_fail(environment.aws));
    assert(with_helper[2].level == or_fail(context.profiles.len() > 0));
    assert(with_helper[3].level == or_fail(context.profile is Some));
    assert(with_helper[5].level == or_fail(caller is Ok));
    assert(without[0].level == or_fail(environment.aws));
    assert(without[2].level == or_fail(context.profiles.len() > 0));
    assert(without[3].level == or_fail(context.profile is Some));
    assert(without[5].level == or_fail(caller is Ok));
    assert(bare[0].level == or_fail(environment.aws));
    assert(bare[2].level == or_fail(context.profiles.len() > 0));
    assert(bare[3].level == or_fail(context.profile is Some));
}

} // verus!
