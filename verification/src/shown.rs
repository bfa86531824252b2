//! How results are shown: the words on each line, and the members of each JSON
//! object.
use crate::choice::{choice_of, offered_line, printed_line, ChoiceModel};
use crate::command::FileModel;
use crate::config::{auth_of, config_of, ConfigModel};
use crate::doctor::{
    active_checked, all_checks, check_json, check_line, checks_lines, cli_checked, config_checked,
    diagnosis_of, helper_checked, level_name, overrides_of, profiles_checked, CheckLevel,
    CheckModel, ContextModel,
};
use crate::identity::{identity_of, short_name, IdentityModel};
use crate::json::{member_of, object_of, parsed_bytes, rendered, text_or_null, Tree};
use crate::report::{
    activation_json, activation_lines, current_lines, listed_lines, login_json, login_lines,
    profile_json, status_json, status_lines, warning_lines, StatusModel,
};
use crate::settings::{
    profile_in_effect, progress_line, trace_line, EnvironmentModel, LineModel, OptionsModel,
};
use crate::shell::{setup_hint, tip_lines};
use crate::state::StateModel;
use crate::style::{painted, strong, Style};
use crate::text::{
    contains, decimal, find_from, joined, lemma_find, lemma_pieces_extend, occurs_at, padded,
    pieces,
};
use crate::utf8::lossy;
use vstd::prelude::*;

verus! {

/// A field is a member where no later one has its name.
proof fn lemma_member(fields: Seq<(Seq<char>, Tree)>, index: int)
    requires
        0 <= index < fields.len(),
        forall|later: int|
            index < later < fields.len() ==> (#[trigger] fields[later]).0 != fields[index].0,
    ensures
        member_of(object_of(fields), fields[index].0) == Some(fields[index].1),
    decreases fields.len(),
{
    if index < fields.len() - 1 {
        let earlier = fields.drop_last();
        assert(earlier[index] == fields[index]);
        assert forall|later: int| index < later < earlier.len() implies (
        #[trigger] earlier[later]).0 != earlier[index].0 by {
            assert(earlier[later] == fields[later]);
        }
        lemma_member(earlier, index);
        assert(fields[fields.len() - 1].0 != fields[index].0);
    }
}

/// The names of fields are different from one another.
pub open spec fn distinct(fields: Seq<(Seq<char>, Tree)>) -> bool {
    forall|i: int, j: int|
        0 <= i < j < fields.len() ==> (#[trigger] fields[i]).0 != (#[trigger] fields[j]).0
}

proof fn lemma_members(fields: Seq<(Seq<char>, Tree)>)
    requires
        distinct(fields),
    ensures
        forall|i: int|
            0 <= i < fields.len() ==> member_of(object_of(fields), (#[trigger] fields[i]).0) == Some(
                fields[i].1,
            ),
{
    assert forall|i: int| 0 <= i < fields.len() implies member_of(
        object_of(fields),
        (#[trigger] fields[i]).0,
    ) == Some(fields[i].1) by {
        lemma_member(fields, i);
    }
}

/// The text of a member, or null where there is none.
pub open spec fn holds(tree: Tree, name: Seq<char>, value: Option<Seq<char>>) -> bool {
    member_of(tree, name) == Some(
        match value {
            Some(text) => Tree::Text(text),
            None => Tree::Null,
        },
    )
}

proof fn lemma_names()
    ensures
        "profile"@.len() == 7,
        "region"@.len() == 6,
        "account"@.len() == 7,
        "identity"@.len() == 8,
        "shell_active"@.len() == 12,
        "authenticated"@.len() == 13,
        "arn"@.len() == 3,
        "credentials"@.len() == 11,
        "shell_hook"@.len() == 10,
        "ecr_clients"@.len() == 11,
        "name"@.len() == 4,
        "current"@.len() == 7,
        "previous"@.len() == 8,
        "auth"@.len() == 4,
        "status"@.len() == 6,
        "detail"@.len() == 6,
        "profile"@[0] == 'p',
        "account"@[0] == 'a',
        "credentials"@[0] == 'c',
        "ecr_clients"@[0] == 'e',
        "name"@[0] == 'n',
        "auth"@[0] == 'a',
        "status"@[0] == 's',
        "detail"@[0] == 'd',
{
    reveal_strlit("profile");
    reveal_strlit("region");
    reveal_strlit("account");
    reveal_strlit("identity");
    reveal_strlit("shell_active");
    reveal_strlit("authenticated");
    reveal_strlit("arn");
    reveal_strlit("credentials");
    reveal_strlit("shell_hook");
    reveal_strlit("ecr_clients");
    reveal_strlit("name");
    reveal_strlit("current");
    reveal_strlit("previous");
    reveal_strlit("auth");
    reveal_strlit("status");
    reveal_strlit("detail");
}

/// The receipt of a switch is one line: a tick, whether the profile is active or
/// only selected, the profile, the account, the region and the caller's name.
pub proof fn law_receipt_line(
    profile: Seq<char>,
    identity: IdentityModel,
    config: ConfigModel,
    options: OptionsModel,
    environment: EnvironmentModel,
)
    requires
        !options.json,
        !options.quiet,
        !environment.color,
    ensures
        activation_lines(profile, identity, config, options, environment) == seq![
            LineModel::Out(
                (if environment.shell_hook {
                    "✓ Active "@
                } else {
                    "✓ Selected "@
                }) + profile + "  "@ + identity.account + "  "@ + (match config.region {
                    Some(region) => region,
                    None => "no-region"@,
                }) + "  "@ + short_name(identity.arn),
            ),
        ],
{
    reveal_strlit("✓ Active ");
    reveal_strlit("✓ Selected ");
    reveal_strlit("✓");
    reveal_strlit(" ");
    reveal_strlit("Active");
    reveal_strlit("Selected");
    assert("✓"@ + " "@ + "Active"@ + " "@ =~= "✓ Active "@);
    assert("✓"@ + " "@ + "Selected"@ + " "@ =~= "✓ Selected "@);
}

/// In JSON the receipt of a switch holds the profile, its region or null, the
/// account, the caller and whether the shell follows the switch.
pub proof fn law_receipt_json(
    profile: Seq<char>,
    identity: IdentityModel,
    config: ConfigModel,
    options: OptionsModel,
    environment: EnvironmentModel,
)
    requires
        options.json,
    ensures
        exists|tree: Tree|
            {
                &&& activation_lines(profile, identity, config, options, environment) == seq![
                    LineModel::Out(#[trigger] rendered(tree)),
                ]
                &&& holds(tree, "profile"@, Some(profile))
                &&& holds(tree, "region"@, config.region)
                &&& holds(tree, "account"@, Some(identity.account))
                &&& holds(tree, "identity"@, Some(identity.arn))
                &&& member_of(tree, "shell_active"@) == Some(Tree::Flag(environment.shell_hook))
            },
{
    let hook = environment.shell_hook;
    let fields = seq![
        ("profile"@, Tree::Text(profile)),
        ("region"@, text_or_null(config.region)),
        ("account"@, Tree::Text(identity.account)),
        ("identity"@, Tree::Text(identity.arn)),
        ("shell_active"@, Tree::Flag(hook)),
    ];
    let tree = activation_json(profile, identity, config, hook);
    lemma_names();
    lemma_members(fields);
    assert(tree == object_of(fields));
    assert(fields[0].0 == "profile"@ && fields[1].0 == "region"@ && fields[2].0 == "account"@
        && fields[3].0 == "identity"@ && fields[4].0 == "shell_active"@);
    assert(activation_lines(profile, identity, config, options, environment) == seq![
        LineModel::Out(rendered(tree)),
    ]);
}

/// A login that has worked says so of its profile, and in JSON of its account.
pub proof fn law_login_shown(
    profile: Seq<char>,
    identity: IdentityModel,
    options: OptionsModel,
    environment: EnvironmentModel,
)
    ensures
        !options.json && options.quiet ==> login_lines(profile, identity, options, environment).len()
            == 0,
        !options.json && !options.quiet && !environment.color ==> login_lines(
            profile,
            identity,
            options,
            environment,
        ) == seq![LineModel::Out("✓ Authenticated "@ + profile)],
        options.json ==> exists|tree: Tree|
            {
                &&& login_lines(profile, identity, options, environment) == seq![
                    LineModel::Out(#[trigger] rendered(tree)),
                ]
                &&& holds(tree, "profile"@, Some(profile))
                &&& holds(tree, "account"@, Some(identity.account))
                &&& member_of(tree, "authenticated"@) == Some(Tree::Flag(true))
            },
{
    reveal_strlit("✓ Authenticated ");
    reveal_strlit("✓ Authenticated");
    reveal_strlit(" ");
    assert("✓ Authenticated"@ + " "@ =~= "✓ Authenticated "@);
    let fields = seq![
        ("profile"@, Tree::Text(profile)),
        ("account"@, Tree::Text(identity.account)),
        ("authenticated"@, Tree::Flag(true)),
    ];
    let tree = login_json(profile, identity);
    lemma_names();
    lemma_members(fields);
    assert(tree == object_of(fields));
    assert(fields[0].0 == "profile"@ && fields[1].0 == "account"@ && fields[2].0
        == "authenticated"@);
    if options.json {
        assert(login_lines(profile, identity, options, environment) == seq![
            LineModel::Out(rendered(tree)),
        ]);
    }
}

/// A report says line by line: the profile, its region, the account and the name
/// of the caller, that the credentials are valid, whether the hook is installed,
/// and which registry clients are.
pub proof fn law_status_shown(report: StatusModel, options: OptionsModel)
    requires
        !options.json,
    ensures
        options.quiet ==> status_lines(report, options, false).len() == 0,
        !options.quiet ==> status_lines(report, options, false) == seq![
            LineModel::Out("Profile        "@ + report.profile),
            LineModel::Out(
                "Region         "@ + (match report.config.region {
                    Some(region) => region,
                    None => "not configured"@,
                }),
            ),
            LineModel::Out("Account        "@ + report.identity.account),
            LineModel::Out("Identity       "@ + short_name(report.identity.arn)),
            LineModel::Out("Credentials    valid"@),
            LineModel::Out(
                if report.shell_hook {
                    "Shell hook     active"@
                } else {
                    "Shell hook     not installed"@
                },
            ),
            LineModel::Out(
                "ECR clients    "@ + (if report.clients.len() == 0 {
                    "none"@
                } else {
                    joined(report.clients, ", "@)
                }),
            ),
        ],
{
    reveal_strlit("Profile        ");
    reveal_strlit("Region         ");
    reveal_strlit("Account        ");
    reveal_strlit("Identity       ");
    reveal_strlit("Credentials    valid");
    reveal_strlit("Shell hook     active");
    reveal_strlit("Shell hook     not installed");
    reveal_strlit("ECR clients    ");
    reveal_strlit("Profile");
    reveal_strlit("Region");
    reveal_strlit("Account");
    reveal_strlit("Identity");
    reveal_strlit("Credentials");
    reveal_strlit("Shell hook");
    reveal_strlit("ECR clients");
    reveal_strlit("valid");
    reveal_strlit("active");
    reveal_strlit("not installed");
    reveal_strlit(" ");
    assert(padded("Profile"@, 14) + " "@ =~= "Profile        "@);
    assert(padded("Region"@, 14) + " "@ =~= "Region         "@);
    assert(padded("Account"@, 14) + " "@ =~= "Account        "@);
    assert(padded("Identity"@, 14) + " "@ =~= "Identity       "@);
    assert(padded("Credentials"@, 14) + " "@ + "valid"@ =~= "Credentials    valid"@);
    assert(padded("Shell hook"@, 14) + " "@ + "active"@ =~= "Shell hook     active"@);
    assert(padded("Shell hook"@, 14) + " "@ + "not installed"@ =~= "Shell hook     not installed"@);
    assert(padded("ECR clients"@, 14) + " "@ =~= "ECR clients    "@);
}

/// In JSON a report holds the same.
pub proof fn law_status_json(report: StatusModel, options: OptionsModel, color: bool)
    requires
        options.json,
    ensures
        exists|tree: Tree|
            {
                &&& status_lines(report, options, color) == seq![
                    LineModel::Out(#[trigger] rendered(tree)),
                ]
                &&& holds(tree, "profile"@, Some(report.profile))
                &&& holds(tree, "region"@, report.config.region)
                &&& holds(tree, "account"@, Some(report.identity.account))
                &&& holds(tree, "arn"@, Some(report.identity.arn))
                &&& holds(tree, "identity"@, Some(short_name(report.identity.arn)))
                &&& holds(tree, "credentials"@, Some("valid"@))
                &&& member_of(tree, "shell_hook"@) == Some(Tree::Flag(report.shell_hook))
                &&& member_of(tree, "ecr_clients"@) matches Some(Tree::List(list)) && list.len()
                    == report.clients.len() && forall|i: int|
                    0 <= i < list.len() ==> #[trigger] list[i] == Tree::Text(report.clients[i])
            },
{
    let list = report.clients.map_values(|name: Seq<char>| Tree::Text(name));
    let fields = seq![
        ("profile"@, Tree::Text(report.profile)),
        ("region"@, text_or_null(report.config.region)),
        ("account"@, Tree::Text(report.identity.account)),
        ("arn"@, Tree::Text(report.identity.arn)),
        ("identity"@, Tree::Text(short_name(report.identity.arn))),
        ("credentials"@, Tree::Text("valid"@)),
        ("shell_hook"@, Tree::Flag(report.shell_hook)),
        ("ecr_clients"@, Tree::List(list)),
    ];
    let tree = status_json(report);
    lemma_names();
    assert(fields[0].0 == "profile"@ && fields[1].0 == "region"@ && fields[2].0 == "account"@
        && fields[3].0 == "arn"@ && fields[4].0 == "identity"@ && fields[5].0 == "credentials"@
        && fields[6].0 == "shell_hook"@ && fields[7].0 == "ecr_clients"@);
    assert(distinct(fields));
    lemma_members(fields);
    assert(tree == object_of(fields));
    assert(status_lines(report, options, color) == seq![LineModel::Out(rendered(tree))]);
}

/// A check is shown by a tick, an exclamation mark or a cross, for one that passed,
/// one to be warned of and one that failed, by its name in a column, and by its
/// detail; and in JSON by the same three.
pub proof fn law_check_shown(check: CheckModel)
    ensures
        check_line(check, false) == LineModel::Out(
            (match check.level {
                CheckLevel::Pass => "✓ "@,
                CheckLevel::Warn => "! "@,
                CheckLevel::Fail => "✗ "@,
            }) + padded(check.name, 16) + " "@ + check.detail,
        ),
        holds(
            check_json(check),
            "status"@,
            Some(
                match check.level {
                    CheckLevel::Pass => "pass"@,
                    CheckLevel::Warn => "warn"@,
                    CheckLevel::Fail => "fail"@,
                },
            ),
        ),
        holds(check_json(check), "name"@, Some(check.name)),
        holds(check_json(check), "detail"@, Some(check.detail)),
{
    reveal_strlit("✓ ");
    reveal_strlit("! ");
    reveal_strlit("✗ ");
    reveal_strlit("✓");
    reveal_strlit("!");
    reveal_strlit("✗");
    reveal_strlit(" ");
    assert("✓"@ + " "@ =~= "✓ "@);
    assert("!"@ + " "@ =~= "! "@);
    assert("✗"@ + " "@ =~= "✗ "@);
    let fields = seq![
        ("status"@, Tree::Text(level_name(check.level))),
        ("name"@, Tree::Text(check.name)),
        ("detail"@, Tree::Text(check.detail)),
    ];
    lemma_names();
    assert(fields[0].0 == "status"@ && fields[1].0 == "name"@ && fields[2].0 == "detail"@);
    lemma_members(fields);
}

/// The checks are shown one by one, in their order; in JSON as a list of them.
pub proof fn law_checks_shown(checks: Seq<CheckModel>, options: OptionsModel, color: bool)
    ensures
        !options.json && !options.quiet ==> checks_lines(checks, options, color).len()
            == checks.len() && forall|i: int|
            0 <= i < checks.len() ==> #[trigger] checks_lines(checks, options, color)[i]
                == check_line(checks[i], color),
        !options.json && options.quiet ==> checks_lines(checks, options, color).len() == 0,
        options.json ==> exists|list: Seq<Tree>|
            {
                &&& checks_lines(checks, options, color) == seq![
                    LineModel::Out(#[trigger] rendered(Tree::List(list))),
                ]
                &&& list.len() == checks.len()
                &&& forall|i: int|
                    0 <= i < list.len() ==> #[trigger] list[i] == check_json(checks[i])
            },
{
    let list = checks.map_values(|check: CheckModel| check_json(check));
    if options.json {
        assert(checks_lines(checks, options, color) == seq![
            LineModel::Out(rendered(Tree::List(list))),
        ]);
    }
}

/// The check has that level, name and detail.
pub open spec fn is_check(
    check: CheckModel,
    level: CheckLevel,
    name: Seq<char>,
    detail: Seq<char>,
) -> bool {
    check.level == level && check.name == name && check.detail == detail
}

/// What a diagnosis finds: whether the AWS CLI is installed, whether there is a
/// configuration and how many profiles, which profile it is about, its region and
/// its caller, whether the hook is installed, where the state is, which registry
/// clients are installed, and which variables override profiles.
pub proof fn law_checks(
    context: ContextModel,
    config: ConfigModel,
    caller: Result<IdentityModel, Seq<char>>,
    version: Option<Seq<char>>,
    helper: Option<CheckModel>,
    environment: EnvironmentModel,
)
    ensures
        ({
            let checks = all_checks(
                context,
                diagnosis_of(config, caller),
                version,
                helper,
                environment,
            );
            &&& checks.len() == if helper is Some {
                11
            } else {
                10nat
            }
            &&& environment.aws ==> is_check(
                checks[0],
                CheckLevel::Pass,
                "AWS CLI"@,
                match version {
                    Some(version) => version,
                    None => "installed"@,
                },
            )
            &&& !environment.aws ==> is_check(
                checks[0],
                CheckLevel::Fail,
                "AWS CLI"@,
                "not found in PATH"@,
            )
            &&& is_check(
                checks[1],
                if environment.aws_config {
                    CheckLevel::Pass
                } else {
                    CheckLevel::Warn
                },
                "AWS config"@,
                lossy(context.config_path),
            )
            &&& is_check(
                checks[2],
                if context.profiles.len() > 0 {
                    CheckLevel::Pass
                } else {
                    CheckLevel::Fail
                },
                "Profiles"@,
                decimal(context.profiles.len()) + " discovered"@,
            )
            &&& context.profile matches Some(profile) ==> is_check(
                checks[3],
                CheckLevel::Pass,
                "Active profile"@,
                profile,
            )
            &&& context.profile is None ==> is_check(
                checks[3],
                CheckLevel::Fail,
                "Active profile"@,
                "none selected"@,
            )
            &&& config.region matches Some(region) ==> is_check(
                checks[4],
                CheckLevel::Pass,
                "Region"@,
                region,
            )
            &&& config.region is None ==> is_check(
                checks[4],
                CheckLevel::Warn,
                "Region"@,
                "not configured; ECR login will be skipped"@,
            )
            &&& caller matches Ok(identity) ==> is_check(
                checks[5],
                CheckLevel::Pass,
                "Credentials"@,
                identity.account + " · "@ + short_name(identity.arn),
            )
            &&& caller matches Err(error) ==> is_check(
                checks[5],
                CheckLevel::Fail,
                "Credentials"@,
                error,
            )
            &&& environment.shell_hook ==> is_check(
                checks[6],
                CheckLevel::Pass,
                "Shell hook"@,
                "active"@,
            )
            &&& !environment.shell_hook ==> is_check(
                checks[6],
                CheckLevel::Warn,
                "Shell hook"@,
                "not active; run "@ + setup_hint(environment.places.platform, environment.shell),
            )
            &&& is_check(checks[7], CheckLevel::Pass, "State"@, lossy(context.state_path))
            &&& is_check(
                checks[8],
                if environment.docker || environment.helm {
                    CheckLevel::Pass
                } else {
                    CheckLevel::Warn
                },
                "ECR clients"@,
                if environment.docker && environment.helm {
                    "Docker, Helm"@
                } else if environment.docker {
                    "Docker"@
                } else if environment.helm {
                    "Helm"@
                } else {
                    "Docker and Helm not found; ECR login is optional"@
                },
            )
            &&& helper matches Some(check) ==> checks[9] == check
            &&& !environment.access_key_id && !environment.secret_access_key
                && !environment.session_token && !environment.security_token ==> is_check(
                checks.last(),
                CheckLevel::Pass,
                "Environment"@,
                "no static credential overrides"@,
            )
            &&& environment.access_key_id || environment.secret_access_key
                || environment.session_token || environment.security_token
                ==> checks.last().level is Warn && checks.last().name == "Environment"@
                && checks.last().detail == joined(overrides_of(environment), ", "@)
                + " override profiles; the shell hook clears them"@
        }),
{
    let found = diagnosis_of(config, caller);
    let head = seq![
        cli_checked(environment.aws, version),
        config_checked(context.config_path, environment.aws_config),
        profiles_checked(context.profiles),
        active_checked(context.profile),
    ];
    assert(head.len() == 4);
    assert(found.checks.len() == 2);
}

/// The variables that override profiles are named, each where it is set.
pub proof fn law_overrides(environment: EnvironmentModel)
    ensures
        overrides_of(environment).contains("AWS_ACCESS_KEY_ID"@) <==> environment.access_key_id,
        overrides_of(environment).contains("AWS_SECRET_ACCESS_KEY"@)
            <==> environment.secret_access_key,
        overrides_of(environment).contains("AWS_SESSION_TOKEN"@) <==> environment.session_token,
        overrides_of(environment).contains("AWS_SECURITY_TOKEN"@) <==> environment.security_token,
{
    reveal_strlit("AWS_ACCESS_KEY_ID");
    reveal_strlit("AWS_SECRET_ACCESS_KEY");
    reveal_strlit("AWS_SESSION_TOKEN");
    reveal_strlit("AWS_SECURITY_TOKEN");
    assert("AWS_ACCESS_KEY_ID"@.len() == 17 && "AWS_SECRET_ACCESS_KEY"@.len() == 21
        && "AWS_SESSION_TOKEN"@.len() == 17 && "AWS_SECURITY_TOKEN"@.len() == 18);
    assert("AWS_ACCESS_KEY_ID"@[4] != "AWS_SESSION_TOKEN"@[4]);
    let all = overrides_of(environment);
    let a: int = if environment.access_key_id {
        1
    } else {
        0
    };
    let b: int = if environment.secret_access_key {
        a + 1
    } else {
        a
    };
    let c: int = if environment.session_token {
        b + 1
    } else {
        b
    };
    if environment.access_key_id {
        assert(all[0] == "AWS_ACCESS_KEY_ID"@);
    }
    if environment.secret_access_key {
        assert(all[a] == "AWS_SECRET_ACCESS_KEY"@);
    }
    if environment.session_token {
        assert(all[b] == "AWS_SESSION_TOKEN"@);
    }
    if environment.security_token {
        assert(all[c] == "AWS_SECURITY_TOKEN"@);
    }
}

/// Where a registry is known to look for, Docker's helper for it is named, or that
/// there is none; a configuration that cannot be read is warned of.
pub proof fn law_helper_check(registry: Seq<char>, helper: Seq<char>, error: Seq<char>)
    ensures
        is_check(
            helper_checked(registry, Ok(Some(helper))),
            CheckLevel::Pass,
            "Docker helper"@,
            helper + " for "@ + registry,
        ),
        is_check(
            helper_checked(registry, Ok(None)),
            CheckLevel::Pass,
            "Docker helper"@,
            "not configured; awswap will use docker login"@,
        ),
        is_check(helper_checked(registry, Err(error)), CheckLevel::Warn, "Docker helper"@, error),
{
}

/// A profile is offered and listed behind its mark, in columns: its name, region,
/// way to sign in, and account.
pub proof fn law_profile_line(choice: ChoiceModel)
    ensures
        offered_line(choice) == choice.marker + padded(choice.name, 24) + " "@ + padded(
            choice.region,
            15,
        ) + " "@ + padded(choice.auth, 11) + " "@ + choice.account,
        choice.marker == "● "@ || choice.marker == "↩ "@ || choice.marker == "  "@ ==> printed_line(
            choice,
            false,
        ) == offered_line(choice),
{
    reveal_strlit("● ");
    reveal_strlit("↩ ");
    reveal_strlit("  ");
    reveal_strlit("●");
    reveal_strlit("↩");
    reveal_strlit(" ");
    assert("● "@[0] != "↩ "@[0] && "● "@[0] != "  "@[0] && "↩ "@[0] != "  "@[0]);
    assert("●"@ + " "@ =~= "● "@);
    assert("↩"@ + " "@ =~= "↩ "@);
    assert(" "@ + " "@ =~= "  "@);
    assert(offered_line(choice) =~= choice.marker + padded(choice.name, 24) + " "@ + padded(
        choice.region,
        15,
    ) + " "@ + padded(choice.auth, 11) + " "@ + choice.account);
}

/// In JSON a profile is listed with its name, whether it is the one in effect or
/// the previous one, its region or null, and its way to sign in.
pub proof fn law_profile_json(
    profile: Seq<char>,
    state: StateModel,
    current: Option<Seq<char>>,
    contents: Seq<char>,
)
    ensures
        ({
            let tree = profile_json(profile, state, current, FileModel::Contents(contents));
            let config = config_of(contents, profile);
            &&& holds(tree, "name"@, Some(profile))
            &&& member_of(tree, "current"@) == Some(Tree::Flag(current == Some(profile)))
            &&& member_of(tree, "previous"@) == Some(Tree::Flag(state.previous == Some(profile)))
            &&& holds(tree, "region"@, config.region)
            &&& holds(tree, "auth"@, Some(auth_of(config)))
        }),
{
    let config = config_of(contents, profile);
    let fields = seq![
        ("name"@, Tree::Text(profile)),
        ("current"@, Tree::Flag(current == Some(profile))),
        ("previous"@, Tree::Flag(state.previous == Some(profile))),
        ("region"@, text_or_null(config.region)),
        ("auth"@, Tree::Text(auth_of(config))),
    ];
    lemma_names();
    assert(fields[0].0 == "name"@ && fields[1].0 == "current"@ && fields[2].0 == "previous"@
        && fields[3].0 == "region"@ && fields[4].0 == "auth"@);
    lemma_members(fields);
}

/// A list in JSON holds each profile, in the order of the list; one for a terminal
/// holds a line for each.
pub proof fn law_list_shown(
    ordered: Seq<Seq<char>>,
    state: StateModel,
    current: Option<Seq<char>>,
    options: OptionsModel,
    environment: EnvironmentModel,
    contents: Seq<char>,
)
    ensures
        ({
            let read = FileModel::Contents(contents);
            let lines = listed_lines(ordered, state, current, options, environment, read);
            &&& options.json ==> exists|list: Seq<Tree>|
                {
                    &&& lines == Ok::<_, Seq<char>>(
                        seq![LineModel::Out(#[trigger] rendered(Tree::List(list)))],
                    )
                    &&& list.len() == ordered.len()
                    &&& forall|i: int|
                        0 <= i < list.len() ==> #[trigger] list[i] == profile_json(
                            ordered[i],
                            state,
                            current,
                            read,
                        )
                }
            &&& !options.json && !options.quiet && environment.output_terminal ==> {
                &&& lines matches Ok(shown)
                &&& shown.len() == ordered.len()
                &&& forall|i: int|
                    0 <= i < shown.len() ==> #[trigger] shown[i] == LineModel::Out(
                        printed_line(
                            choice_of(ordered[i], state, current, contents),
                            environment.color,
                        ),
                    )
            }
        }),
{
    let read = FileModel::Contents(contents);
    if options.json {
        let list = ordered.map_values(
            |profile: Seq<char>| profile_json(profile, state, current, read),
        );
        assert(listed_lines(ordered, state, current, options, environment, read) == Ok::<
            _,
            Seq<char>,
        >(seq![LineModel::Out(rendered(Tree::List(list)))]));
    }
}

/// In JSON the profile in effect is the member of an object.
pub proof fn law_current_json(
    state: StateModel,
    options: OptionsModel,
    environment: EnvironmentModel,
    profile: Seq<char>,
)
    requires
        options.json,
        profile_in_effect(environment, state) == Some(profile),
    ensures
        exists|tree: Tree|
            {
                &&& current_lines(state, options, environment) == Ok::<_, Seq<char>>(
                    seq![LineModel::Out(#[trigger] rendered(tree))],
                )
                &&& holds(tree, "profile"@, Some(profile))
            },
{
    let fields = seq![("profile"@, Tree::Text(profile))];
    lemma_members(fields);
    assert(fields[0].0 == "profile"@);
    let tree = object_of(fields);
    assert(current_lines(state, options, environment) == Ok::<_, Seq<char>>(
        seq![LineModel::Out(rendered(tree))],
    ));
}

/// A switch whose logins failed warns of it, and says what holds of the profile
/// nevertheless; without the hook, and on a terminal, it says how to install it.
pub proof fn law_warnings(error: Seq<char>, options: OptionsModel, environment: EnvironmentModel)
    requires
        !environment.color,
    ensures
        warning_lines(error, environment) == seq![
            LineModel::Note("warning: "@ + error),
            LineModel::Note(
                if environment.shell_hook {
                    "AWS profile is active; retry with `awswap login`."@
                } else {
                    "AWS profile is selected; retry with `awswap login`."@
                },
            ),
        ],
        !environment.shell_hook && environment.output_terminal && !options.quiet && !options.json
            ==> tip_lines(options, environment) == seq![
            LineModel::Note(
                "tip: shell unchanged; run "@ + setup_hint(
                    environment.places.platform,
                    environment.shell,
                ) + " once to activate future selections"@,
            ),
        ],
        environment.shell_hook || !environment.output_terminal || options.quiet || options.json
            ==> tip_lines(options, environment).len() == 0,
{
    reveal_strlit("warning: ");
    reveal_strlit("warning:");
    reveal_strlit(" ");
    reveal_strlit("AWS profile is active; retry with `awswap login`.");
    reveal_strlit("AWS profile is selected; retry with `awswap login`.");
    reveal_strlit("AWS profile is ");
    reveal_strlit("active");
    reveal_strlit("selected");
    reveal_strlit("; retry with `awswap login`.");
    reveal_strlit("tip: shell unchanged; run ");
    reveal_strlit("tip:");
    reveal_strlit(" shell unchanged; run ");
    assert("warning:"@ + " "@ =~= "warning: "@);
    assert("AWS profile is "@ + "active"@ + "; retry with `awswap login`."@
        =~= "AWS profile is active; retry with `awswap login`."@);
    assert("AWS profile is "@ + "selected"@ + "; retry with `awswap login`."@
        =~= "AWS profile is selected; retry with `awswap login`."@);
    assert("tip:"@ + " shell unchanged; run "@ =~= "tip: shell unchanged; run "@);
}

/// Progress is shown on a terminal, or to a user who asked for more, but to none
/// who asked for quiet or for JSON; commands are shown to a user who asked for
/// more.
pub proof fn law_progress_shown(
    options: OptionsModel,
    environment: EnvironmentModel,
    message: Seq<char>,
    args: Seq<Seq<char>>,
)
    requires
        !environment.color,
    ensures
        (environment.error_terminal || options.verbose) && !options.quiet && !options.json
            ==> progress_line(options, environment, message) == seq![
            LineModel::Note("… "@ + message),
        ],
        !(environment.error_terminal || options.verbose) || options.quiet || options.json
            ==> progress_line(options, environment, message).len() == 0,
        options.verbose ==> trace_line(options, environment, "aws"@, args) == seq![
            LineModel::Note("+ aws "@ + joined(args, " "@)),
        ],
        !options.verbose ==> trace_line(options, environment, "aws"@, args).len() == 0,
{
    reveal_strlit("… ");
    reveal_strlit("…");
    reveal_strlit("+ aws ");
    reveal_strlit("+");
    reveal_strlit("aws");
    reveal_strlit(" ");
    assert("…"@ + " "@ =~= "… "@);
    assert("+"@ + " "@ + "aws"@ + " "@ =~= "+ aws "@);
}

/// The caller is what AWS answers: the account, the name in full and the number of
/// the user, as the members of its reply say; what it does not say is empty. A reply
/// that is no JSON is an error.
pub proof fn law_caller_read(
    bytes: Seq<u8>,
    members: Map<Seq<char>, Tree>,
    text: Seq<char>,
    error: Seq<char>,
)
    ensures
        parsed_bytes(bytes) == Ok::<_, Seq<char>>(Tree::Object(members)) ==> {
            &&& identity_of(bytes) matches Ok(identity)
            &&& members.contains_key("Account"@) && members["Account"@] == Tree::Text(text)
                ==> identity.account == text
            &&& members.contains_key("Arn"@) && members["Arn"@] == Tree::Text(text)
                ==> identity.arn == text
            &&& members.contains_key("UserId"@) && members["UserId"@] == Tree::Text(text)
                ==> identity.user_id == text
            &&& !members.contains_key("Account"@) ==> identity.account.len() == 0
            &&& !members.contains_key("Arn"@) ==> identity.arn.len() == 0
            &&& !members.contains_key("UserId"@) ==> identity.user_id.len() == 0
        },
        parsed_bytes(bytes) == Err::<Tree, _>(error) ==> identity_of(bytes) == Err::<
            IdentityModel,
            _,
        >("AWS returned invalid identity JSON: "@ + error),
{
}

/// A caller with an assumed role is called by the role and the session.
pub proof fn law_role_name(before: Seq<char>, name: Seq<char>)
    requires
        !contains(before + ":assumed-role"@, ":assumed-role/"@),
    ensures
        short_name(before + ":assumed-role/"@ + name) == name,
{
    let mark = ":assumed-role/"@;
    let arn = before + mark + name;
    let start = before + ":assumed-role"@;
    assert(mark.len() == 14 && ":assumed-role"@.len() == 13 && mark.take(13) =~= ":assumed-role"@) by {
        reveal_strlit(":assumed-role/");
        reveal_strlit(":assumed-role");
    }
    lemma_find(arn, mark, 0);
    assert(arn.subrange(before.len() as int, before.len() as int + 14) =~= mark);
    assert(occurs_at(arn, mark, before.len() as int));
    let first = find_from(arn, mark, 0)->0;
    if first < before.len() {
        assert forall|k: int| 0 <= k < start.len() implies start[k] == arn[k] by {
            if k >= before.len() {
                assert(mark.take(13)[k - before.len()] == ":assumed-role"@[k - before.len()]);
            }
        }
        assert(start.subrange(first, first + 14) =~= arn.subrange(first, first + 14));
        assert(occurs_at(start, mark, first));
    }
    assert(arn.skip(first + 14) =~= name);
}

/// Any other caller is called by what follows the last slash.
pub proof fn law_user_name(path: Seq<char>, last: Seq<char>)
    requires
        !contains(path + seq!['/'] + last, ":assumed-role/"@),
        !last.contains('/'),
    ensures
        short_name(path + seq!['/'] + last) == last,
{
    let whole = path + seq!['/'] + last;
    lemma_find(whole, ":assumed-role/"@, 0);
    lemma_pieces_extend(path + seq!['/'], last, '/');
    assert((path + seq!['/']).drop_last() =~= path);
    assert(pieces(path + seq!['/'], '/').last() =~= Seq::<char>::empty());
    assert(Seq::<char>::empty() + last =~= last);
}

/// Colour puts a code before a text and one behind it, and changes nothing else.
pub proof fn law_color_codes(text: Seq<char>)
    ensures
        painted(Style::Bold, text, true) == "\u{1b}[1m"@ + text + "\u{1b}[0m"@,
        painted(Style::Dim, text, true) == "\u{1b}[2m"@ + text + "\u{1b}[0m"@,
        painted(Style::Red, text, true) == "\u{1b}[31m"@ + text + "\u{1b}[39m"@,
        painted(Style::Green, text, true) == "\u{1b}[32m"@ + text + "\u{1b}[39m"@,
        painted(Style::Yellow, text, true) == "\u{1b}[33m"@ + text + "\u{1b}[39m"@,
        painted(Style::Cyan, text, true) == "\u{1b}[36m"@ + text + "\u{1b}[39m"@,
        forall|style: Style| #[trigger]
            strong(style, text, true) == painted(Style::Bold, painted(style, text, true), true),
{
}

} // verus!
