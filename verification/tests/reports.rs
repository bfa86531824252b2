use awswap::choice::{
    ensure_profile_exists, print_profile_choice, selection_error, ProfileChoice, SelectionFailure,
};
use awswap::command::{
    aws, command_error, output_detail, plain, require_command, run_error, sign_in, Capture,
    CommandOutput, FileRead, RunFailure,
};
use awswap::config::{parse_section, ProfileConfig};
use awswap::credentials::{
    credential_login_args, ensure_credentials, print_login_notice, print_refresh_notice,
    refresh_credentials, refresh_expired_credentials, run_aws_login, sign_in_error,
    validate_credentials, CredentialCheck,
};
use awswap::doctor::{
    active_profile_check, aws_cli_check, aws_cli_version, aws_config_check, check_level_name,
    check_level_symbol, credentials_check, docker_helper_result, doctor_result, ecr_clients_check,
    ecr_clients_detail, environment_check, environment_detail, pass_or_fail, pass_or_warn,
    print_doctor_checks, print_doctor_json, print_doctor_text, profiles_check, region_check,
    shell_hook_check, state_check, CheckLevel, DoctorCheck,
};
use awswap::failure::{aws_command_error, classify_aws_error};
use awswap::identity::{parse_identity, state_identity, Identity};
use awswap::paths::state_dir_from;
use awswap::platform::Platform;
use awswap::registry::{parse_registry, registry_for_account, RegistryClient};
use awswap::report::{
    build_status_report, client_names_label, current_profile, exit_code, print_activation,
    print_ecr_warning, print_login, print_profiles, print_status, Exit,
};
use awswap::settings::{
    configured_ecr_registries, env_flag, should_authenticate_ecr, should_print_shell_tip, Environment,
    Line, Options,
};
use awswap::shell::{
    print_completions, print_shell_hook, print_shell_tip, shell_hook_label, shell_name,
    shell_setup_command, shell_setup_hint, Shell,
};
use awswap::state::State;
use awswap::style::{paint, paint_strong, Style};

fn output(success: bool, stdout: &str, stderr: &str) -> CommandOutput {
    CommandOutput {
        success,
        status: if success { "exit status: 0" } else { "exit status: 1" }.into(),
        stdout: stdout.as_bytes().to_vec(),
        stderr: stderr.as_bytes().to_vec(),
    }
}

fn caller() -> Identity {
    Identity {
        account: "123456789012".into(),
        arn: "arn:aws:sts::123456789012:assumed-role/Developer/drew".into(),
        user_id: "ARO:test".into(),
    }
}

fn out(text: &str) -> Line {
    Line::Out(text.into())
}

fn note(text: &str) -> Line {
    Line::Note(text.into())
}

#[test]
fn parses_identity_receipt() {
    let identity = parse_identity(
        br#"{"UserId":"ARO:test","Account":"123456789012","Arn":"arn:aws:sts::123456789012:assumed-role/Developer/drew"}"#,
    )
    .unwrap();
    assert_eq!(identity.account, "123456789012");
    assert_eq!(identity.display_name(), "Developer/drew");
}

#[test]
fn an_identity_is_read_as_far_as_it_is_stated() {
    assert_eq!(parse_identity(b"[]"), Ok(Identity::default()));
    assert_eq!(
        parse_identity(br#"{"Account": 7, "UserId": "u"}"#),
        Ok(state_identity(None, None, Some("u")))
    );
    assert_eq!(
        parse_identity(b"{"),
        Err(
            "AWS returned invalid identity JSON: EOF while parsing an object at line 1 column 1"
                .into()
        )
    );
    for (arn, name) in [
        ("arn:aws:iam::1:user/team/jo", "jo"),
        ("arn:aws:iam::1:root", "arn:aws:iam::1:root"),
        ("x:assumed-role/a:assumed-role/b", "a:assumed-role/b"),
        ("", ""),
    ] {
        let identity = state_identity(None, Some(arn), None);
        assert_eq!(identity.display_name(), name);
    }
}

#[test]
fn classifies_common_aws_failures() {
    assert!(
        classify_aws_error("check failed", "dev", "ExpiredToken: token has expired")
            .unwrap()
            .contains("awswap login dev")
    );
    assert!(
        classify_aws_error("check failed", "prod", "AccessDenied: not authorized")
            .unwrap()
            .contains("IAM permissions")
    );
    assert!(
        classify_aws_error("check failed", "dev", "Could not connect to endpoint URL")
            .unwrap()
            .contains("check the network")
    );
}

#[test]
fn each_kind_of_failure_has_its_message() {
    for (detail, message) in [
        (
            "The SSO session has Expired",
            "c: credentials for 'p' expired; run `awswap login p`",
        ),
        (
            "InvalidClientTokenId",
            "c: credentials for 'p' are unavailable; run `awswap login p`",
        ),
        (
            "Access Denied and timed out",
            "c: access denied for 'p'; verify its IAM permissions",
        ),
        (
            "Temporary failure in name resolution",
            "c: could not reach AWS; check the network, proxy, and configured region",
        ),
        (
            "You must specify a region",
            "c: profile 'p' has no valid region; configure one with `aws configure set region <region> --profile p`",
        ),
        (
            "The config profile (p) could not be found",
            "c: profile 'p' is missing from the AWS configuration",
        ),
    ] {
        assert_eq!(classify_aws_error("c", "p", detail).as_deref(), Some(message));
        assert_eq!(
            aws_command_error("c", "p", &output(false, "", detail), true),
            format!("{message}\nAWS CLI: {detail}")
        );
    }
    assert_eq!(
        aws_command_error("c", "p", &output(false, "odd\n", " \n"), true),
        "c: odd"
    );
}

#[test]
fn covers_pure_output_and_error_helpers() {
    assert!(exit_code(&Ok(()), true).success);
    assert!(exit_code(&Err(String::new()), true).success);
    assert!(!exit_code(&Err("failed".into()), true).success);

    assert_eq!(RegistryClient::Docker.command(), "docker");
    assert_eq!(RegistryClient::Helm.command(), "helm");
    assert_eq!(RegistryClient::Docker.label(), "Docker");
    assert_eq!(RegistryClient::Helm.label(), "Helm");

    let configs = [
        (
            ProfileConfig {
                is_sso: true,
                ..ProfileConfig::default()
            },
            "SSO",
        ),
        (
            ProfileConfig {
                is_login: true,
                ..ProfileConfig::default()
            },
            "login",
        ),
        (
            ProfileConfig {
                role_name: Some("Admin".into()),
                ..ProfileConfig::default()
            },
            "role",
        ),
        (ProfileConfig::default(), "credentials"),
    ];
    for (config, expected) in configs {
        assert_eq!(config.auth_label(), expected);
    }

    let options = Options {
        verbose: true,
        ..Options::default()
    };
    let environment = Environment::default();
    assert_eq!(options.progress("working", &environment), [note("… working")]);
    assert_eq!(
        options.trace("aws", &["--version"], &environment),
        [note("+ aws --version")]
    );

    for shell in [Shell::Bash, Shell::Zsh, Shell::Fish] {
        assert!(!print_completions(shell).is_empty());
        assert!(!print_shell_hook(shell).is_empty());
    }
    assert_eq!(shell_setup_command("fish"), "awswap init fish | source");
    assert!(shell_setup_command("zsh").contains("eval"));
    assert_eq!(shell_hook_label(true), "active");
    assert_eq!(shell_hook_label(false), "not installed");
    assert_eq!(client_names_label(&[]), "none");
    assert_eq!(client_names_label(&["Docker", "Helm"]), "Docker, Helm");

    assert_eq!(selection_error(&SelectionFailure::Canceled), "");
    assert_eq!(selection_error(&SelectionFailure::Interrupted), "");
    assert!(
        selection_error(&SelectionFailure::Other("not a terminal".into()))
            .contains("could not read")
    );

    assert!(parse_registry(" ").is_err());
    assert_eq!(parse_registry(" host ").unwrap(), "host");
    assert!(parse_identity(b"not json").is_err());
    assert_eq!(parse_section(" [profile dev] "), Some("profile dev"));
    assert_eq!(parse_section("profile dev"), None);
    assert!(ensure_profile_exists("dev", &["dev".into()]).is_ok());
    assert!(
        ensure_profile_exists("de", &["dev".into()])
            .unwrap_err()
            .contains("did you mean")
    );
    assert!(ensure_profile_exists("other", &["dev".into()]).is_err());

    for (detail, expected) in [
        ("Unable to locate credentials", "unavailable"),
        ("Invalid region", "no valid region"),
        ("Config profile could not be found", "missing"),
    ] {
        assert!(
            classify_aws_error("check", "dev", detail)
                .unwrap()
                .contains(expected)
        );
    }
    assert_eq!(classify_aws_error("check", "dev", "other"), None);

    assert_eq!(
        state_dir_from(Platform::Unix, Some("/state".into()), None, None).unwrap(),
        b"/state"
    );
    assert_eq!(
        state_dir_from(Platform::Unix, None, Some("/xdg".into()), None).unwrap(),
        b"/xdg/awswap"
    );
    assert_eq!(
        state_dir_from(Platform::Unix, None, None, Some("/home".into())).unwrap(),
        b"/home/.local/state/awswap"
    );
    assert!(state_dir_from(Platform::Unix, None, None, None).is_err());

    assert!(registry_for_account("", "us-east-1").is_err());
    assert!(registry_for_account("None", "us-east-1").is_err());
    assert_eq!(
        registry_for_account("123", "us-east-1").unwrap(),
        ["123.dkr.ecr.us-east-1.amazonaws.com"]
    );

    for result in [
        Ok(Some("ecr-login".into())),
        Ok(None),
        Err("bad config".into()),
    ] {
        let check = docker_helper_result("registry.example.com", result);
        assert_eq!(check.name, "Docker helper");
    }
}

#[test]
fn covers_report_rendering_helpers() {
    let choices = [
        ProfileChoice {
            name: "current".into(),
            marker: "● ",
            region: "us-east-1".into(),
            auth: "SSO",
            account: "1".into(),
        },
        ProfileChoice {
            name: "previous".into(),
            marker: "↩ ",
            region: "us-west-2".into(),
            auth: "role",
            account: "2".into(),
        },
        ProfileChoice {
            name: "other".into(),
            marker: "  ",
            region: "—".into(),
            auth: "credentials",
            account: String::new(),
        },
    ];
    for choice in &choices {
        assert!(print_profile_choice(choice, false).contains(&choice.name));
    }

    let checks = [
        DoctorCheck {
            level: CheckLevel::Pass,
            name: "pass".into(),
            detail: "ok".into(),
        },
        DoctorCheck {
            level: CheckLevel::Warn,
            name: "warn".into(),
            detail: "check".into(),
        },
        DoctorCheck {
            level: CheckLevel::Fail,
            name: "fail".into(),
            detail: "bad".into(),
        },
    ];
    assert_eq!(
        print_doctor_text(&checks, false),
        [
            out("✓ pass             ok"),
            out("! warn             check"),
            out("✗ fail             bad"),
        ]
    );
    assert_eq!(check_level_name(CheckLevel::Pass), "pass");
    assert_eq!(check_level_name(CheckLevel::Warn), "warn");
    assert_eq!(check_level_name(CheckLevel::Fail), "fail");
    assert!(doctor_result(&checks).is_err());

    assert_eq!(pass_or_warn(true), CheckLevel::Pass);
    assert_eq!(pass_or_warn(false), CheckLevel::Warn);
    assert_eq!(pass_or_fail(true), CheckLevel::Pass);
    assert_eq!(pass_or_fail(false), CheckLevel::Fail);
    assert_eq!(
        ecr_clients_detail(false, false),
        "Docker and Helm not found; ECR login is optional"
    );
    assert_eq!(ecr_clients_detail(false, true), "Helm");
    assert_eq!(ecr_clients_detail(true, false), "Docker");
    assert_eq!(ecr_clients_detail(true, true), "Docker, Helm");
    assert!(environment_detail(&[]).contains("no static"));
    assert!(environment_detail(&["AWS_ACCESS_KEY_ID"]).contains("override profiles"));
}

#[test]
fn each_style_has_its_control_sequences() {
    for (style, shown) in [
        (Style::Bold, "\u{1b}[1mx\u{1b}[0m"),
        (Style::Dim, "\u{1b}[2mx\u{1b}[0m"),
        (Style::Red, "\u{1b}[31mx\u{1b}[39m"),
        (Style::Green, "\u{1b}[32mx\u{1b}[39m"),
        (Style::Yellow, "\u{1b}[33mx\u{1b}[39m"),
        (Style::Cyan, "\u{1b}[36mx\u{1b}[39m"),
    ] {
        assert_eq!(paint(style, "x", true), shown);
        assert_eq!(paint(style, "x", false), "x");
        assert_eq!(paint_strong(style, "x", false), "x");
    }
    assert_eq!(
        paint_strong(Style::Red, "x", true),
        "\u{1b}[1m\u{1b}[31mx\u{1b}[39m\u{1b}[0m"
    );
}

#[test]
fn an_error_is_told_unless_it_has_no_message() {
    assert_eq!(
        exit_code(&Err("failed".into()), false),
        Exit {
            success: false,
            message: Some("error: failed".into()),
        }
    );
    assert_eq!(
        exit_code(&Err("failed".into()), true).message.as_deref(),
        Some("\u{1b}[1m\u{1b}[31merror:\u{1b}[39m\u{1b}[0m failed")
    );
    assert_eq!(
        exit_code(&Err(String::new()), false),
        Exit {
            success: true,
            message: None,
        }
    );
}

#[test]
fn a_failed_command_is_told_by_what_it_printed() {
    assert_eq!(output_detail(&output(false, "out", " a\nb \n")), "a b");
    assert_eq!(output_detail(&output(false, " out\n", "\n ")), "out");
    assert_eq!(command_error("c", &output(false, "", "")), "c (exit status: 1)");
    assert_eq!(command_error("c", &output(false, "", "why")), "c: why");
    assert_eq!(
        output_detail(&CommandOutput {
            stderr: b"a\xffb".to_vec(),
            ..output(false, "", "")
        }),
        "a\u{fffd}b"
    );
    assert_eq!(
        run_error("docker", "credentials", &RunFailure::Start("x".into())),
        "could not start docker: x"
    );
    assert_eq!(
        run_error("docker", "credentials", &RunFailure::Send("x".into())),
        "could not send credentials to docker: x"
    );
    assert_eq!(require_command("aws", true), Ok(()));
    assert_eq!(
        require_command("missing", false),
        Err("'missing' was not found in PATH".into())
    );
}

#[test]
fn calls_of_aws_name_the_profile_and_drop_static_credentials() {
    let statics = ["AWS_ACCESS_KEY_ID", "AWS_SECRET_ACCESS_KEY", "AWS_SESSION_TOKEN"];
    let call = aws("dev", &["sts", "get-caller-identity"]);
    assert_eq!(call.program, "aws");
    assert_eq!(call.args, ["sts", "get-caller-identity", "--profile", "dev"]);
    assert_eq!(call.set, [("AWS_PAGER".to_string(), String::new())]);
    assert_eq!(call.unset, statics);
    assert_eq!(call.capture, Capture::Everything);
    let call = sign_in("dev", &["login"]);
    assert_eq!(call.args, ["login", "--profile", "dev"]);
    assert!(call.set.is_empty());
    assert_eq!(call.unset, statics);
    assert_eq!(call.capture, Capture::Nothing);
    let call = plain("aws", &["--version"]);
    assert_eq!(call.args, ["--version"]);
    assert!(call.unset.is_empty());
    assert_eq!(call.input, None);
}

#[test]
fn credentials_are_renewed_where_that_may_help() {
    let expired = validate_credentials("dev", false, &Ok(output(false, "", "ExpiredToken")));
    assert_eq!(
        expired,
        Err(
            "AWS credential check failed: credentials for 'dev' expired; run `awswap login dev`"
                .into()
        )
    );
    assert!(matches!(ensure_credentials(expired), CredentialCheck::Renew(_)));
    let unavailable =
        validate_credentials("dev", true, &Ok(output(false, "Unable to locate credentials", "")));
    assert!(matches!(ensure_credentials(unavailable), CredentialCheck::Renew(_)));
    let denied = validate_credentials("dev", false, &Ok(output(false, "", "AccessDenied")));
    assert!(matches!(ensure_credentials(denied), CredentialCheck::Over(_)));
    let valid = validate_credentials("dev", false, &Ok(output(true, r#"{"Account":"1"}"#, "")));
    assert!(matches!(
        ensure_credentials(valid),
        CredentialCheck::Valid(identity) if identity.account == "1"
    ));
    assert_eq!(
        validate_credentials("dev", false, &Err(RunFailure::Start("none".into()))),
        Err("could not run AWS CLI: none".into())
    );
    assert!(matches!(
        refresh_expired_credentials("other error".into()),
        CredentialCheck::Over(error) if error == "other error"
    ));
    assert!(matches!(
        refresh_expired_credentials("run `awswap login dev`".into()),
        CredentialCheck::Renew(error) if error == "run `awswap login dev`"
    ));
}

#[test]
fn a_profile_signs_in_as_it_is_configured() {
    let sso = ProfileConfig {
        is_sso: true,
        is_login: true,
        ..ProfileConfig::default()
    };
    let login = ProfileConfig {
        is_login: true,
        ..ProfileConfig::default()
    };
    assert_eq!(credential_login_args("p", &sso).unwrap(), ["sso", "login"]);
    assert_eq!(credential_login_args("p", &login).unwrap(), ["login"]);
    assert_eq!(
        credential_login_args("p", &ProfileConfig::default()),
        Err(
            "profile 'p' is not configured for SSO or `aws login`; refresh its credentials manually"
                .into()
        )
    );
    assert_eq!(
        refresh_credentials("p", &FileRead::Failed("x".into())),
        Err("could not read AWS config: x".into())
    );
    assert_eq!(
        refresh_credentials(
            "p",
            &FileRead::Contents("[profile p]\nlogin_session=s\n".into())
        )
        .unwrap(),
        ["login"]
    );
    assert_eq!(run_aws_login(&Ok(output(true, "", ""))), Ok(()));
    assert_eq!(
        run_aws_login(&Ok(output(false, "", "ignored"))),
        Err("AWS login failed with exit status: 1".into())
    );
    assert_eq!(
        run_aws_login(&Err(RunFailure::Start("x".into()))),
        Err("could not start AWS login: x".into())
    );
    assert_eq!(
        sign_in_error(&Some("first".into()), "second".into()),
        "credentials are unavailable (first); second"
    );
    assert_eq!(sign_in_error(&None, "second".into()), "second");
}

#[test]
fn notices_are_for_users_who_want_them() {
    let environment = Environment::default();
    let plain = Options::default();
    assert_eq!(
        print_refresh_notice("dev", &plain, &environment),
        [note("auth: credentials for dev need refreshing")]
    );
    assert_eq!(
        print_login_notice("dev", &plain, &environment),
        [note("auth: opening AWS sign-in for dev…")]
    );
    let quiet = Options {
        quiet: true,
        ..Options::default()
    };
    let json = Options {
        json: true,
        ..Options::default()
    };
    let terminal = Environment {
        error_terminal: true,
        ..Environment::default()
    };
    for options in [&quiet, &json] {
        assert!(print_refresh_notice("dev", options, &environment).is_empty());
        assert!(print_login_notice("dev", options, &environment).is_empty());
        assert!(options.progress("x", &terminal).is_empty());
        assert!(options.trace("aws", &["x"], &terminal).is_empty());
    }
    assert!(plain.progress("x", &environment).is_empty());
    let colored = Environment {
        color: true,
        ..terminal
    };
    assert_eq!(
        plain.progress("x", &colored),
        [note("\u{1b}[1m\u{1b}[36m…\u{1b}[39m\u{1b}[0m x")]
    );
    let verbose = Options {
        verbose: true,
        ..Options::default()
    };
    assert_eq!(
        verbose.trace("aws", &["a", "b"], &colored),
        [note("\u{1b}[2m+\u{1b}[0m aws \u{1b}[2ma b\u{1b}[0m")]
    );
}

#[test]
fn a_variable_is_on_unless_it_says_otherwise() {
    for value in ["", " ", "0", "False", " NO ", "no"] {
        assert!(!env_flag(&Some(value.into())), "{value}");
    }
    for value in ["1", "yes", "true", "off"] {
        assert!(env_flag(&Some(value.into())), "{value}");
    }
    assert!(!env_flag(&None));
    let off = Environment {
        no_ecr: Some("1".into()),
        ..Environment::default()
    };
    let options = Options::default();
    let no_ecr = Options {
        no_ecr: true,
        ..Options::default()
    };
    assert!(should_authenticate_ecr(true, &options, &Environment::default()));
    assert!(!should_authenticate_ecr(false, &options, &Environment::default()));
    assert!(!should_authenticate_ecr(true, &no_ecr, &Environment::default()));
    assert!(!should_authenticate_ecr(true, &options, &off));
    assert!(configured_ecr_registries(&options, &off).is_empty());
}

#[test]
fn the_hook_is_advised_on_a_terminal_without_it() {
    let terminal = Environment {
        output_terminal: true,
        shell: Some("/usr/bin/fish".into()),
        ..Environment::default()
    };
    let options = Options::default();
    assert!(should_print_shell_tip(&options, &terminal));
    assert_eq!(
        print_shell_tip(&options, &terminal),
        [note(
            "tip: shell unchanged; run awswap init fish | source once to activate future selections"
        )]
    );
    let hooked = Environment {
        shell_hook: true,
        ..terminal.clone()
    };
    let json = Options {
        json: true,
        ..Options::default()
    };
    assert!(print_shell_tip(&options, &hooked).is_empty());
    assert!(print_shell_tip(&options, &Environment::default()).is_empty());
    assert!(print_shell_tip(&json, &terminal).is_empty());
    assert_eq!(shell_setup_hint(Platform::Unix, &Some("bash".into())), "eval \"$(awswap init bash)\"");
    assert_eq!(shell_setup_hint(Platform::Unix, &Some("tcsh".into())), "eval \"$(awswap init zsh)\"");
    assert_eq!(
        shell_setup_hint(Platform::Unix, &Some("/bin/bash/".into())),
        "eval \"$(awswap init bash)\""
    );
    assert_eq!(
        shell_setup_hint(Platform::Windows, &Some("C:\\bin\\fish".into())),
        "awswap init fish | source"
    );
    assert_eq!(
        shell_name(Platform::Unix, &Some("/bin/zsh".into())),
        Some("zsh".into())
    );
    assert_eq!(shell_name(Platform::Unix, &Some("/bin/..".into())), None);
    assert_eq!(shell_setup_hint(Platform::Unix, &None), "eval \"$(awswap init zsh)\"");
}

#[test]
fn hooks_take_the_profile_over_and_clear_static_credentials() {
    assert_eq!(print_shell_hook(Shell::Bash), print_shell_hook(Shell::Zsh));
    let posix = print_shell_hook(Shell::Zsh);
    assert!(posix.starts_with("awswap() {\n  command awswap \"$@\"\n"));
    assert!(posix.contains("case \"${1-}\" in"));
    assert!(posix.contains("export AWS_PROFILE=\"$awswap_profile\""));
    assert!(posix.contains("export AWSWAP_SHELL_HOOK=1\n"));
    assert!(posix.ends_with("\nfi\n"));
    let fish = print_shell_hook(Shell::Fish);
    assert!(fish.starts_with("function awswap\n"));
    assert!(fish.contains("set -gx AWSWAP_SHELL_HOOK 1\n"));
    assert!(fish.ends_with("\nend\n"));
    for hook in [posix, fish] {
        assert!(hook.contains(
            "AWS_ACCESS_KEY_ID AWS_SECRET_ACCESS_KEY AWS_SESSION_TOKEN AWS_SECURITY_TOKEN"
        ));
    }
    assert!(print_completions(Shell::Bash).ends_with("complete -F _awswap awswap\n"));
    assert!(print_completions(Shell::Zsh).starts_with("#compdef awswap\n"));
    assert!(print_completions(Shell::Fish).starts_with("complete -c awswap -f\n"));
}

#[test]
fn a_switch_is_receipted() {
    let config = ProfileConfig {
        region: Some("us-east-1".into()),
        ..ProfileConfig::default()
    };
    let environment = Environment::default();
    let hooked = Environment {
        shell_hook: true,
        color: true,
        ..Environment::default()
    };
    let json = Options {
        json: true,
        quiet: true,
        ..Options::default()
    };
    let quiet = Options {
        quiet: true,
        ..Options::default()
    };
    assert_eq!(
        print_activation("dev", &caller(), &config, &Options::default(), &environment),
        [out("✓ Selected dev  123456789012  us-east-1  Developer/drew")]
    );
    assert_eq!(
        print_activation(
            "dev",
            &caller(),
            &ProfileConfig::default(),
            &Options::default(),
            &hooked
        ),
        [out(
            "\u{1b}[1m\u{1b}[32m✓\u{1b}[39m\u{1b}[0m \u{1b}[2mActive\u{1b}[0m \u{1b}[1m\u{1b}[32mdev\u{1b}[39m\u{1b}[0m  \u{1b}[2m123456789012\u{1b}[0m  \u{1b}[2mno-region\u{1b}[0m  \u{1b}[2mDeveloper/drew\u{1b}[0m"
        )]
    );
    assert_eq!(
        print_activation("dev", &caller(), &config, &json, &hooked),
        [out(
            r#"{"account":"123456789012","identity":"arn:aws:sts::123456789012:assumed-role/Developer/drew","profile":"dev","region":"us-east-1","shell_active":true}"#
        )]
    );
    assert_eq!(
        print_activation("d\"v", &Identity::default(), &ProfileConfig::default(), &json, &environment),
        [out(
            r#"{"account":"","identity":"","profile":"d\"v","region":null,"shell_active":false}"#
        )]
    );
    assert!(print_activation("dev", &caller(), &config, &quiet, &environment).is_empty());
    assert_eq!(
        print_ecr_warning("no docker", &environment),
        [
            note("warning: no docker"),
            note("AWS profile is selected; retry with `awswap login`."),
        ]
    );
}

#[test]
fn a_login_is_receipted() {
    let environment = Environment::default();
    let json = Options {
        json: true,
        ..Options::default()
    };
    let quiet = Options {
        quiet: true,
        ..Options::default()
    };
    assert_eq!(
        print_login("dev", &caller(), &Options::default(), &environment),
        [out("✓ Authenticated dev")]
    );
    assert_eq!(
        print_login("dev", &caller(), &json, &environment),
        [out(
            r#"{"account":"123456789012","authenticated":true,"profile":"dev"}"#
        )]
    );
    assert!(print_login("dev", &caller(), &quiet, &environment).is_empty());
}

#[test]
fn a_list_is_printed_for_its_reader() {
    let ordered: Vec<String> = vec!["dev".into(), "prod".into()];
    let state = State {
        current: Some("dev".into()),
        previous: Some("prod".into()),
        recent: Vec::new(),
    };
    let read = FileRead::Contents("[profile dev]\nregion=r\nsso_session=s\n".into());
    let failed = FileRead::Failed("denied".into());
    let environment = Environment::default();
    let terminal = Environment {
        output_terminal: true,
        ..Environment::default()
    };
    let json = Options {
        json: true,
        ..Options::default()
    };
    let plain = Options::default();
    assert_eq!(
        print_profiles(&ordered, &state, Some("dev"), &plain, &environment, &failed),
        Ok(vec![out("dev"), out("prod")])
    );
    assert_eq!(
        print_profiles(&ordered, &state, Some("dev"), &plain, &terminal, &failed),
        Err("could not read AWS config: denied".into())
    );
    assert_eq!(
        print_profiles(&ordered, &state, Some("dev"), &plain, &terminal, &read),
        Ok(vec![
            out(&format!("● {:<24} {:<15} {:<11} ", "dev", "r", "SSO")),
            out(&format!("↩ {:<24} {:<15} {:<11} ", "prod", "—", "credentials")),
        ])
    );
    assert_eq!(
        print_profiles(&ordered, &state, Some("dev"), &json, &terminal, &read),
        Ok(vec![out(
            r#"[{"auth":"SSO","current":true,"name":"dev","previous":false,"region":"r"},{"auth":"credentials","current":false,"name":"prod","previous":true,"region":null}]"#
        )])
    );
    assert_eq!(
        print_profiles(&ordered[..1], &state, None, &json, &terminal, &failed),
        Ok(vec![out(
            r#"[{"auth":"credentials","current":false,"name":"dev","previous":false,"region":null}]"#
        )])
    );
}

#[test]
fn the_current_profile_is_printed() {
    let state = State {
        current: Some("dev".into()),
        ..State::default()
    };
    let json = Options {
        json: true,
        ..Options::default()
    };
    let environment = Environment::default();
    assert_eq!(
        current_profile(&state, &Options::default(), &environment),
        Ok(vec![out("dev")])
    );
    assert_eq!(
        current_profile(&state, &json, &environment),
        Ok(vec![out(r#"{"profile":"dev"}"#)])
    );
    assert_eq!(
        current_profile(&State::default(), &json, &environment),
        Err("no active AWS profile".into())
    );
}

#[test]
fn a_status_is_reported() {
    let environment = Environment {
        docker: true,
        helm: true,
        ..Environment::default()
    };
    let config = ProfileConfig {
        region: Some("us-east-1".into()),
        ..ProfileConfig::default()
    };
    let report = build_status_report("dev".into(), config, caller(), &environment);
    let json = Options {
        json: true,
        ..Options::default()
    };
    let quiet = Options {
        quiet: true,
        ..Options::default()
    };
    assert_eq!(
        print_status(&report, &Options::default(), false),
        [
            out("Profile        dev"),
            out("Region         us-east-1"),
            out("Account        123456789012"),
            out("Identity       Developer/drew"),
            out("Credentials    valid"),
            out("Shell hook     not installed"),
            out("ECR clients    Docker, Helm"),
        ]
    );
    assert_eq!(
        print_status(&report, &Options::default(), true)[4],
        out("Credentials    \u{1b}[32mvalid\u{1b}[39m")
    );
    assert_eq!(
        print_status(&report, &json, true),
        [out(
            r#"{"account":"123456789012","arn":"arn:aws:sts::123456789012:assumed-role/Developer/drew","credentials":"valid","ecr_clients":["Docker","Helm"],"identity":"Developer/drew","profile":"dev","region":"us-east-1","shell_hook":false}"#
        )]
    );
    assert!(print_status(&report, &quiet, true).is_empty());
}

#[test]
fn each_check_finds_what_there_is() {
    let passed = |level: CheckLevel| level == CheckLevel::Pass;
    let check = aws_cli_check(true, None);
    assert!(passed(check.level));
    assert_eq!(check.detail, "installed");
    assert_eq!(
        aws_cli_check(true, aws_cli_version(Some(&output(true, "aws-cli/2\n", "")))).detail,
        "aws-cli/2"
    );
    assert_eq!(aws_cli_version(Some(&output(true, "", ""))), None);
    assert_eq!(aws_cli_version(None), None);
    let check = aws_cli_check(false, None);
    assert_eq!(check.level, CheckLevel::Fail);
    assert_eq!(check.detail, "not found in PATH");
    assert_eq!(aws_config_check(b"/c", false).level, CheckLevel::Warn);
    assert_eq!(aws_config_check(b"/c", true).detail, "/c");
    assert_eq!(profiles_check(&[]).level, CheckLevel::Fail);
    let twelve: Vec<String> = (0..12).map(|index| index.to_string()).collect();
    assert_eq!(profiles_check(&twelve).detail, "12 discovered");
    assert_eq!(active_profile_check(None).detail, "none selected");
    assert_eq!(active_profile_check(None).level, CheckLevel::Fail);
    assert_eq!(active_profile_check(Some("dev")).detail, "dev");
    assert_eq!(region_check(&ProfileConfig::default()).level, CheckLevel::Warn);
    assert_eq!(
        region_check(&ProfileConfig::default()).detail,
        "not configured; ECR login will be skipped"
    );
    let hook = shell_hook_check(false, Platform::Unix, &Some("bash".into()));
    assert_eq!(hook.level, CheckLevel::Warn);
    assert_eq!(hook.detail, "not active; run eval \"$(awswap init bash)\"");
    assert_eq!(shell_hook_check(true, Platform::Unix, &None).detail, "active");
    assert_eq!(state_check(b"/s").detail, "/s");
    assert_eq!(ecr_clients_check(false, false).level, CheckLevel::Warn);
    assert_eq!(ecr_clients_check(false, true).detail, "Helm");
    let (check, identity) = credentials_check(Ok(caller()));
    assert_eq!(check.detail, "123456789012 · Developer/drew");
    assert_eq!(identity, Some(caller()));
    let (check, identity) = credentials_check(Err("bad".into()));
    assert_eq!(check.level, CheckLevel::Fail);
    assert_eq!(check.detail, "bad");
    assert_eq!(identity, None);
    assert_eq!(
        docker_helper_result("host", Ok(Some("h".into()))).detail,
        "h for host"
    );
    assert_eq!(
        docker_helper_result("host", Ok(None)).detail,
        "not configured; awswap will use docker login"
    );
    assert_eq!(
        docker_helper_result("host", Err("bad".into())).level,
        CheckLevel::Warn
    );
    let environment = Environment {
        access_key_id: true,
        security_token: true,
        ..Environment::default()
    };
    let check = environment_check(&environment);
    assert_eq!(check.level, CheckLevel::Warn);
    assert_eq!(
        check.detail,
        "AWS_ACCESS_KEY_ID, AWS_SECURITY_TOKEN override profiles; the shell hook clears them"
    );
    assert_eq!(
        environment_check(&Environment::default()).detail,
        "no static credential overrides"
    );
}

#[test]
fn a_diagnosis_fails_by_its_failures_alone() {
    let check = |level: CheckLevel| DoctorCheck {
        level,
        name: "n".into(),
        detail: "d".into(),
    };
    let warned = [check(CheckLevel::Pass), check(CheckLevel::Warn)];
    assert_eq!(doctor_result(&warned), Ok(()));
    let failed = [check(CheckLevel::Fail), check(CheckLevel::Warn), check(CheckLevel::Fail)];
    assert_eq!(
        doctor_result(&failed),
        Err("doctor found 2 blocking problem(s)".into())
    );
    assert_eq!(
        print_doctor_json(&failed[..2]),
        r#"[{"detail":"d","name":"n","status":"fail"},{"detail":"d","name":"n","status":"warn"}]"#
    );
    let quiet = Options {
        quiet: true,
        ..Options::default()
    };
    assert!(print_doctor_checks(&failed, &quiet, false).is_empty());
    assert_eq!(check_level_symbol(CheckLevel::Pass, true), "\u{1b}[32m✓\u{1b}[39m");
    assert_eq!(check_level_symbol(CheckLevel::Warn, true), "\u{1b}[33m!\u{1b}[39m");
    assert_eq!(check_level_symbol(CheckLevel::Fail, true), "\u{1b}[31m✗\u{1b}[39m");
}
