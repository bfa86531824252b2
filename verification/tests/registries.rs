use awswap::command::{CommandOutput, FileRead, RunFailure};
use awswap::command::Capture;
use awswap::config::ProfileConfig;
use awswap::registry::{
    account_registry_from_output, choose_helper, clear_helm_registry_credential, credential_helper,
    discover_account_registry, ecr_dns_suffix, ecr_password, ecr_registries, ecr_registry,
    finish_credential_helper, finish_registry_logins, finish_second_login, installed_registry_clients,
    is_duplicate_keychain_item, normalize_registries, normalize_registry, normalize_registry_item,
    parse_credential_helper, parse_registry, password_registry_login, print_registry_login,
    registry_for_account, registry_login_detail, retry_helm_login, run_password_registry_login,
    uses_ecr_credential_helper, validate_ecr_credential_helper, Login, RegistryClient,
    RegistryLoginMethod,
};
use awswap::settings::{Environment, Options};

fn output(success: bool, stdout: &str, stderr: &str) -> CommandOutput {
    CommandOutput {
        success,
        status: if success { "exit status: 0" } else { "exit status: 1" }.into(),
        stdout: stdout.as_bytes().to_vec(),
        stderr: stderr.as_bytes().to_vec(),
    }
}

#[test]
fn builds_ecr_registries_for_all_aws_partitions() {
    let account = "123456789012";
    let cases = [
        ("us-east-1", "amazonaws.com"),
        ("cn-north-1", "amazonaws.com.cn"),
        ("us-gov-west-1", "amazonaws.com"),
        ("us-iso-east-1", "c2s.ic.gov"),
        ("us-isob-east-1", "sc2s.sgov.gov"),
        ("eu-isoe-west-1", "cloud.adc-e.uk"),
        ("us-isof-south-1", "csp.hci.ic.gov"),
        ("eusc-de-east-1", "amazonaws.eu"),
    ];

    for (region, suffix) in cases {
        assert_eq!(
            ecr_registry(account, region),
            format!("{account}.dkr.ecr.{region}.{suffix}")
        );
        assert_eq!(ecr_dns_suffix(region), suffix);
    }
}

#[test]
fn normalizes_registry_urls() {
    assert_eq!(
        normalize_registry("https://123.dkr.ecr.us-east-1.amazonaws.com/repo/"),
        "123.dkr.ecr.us-east-1.amazonaws.com"
    );
    assert_eq!(
        normalize_registry("registry.example.com"),
        "registry.example.com"
    );
}

#[test]
fn a_normalized_registry_is_a_bare_host() {
    for (value, host) in [
        (" http://host/a/b// ", "host"),
        ("host/", "host"),
        ("https://", "https:"),
        ("https:///x", ""),
        ("ftp://host", "ftp:"),
        ("", ""),
    ] {
        assert_eq!(normalize_registry(value), host);
        assert!(!normalize_registry(value).contains('/'));
    }
}

#[test]
fn accounts_and_hosts_are_told_apart() {
    assert_eq!(
        normalize_registry_item("123", "cn-north-1"),
        "123.dkr.ecr.cn-north-1.amazonaws.com.cn"
    );
    assert_eq!(normalize_registry_item("123a", "cn-north-1"), "123a");
    assert_eq!(
        normalize_registries(
            vec!["host/b".into(), "1".into(), "host/a".into()],
            "us-east-1"
        ),
        ["1.dkr.ecr.us-east-1.amazonaws.com", "host"]
    );
}

#[test]
fn registries_are_named_by_options_before_the_environment() {
    let config = ProfileConfig {
        region: Some("us-east-1".into()),
        ..ProfileConfig::default()
    };
    let environment = Environment {
        ecr_registries: Some(" 9 , , host.example.com ".into()),
        ..Environment::default()
    };
    let options = Options {
        registries: vec!["123".into(), "https://registry.example.com/repo".into()],
        ..Options::default()
    };
    assert_eq!(
        ecr_registries(&config, &options, &environment).unwrap(),
        [
            "123.dkr.ecr.us-east-1.amazonaws.com",
            "registry.example.com"
        ]
    );
    assert_eq!(
        ecr_registries(&config, &Options::default(), &environment).unwrap(),
        ["9.dkr.ecr.us-east-1.amazonaws.com", "host.example.com"]
    );
    assert_eq!(
        ecr_registries(&config, &Options::default(), &Environment::default()),
        None
    );
    assert_eq!(
        ecr_registries(&ProfileConfig::default(), &options, &environment),
        Some(Vec::new())
    );
}

#[test]
fn selects_host_specific_or_global_docker_helper() {
    let config = r#"{
            "credsStore": "osxkeychain",
            "credHelpers": {
                "123.dkr.ecr.us-east-1.amazonaws.com": "ecr-login"
            }
        }"#;
    assert_eq!(
        parse_credential_helper(config, "123.dkr.ecr.us-east-1.amazonaws.com").unwrap(),
        Some("ecr-login".into())
    );
    assert_eq!(
        parse_credential_helper(config, "registry.example.com").unwrap(),
        Some("osxkeychain".into())
    );
}

#[test]
fn rejects_invalid_docker_config() {
    assert!(parse_credential_helper("not json", "registry.example.com").is_err());
}

#[test]
fn odd_docker_configurations_name_no_helper() {
    for config in [
        "{}",
        "[]",
        "7",
        r#"{"credHelpers": {"host": 7}}"#,
        r#"{"credHelpers": {"host": ""}, "credsStore": "store"}"#,
        r#"{"credHelpers": ["host"], "credsStore": ""}"#,
        r#"{"credsStore": {"host": "x"}}"#,
    ] {
        assert_eq!(parse_credential_helper(config, "host"), Ok(None), "{config}");
    }
    assert_eq!(
        parse_credential_helper(r#"{"credHelpers": {"host": 7}, "credsStore": "s"}"#, "host"),
        Ok(Some("s".into()))
    );
    assert_eq!(choose_helper(Some(""), Some("global")), None);
    assert_eq!(choose_helper(None, Some("global")), Some("global".into()));
    assert_eq!(choose_helper(Some("own"), Some("global")), Some("own".into()));
    assert_eq!(choose_helper(None, None), None);
}

#[test]
fn a_helper_is_looked_up_in_a_file() {
    let path = b"/docker/config.json";
    assert_eq!(credential_helper(path, &FileRead::Missing, "host"), Ok(None));
    assert_eq!(
        credential_helper(path, &FileRead::Failed("denied".into()), "host"),
        Err("could not read /docker/config.json: denied".into())
    );
    assert_eq!(
        credential_helper(path, &FileRead::Contents("{".into()), "host"),
        Err(
            "could not parse /docker/config.json: EOF while parsing an object at line 1 column 1"
                .into()
        )
    );
    assert_eq!(
        credential_helper(
            path,
            &FileRead::Contents(r#"{"credHelpers":{"host":"ecr-login"}}"#.into()),
            "host"
        ),
        Ok(Some("ecr-login".into()))
    );
    assert!(uses_ecr_credential_helper(&Some("ecr-login".into())));
    assert!(!uses_ecr_credential_helper(&Some("osxkeychain".into())));
    assert!(!uses_ecr_credential_helper(&None));
}

#[test]
fn uses_client_specific_registry_login_commands() {
    let registry = "123.dkr.ecr.us-east-1.amazonaws.com";
    assert_eq!(
        RegistryClient::Docker.login_args(registry),
        ["login", registry, "--username", "AWS", "--password-stdin"]
    );
    assert_eq!(
        RegistryClient::Helm.login_args(registry),
        [
            "registry",
            "login",
            registry,
            "--username",
            "AWS",
            "--password-stdin"
        ]
    );
}

#[test]
fn a_password_is_sent_as_input_only() {
    let login = run_password_registry_login(RegistryClient::Helm, "host", b"secret");
    assert_eq!(login.program, "helm");
    assert_eq!(login.input, Some(b"secret".to_vec()));
    assert_eq!(login.capture, Capture::Errors);
    assert!(!login.args.iter().any(|arg| arg.contains("secret")));
    let logout = clear_helm_registry_credential("host");
    assert_eq!(logout.program, "helm");
    assert_eq!(logout.args, ["registry", "logout", "host"]);
    assert_eq!(logout.capture, Capture::Everything);
}

#[test]
fn the_helper_is_called_under_the_profile() {
    let call = validate_ecr_credential_helper("dev", "host", true).unwrap();
    assert_eq!(call.program, "docker-credential-ecr-login");
    assert_eq!(call.args, ["get"]);
    assert_eq!(call.input, Some(b"host\n".to_vec()));
    assert_eq!(
        call.set,
        [
            ("AWS_PROFILE".to_string(), "dev".to_string()),
            ("AWS_DEFAULT_PROFILE".to_string(), "dev".to_string()),
        ]
    );
    assert_eq!(
        call.unset,
        [
            "AWS_ACCESS_KEY_ID",
            "AWS_SECRET_ACCESS_KEY",
            "AWS_SESSION_TOKEN",
            "AWS_SECURITY_TOKEN",
        ]
    );
    assert_eq!(
        validate_ecr_credential_helper("dev", "host", false),
        Err("'docker-credential-ecr-login' was not found in PATH".into())
    );
    assert_eq!(finish_credential_helper("host", &Ok(output(true, "", ""))), Ok(()));
    assert_eq!(
        finish_credential_helper("host", &Ok(output(false, "", "no\nway"))),
        Err("docker-credential-ecr-login could not authenticate to host: no way".into())
    );
    assert_eq!(
        finish_credential_helper("host", &Err(RunFailure::Send("pipe".into()))),
        Err("could not send registry to docker-credential-ecr-login: pipe".into())
    );
}

#[test]
fn a_login_is_tried_again_only_after_a_duplicate() {
    let duplicate = output(
        false,
        "",
        "Error: The specified item already exists in the keychain. (-25299)",
    );
    assert!(is_duplicate_keychain_item(&duplicate));
    assert!(matches!(
        password_registry_login(RegistryClient::Helm, "host", &Ok(duplicate.clone())),
        Login::Again(error) if error.starts_with("helm login to host failed: Error: The specified")
    ));
    assert!(matches!(
        password_registry_login(RegistryClient::Docker, "host", &Ok(duplicate.clone())),
        Login::Over(Err(error)) if error.starts_with("docker login to host failed: ")
    ));
    assert!(matches!(
        password_registry_login(RegistryClient::Helm, "host", &Ok(output(false, "", "denied"))),
        Login::Over(Err(error)) if error == "helm login to host failed: denied"
    ));
    assert!(matches!(
        password_registry_login(RegistryClient::Helm, "host", &Ok(output(true, "-25299", ""))),
        Login::Over(Ok(RegistryLoginMethod::Password))
    ));
    assert!(matches!(
        password_registry_login(
            RegistryClient::Docker,
            "host",
            &Err(RunFailure::Start("missing".into()))
        ),
        Login::Over(Err(error)) if error == "could not start docker: missing"
    ));
    assert_eq!(
        finish_second_login(RegistryClient::Helm, "host", &Ok(duplicate)),
        Err(
            "helm login to host failed: Error: The specified item already exists in the keychain. (-25299)"
                .into()
        )
    );
    assert_eq!(
        finish_second_login(RegistryClient::Helm, "host", &Err(RunFailure::Input)),
        Err("could not open helm input".into())
    );
    assert_eq!(
        finish_second_login(RegistryClient::Helm, "host", &Err(RunFailure::Wait("x".into()))),
        Err("could not wait for helm: x".into())
    );
    assert_eq!(
        retry_helm_login("host", "first", &Ok(output(false, "", ""))),
        Err(
            "first; automatic Keychain cleanup failed: helm logout from host failed (exit status: 1)"
                .into()
        )
    );
    assert_eq!(
        retry_helm_login("host", "first", &Err(RunFailure::Start("gone".into()))),
        Err("first; automatic Keychain cleanup failed: could not start helm: gone".into())
    );
    assert_eq!(retry_helm_login("host", "first", &Ok(output(true, "", ""))), Ok(()));
}

#[test]
fn failures_of_all_logins_are_told_together() {
    assert_eq!(finish_registry_logins(&[]), Ok(()));
    assert_eq!(
        finish_registry_logins(&["a".into(), "b".into()]),
        Err("a; b".into())
    );
}

#[test]
fn a_login_is_noted_with_its_method() {
    assert_eq!(registry_login_detail(RegistryLoginMethod::Password, true), "");
    assert_eq!(
        registry_login_detail(RegistryLoginMethod::EcrCredentialHelper, true),
        "  \u{1b}[2m(ecr-login)\u{1b}[0m"
    );
    assert_eq!(
        print_registry_login(
            RegistryClient::Helm,
            "host",
            RegistryLoginMethod::EcrCredentialHelper,
            false
        ),
        "✓ Helm    host  (ecr-login)"
    );
    assert_eq!(
        print_registry_login(
            RegistryClient::Docker,
            "host",
            RegistryLoginMethod::Password,
            true
        ),
        "\u{1b}[32m✓\u{1b}[39m Docker  host"
    );
}

#[test]
fn the_account_is_asked_for() {
    assert_eq!(
        discover_account_registry("dev", "us-east-1", false, &Ok(output(true, " 123\n", ""))),
        Ok(vec!["123.dkr.ecr.us-east-1.amazonaws.com".into()])
    );
    assert_eq!(
        discover_account_registry(
            "dev",
            "us-east-1",
            false,
            &Err(RunFailure::Start("missing".into()))
        ),
        Err("could not run AWS CLI: missing".into())
    );
    assert_eq!(
        account_registry_from_output("dev", "us-east-1", false, &output(true, "None\n", "")),
        Err("AWS returned no account ID; skipped ECR login".into())
    );
    assert_eq!(
        account_registry_from_output("dev", "us-east-1", false, &output(false, "", "AccessDenied")),
        Err(
            "could not determine the AWS account: access denied for 'dev'; verify its IAM permissions"
                .into()
        )
    );
    assert_eq!(registry_for_account("1", "r"), Ok(vec!["1.dkr.ecr.r.amazonaws.com".into()]));
}

#[test]
fn a_password_is_what_aws_printed() {
    assert_eq!(
        ecr_password("dev", false, &Ok(output(true, "secret\n", ""))),
        Ok(b"secret\n".to_vec())
    );
    assert_eq!(
        ecr_password("dev", false, &Ok(output(false, "", ""))),
        Err("could not get an ECR login token (exit status: 1)".into())
    );
}

#[test]
fn clients_log_in_in_a_fixed_order() {
    assert_eq!(
        installed_registry_clients(true, true),
        Ok(vec![RegistryClient::Docker, RegistryClient::Helm])
    );
    assert_eq!(
        installed_registry_clients(false, true),
        Ok(vec![RegistryClient::Helm])
    );
    assert_eq!(
        installed_registry_clients(false, false),
        Err("Docker and Helm are not installed; skipped ECR login".into())
    );
}

#[test]
fn an_empty_registry_is_refused() {
    assert_eq!(parse_registry(" \t"), Err("registry cannot be empty".into()));
    assert_eq!(parse_registry(" a b "), Ok("a b".into()));
}
