use awswap::choice::{
    ensure_profile_exists, ordered_profiles, previous_profile, print_profile_choice, profile_choices,
    profile_for_switch, prompt_for_profile, require_list_profiles, require_profiles, resolve_profile,
    select_profile, ProfileChoice, Selection,
};
use awswap::command::{CommandOutput, FileRead};
use awswap::config::{
    discover_profiles, parse_profile_config, parse_profile_list, parse_profiles, parse_section,
    read_aws_config_contents, read_profile_config, ProfileConfig,
};
use awswap::distance::{closest_profile, edit_distance};
use awswap::ordered::collect;
use awswap::settings::{effective_profile, Environment};
use awswap::state::State;

fn strings(list: &[&str]) -> Vec<String> {
    list.iter().map(|text| text.to_string()).collect()
}

fn printed(text: &str) -> CommandOutput {
    CommandOutput {
        success: true,
        status: "exit status: 0".into(),
        stdout: text.as_bytes().to_vec(),
        stderr: Vec::new(),
    }
}

#[test]
fn parses_profiles_from_config_and_credentials() {
    let contents = r#"
            [default]
            region = us-east-1
            [profile dev]
            sso_session = company
            [sso-session company]
            sso_start_url = https://example.awsapps.com/start
            [services local]
            endpoint_url = http://localhost:4566
            [legacy]
            aws_access_key_id = example
        "#;
    let profiles = parse_profiles(contents);
    assert_eq!(profiles, ["default", "dev", "legacy"]);
}

#[test]
fn parses_sso_profile_configuration() {
    let contents = r#"
            [default]
            login_session = browser
            region = us-west-2
            [profile dev]
            region = eu-west-1
            sso_session = company
            [sso-session company]
            sso_region = us-east-1
        "#;
    assert_eq!(
        parse_profile_config(contents, "dev"),
        ProfileConfig {
            region: Some("eu-west-1".into()),
            is_sso: true,
            ..ProfileConfig::default()
        }
    );
    assert_eq!(
        parse_profile_config(contents, "default"),
        ProfileConfig {
            region: Some("us-west-2".into()),
            is_login: true,
            ..ProfileConfig::default()
        }
    );
}

#[test]
fn role_settings_are_read_from_their_keys() {
    let contents = "[profile role]\nrole_arn = arn:aws:iam::123456789012:role/team/Admin\nsource_profile=base\n";
    let config = parse_profile_config(contents, "role");
    assert_eq!(config.account_id.as_deref(), Some("123456789012"));
    assert_eq!(config.role_name.as_deref(), Some("Admin"));
    assert_eq!(config.source_profile.as_deref(), Some("base"));
    assert_eq!(config.auth_label(), "role");

    let broken = parse_profile_config("[profile role]\nrole_arn = nonsense/\n", "role");
    assert_eq!(broken.account_id, None);
    assert_eq!(broken.role_name, None);

    let named = parse_profile_config("[profile sso]\nsso_account_id=42\nrole_name=Dev\n", "sso");
    assert_eq!(named.account_id.as_deref(), Some("42"));
    assert_eq!(named.role_name.as_deref(), Some("Dev"));
}

#[test]
fn a_section_says_nothing_of_another() {
    let own = "[profile dev]\nregion=eu-west-1\n";
    let both = "[profile dev]\nregion=eu-west-1\n[profile prod]\nregion=us-west-2\nsso_session=x\n";
    assert_eq!(
        parse_profile_config(own, "dev"),
        parse_profile_config(both, "dev")
    );
    assert_eq!(
        parse_profile_config("region=x\n[dev]\nregion=y\n", "dev"),
        ProfileConfig::default()
    );
}

#[test]
fn lines_without_a_value_are_skipped() {
    let contents = "[profile dev]\nregion =\nregion\n = x\nregion = a = b\r\n";
    assert_eq!(
        parse_profile_config(contents, "dev").region.as_deref(),
        Some("a = b")
    );
}

#[test]
fn sections_are_the_names_between_brackets() {
    assert_eq!(parse_section("\t[ a b ] "), Some("a b"));
    assert_eq!(parse_section("[]"), Some(""));
    assert_eq!(parse_section("[open"), None);
    assert_eq!(parse_section("[a] # note"), None);
}

#[test]
fn profiles_are_gathered_from_all_sources_once_and_in_order() {
    let listed = printed(" prod \n\ndev\n");
    let config = FileRead::Contents("[profile dev]\n[default]\n".into());
    let credentials = FileRead::Contents("[legacy]\n".into());
    assert_eq!(
        discover_profiles(Some(&listed), &config, &credentials),
        ["default", "dev", "legacy", "prod"]
    );
    let failed = CommandOutput {
        success: false,
        ..printed("ghost\n")
    };
    assert_eq!(
        discover_profiles(Some(&failed), &FileRead::Missing, &FileRead::Failed("x".into())),
        Vec::<String>::new()
    );
    assert_eq!(
        discover_profiles(None, &config, &FileRead::Missing),
        ["default", "dev"]
    );
    assert_eq!(parse_profile_list(b"b\xff\na\nb\xff\n"), ["a", "b\u{fffd}"]);
    assert_eq!(
        collect(strings(&["b", "a", "b", "A", "", "ab"])),
        ["", "A", "a", "ab", "b"]
    );
}

#[test]
fn a_missing_configuration_says_nothing() {
    assert_eq!(read_aws_config_contents(&FileRead::Missing), Ok(String::new()));
    assert_eq!(
        read_aws_config_contents(&FileRead::Failed("denied".into())),
        Err("could not read AWS config: denied".into())
    );
    assert_eq!(
        read_profile_config(&FileRead::Missing, "dev"),
        Ok(ProfileConfig::default())
    );
    assert_eq!(
        read_profile_config(&FileRead::Contents("[profile dev]\nregion=r\n".into()), "dev")
            .unwrap()
            .region
            .as_deref(),
        Some("r")
    );
}

#[test]
fn computes_edit_distance() {
    assert_eq!(edit_distance("prod", "prod"), 0);
    assert_eq!(edit_distance("prd", "prod"), 1);
    assert_eq!(edit_distance("dev", "production"), 9);
}

#[test]
fn edit_distance_is_a_distance() {
    let words = ["", "a", "dev", "prod", "production", "größe", "grosse"];
    for left in words {
        for right in words {
            assert_eq!(edit_distance(left, right), edit_distance(right, left));
            assert_eq!(edit_distance(left, right) == 0, left == right);
            for middle in words {
                assert!(
                    edit_distance(left, right)
                        <= edit_distance(left, middle) + edit_distance(middle, right)
                );
            }
        }
    }
}

#[test]
fn the_nearest_profile_is_suggested() {
    let profiles = strings(&["dev1", "dev2", "production"]);
    assert_eq!(closest_profile("dev", &profiles), Some("dev1"));
    assert_eq!(closest_profile("dev2x", &profiles), Some("dev2"));
    assert_eq!(closest_profile("prod", &profiles), None);
    assert_eq!(closest_profile("something", &profiles), None);
    assert_eq!(closest_profile("dev", &[]), None);
    assert_eq!(
        ensure_profile_exists("dev", &profiles),
        Err("AWS profile 'dev' was not found; did you mean 'dev1'?".into())
    );
    assert_eq!(
        ensure_profile_exists("something", &profiles),
        Err("AWS profile 'something' was not found".into())
    );
    assert_eq!(ensure_profile_exists("dev2", &profiles), Ok(()));
}

#[test]
fn orders_current_previous_and_recent_profiles_first() {
    let profiles = vec!["alpha".into(), "dev".into(), "prod".into(), "qa".into()];
    let state = State {
        current: Some("dev".into()),
        previous: Some("prod".into()),
        recent: vec!["qa".into(), "dev".into()],
    };
    assert_eq!(
        ordered_profiles(&profiles, &state, Some("dev")),
        ["dev", "prod", "qa", "alpha"]
    );
}

#[test]
fn profiles_that_are_gone_are_not_listed() {
    let profiles = strings(&["a", "b"]);
    let state = State {
        current: Some("gone".into()),
        previous: Some("old".into()),
        recent: strings(&["gone", "b"]),
    };
    assert_eq!(ordered_profiles(&profiles, &state, Some("gone")), ["b", "a"]);
    assert_eq!(ordered_profiles(&profiles, &State::default(), None), ["a", "b"]);
}

#[test]
fn choices_are_marked_and_described() {
    let contents = "[profile dev]\nregion=eu-west-1\nsso_session=s\nsso_account_id=1\n";
    let state = State {
        current: None,
        previous: Some("prod".into()),
        recent: Vec::new(),
    };
    let choices = profile_choices(&strings(&["dev", "prod", "qa"]), &state, Some("dev"), contents);
    assert_eq!(
        choices[0],
        ProfileChoice {
            name: "dev".into(),
            marker: "● ",
            region: "eu-west-1".into(),
            auth: "SSO",
            account: "1".into(),
        }
    );
    assert_eq!(choices[1].marker, "↩ ");
    assert_eq!(choices[1].region, "—");
    assert_eq!(choices[1].auth, "credentials");
    assert_eq!(choices[2].marker, "  ");
    assert_eq!(
        choices[0].line(),
        format!("● {:<24} {:<15} {:<11} {}", "dev", "eu-west-1", "SSO", "1")
    );
    assert_eq!(
        print_profile_choice(&choices[1], false),
        format!("↩ {:<24} {:<15} {:<11} {}", "prod", "—", "credentials", "")
    );
    assert_eq!(
        print_profile_choice(&choices[0], true),
        format!("\u{1b}[32m●\u{1b}[39m {:<24} {:<15} {:<11} {}", "dev", "eu-west-1", "SSO", "1")
    );
    assert_eq!(
        print_profile_choice(&choices[2], true),
        format!("  {:<24} {:<15} {:<11} {}", "qa", "—", "credentials", "")
    );
}

#[test]
fn at_most_twelve_profiles_are_shown_at_a_time() {
    let few = strings(&["a", "b"]);
    let many: Vec<String> = (0..20).map(|index| format!("p{index}")).collect();
    let state = State::default();
    assert_eq!(prompt_for_profile(&few, &state, None, "").page_size, 2);
    let prompt = prompt_for_profile(&many, &state, None, "");
    assert_eq!(prompt.page_size, 12);
    assert_eq!(prompt.choices.len(), 20);
    let environment = Environment {
        aws_profile: Some("b".into()),
        ..Environment::default()
    };
    let prompt = select_profile(&few, &state, &environment, &FileRead::Missing).unwrap();
    assert_eq!(prompt.choices[0].name, "b");
    assert_eq!(prompt.choices[0].marker, "● ");
    assert_eq!(
        select_profile(&few, &state, &environment, &FileRead::Failed("no".into())),
        Err("could not read AWS config: no".into())
    );
}

#[test]
fn a_switch_without_a_name_needs_a_terminal() {
    let profiles = strings(&["dev"]);
    let terminal = Environment {
        input_terminal: true,
        error_terminal: true,
        ..Environment::default()
    };
    assert_eq!(
        profile_for_switch(None, &profiles, &Environment::default()),
        Err("interactive selection requires a terminal; pass a profile name".into())
    );
    assert_eq!(profile_for_switch(None, &profiles, &terminal), Ok(Selection::Asked));
    assert_eq!(
        profile_for_switch(Some("dev"), &profiles, &Environment::default()),
        Ok(Selection::Named("dev".into()))
    );
    assert_eq!(
        profile_for_switch(Some("nothing"), &profiles, &terminal),
        Err("AWS profile 'nothing' was not found".into())
    );
}

#[test]
fn the_previous_profile_has_to_be_there() {
    let profiles = strings(&["dev"]);
    let mut state = State::default();
    assert_eq!(
        previous_profile(&state, &profiles),
        Err("no previous AWS profile".into())
    );
    state.previous = Some("dev".into());
    assert_eq!(previous_profile(&state, &profiles), Ok("dev".into()));
    state.previous = Some("removed".into());
    assert_eq!(
        previous_profile(&state, &profiles),
        Err("AWS profile 'removed' was not found".into())
    );
}

#[test]
fn the_environment_overrides_the_remembered_profile() {
    let profiles = strings(&["dev", "prod"]);
    let state = State {
        current: Some("dev".into()),
        ..State::default()
    };
    let named = Environment {
        aws_profile: Some("prod".into()),
        ..Environment::default()
    };
    let blank = Environment {
        aws_profile: Some("  ".into()),
        ..Environment::default()
    };
    let unknown = Environment {
        aws_profile: Some("other".into()),
        ..Environment::default()
    };
    assert_eq!(effective_profile(&named, &state), Some("prod".into()));
    assert_eq!(effective_profile(&blank, &state), Some("dev".into()));
    assert_eq!(effective_profile(&Environment::default(), &State::default()), None);
    assert_eq!(resolve_profile(None, &profiles, &state, &named), Ok("prod".into()));
    assert_eq!(
        resolve_profile(Some("dev"), &profiles, &state, &named),
        Ok("dev".into())
    );
    for environment in [&unknown, &Environment::default()] {
        assert_eq!(
            resolve_profile(None, &profiles, &State::default(), environment),
            Err("no active profile; run `awswap <profile>` first".into())
        );
    }
}

#[test]
fn no_profiles_are_reported_as_such() {
    assert_eq!(
        require_profiles(&[]),
        Err("no AWS profiles found; run `aws configure sso` first".into())
    );
    assert_eq!(require_list_profiles(&[]), Err("no AWS profiles found".into()));
    assert_eq!(require_profiles(&strings(&["a"])), Ok(()));
    assert_eq!(require_list_profiles(&strings(&["a"])), Ok(()));
}
