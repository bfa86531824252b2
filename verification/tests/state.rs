use awswap::command::{CommandOutput, FileRead};
use awswap::paths::{
    aws_config_path, aws_credentials_path, docker_config_path, helm_registry_config_from_helm,
    helm_registry_config_path, is_executable, parse_helm_registry_config, state_dir,
    state_dir_from, state_path, Places,
};
use awswap::platform::{file_name, join_path, Platform};
use awswap::state::{
    load_state, parse_state, read_state, render_state, save_error, save_state, update_state,
    SaveFailure, State,
};

fn bytes(text: &str) -> Vec<u8> {
    text.as_bytes().to_vec()
}

#[test]
fn state_round_trips() {
    let state =
        parse_state("current=prod\nprevious=dev\nrecent=prod\nrecent=qa\nunknown=ignored\n");
    assert_eq!(
        state,
        State {
            current: Some("prod".into()),
            previous: Some("dev".into()),
            recent: vec!["prod".into(), "qa".into()],
        }
    );
}

#[test]
fn what_is_written_is_read_back() {
    let states = [
        State::default(),
        State {
            current: Some("a=b \"c\"".into()),
            previous: None,
            recent: vec!["a=b \"c\"".into(), "ü".into()],
        },
        State {
            current: None,
            previous: Some("current=x".into()),
            recent: Vec::new(),
        },
    ];
    for state in states {
        assert_eq!(parse_state(&render_state(&state)), state);
    }
    let odd = State {
        current: Some("a\nb".into()),
        ..State::default()
    };
    assert_eq!(parse_state(&render_state(&odd)).current.as_deref(), Some("a"));
}

#[test]
fn a_state_file_reads_as_it_is_written() {
    let state = State {
        current: Some("prod".into()),
        previous: Some("dev".into()),
        recent: vec!["prod".into(), "dev".into()],
    };
    assert_eq!(
        render_state(&state),
        "current=prod\nprevious=dev\nrecent=prod\nrecent=dev\n"
    );
    assert_eq!(render_state(&State::default()), "current=\nprevious=\n");
}

#[test]
fn a_damaged_state_file_is_read_as_far_as_possible() {
    let contents = "recent=\nrecent=a\r\nrecent=a\nrecent=b\ncurrent=\nprevious=x\nprevious=y\n Current=z";
    assert_eq!(
        parse_state(contents),
        State {
            current: None,
            previous: Some("y".into()),
            recent: vec!["a".into(), "b".into()],
        }
    );
    let many: String = (0..12).map(|index| format!("recent=p{index}\n")).collect();
    let recent = parse_state(&many).recent;
    assert_eq!(recent.len(), 8);
    assert_eq!(recent[7], "p7");
}

#[test]
fn choosing_the_current_profile_again_changes_nothing() {
    let names = ["a", "b", "c", "d", "e", "f", "g", "h"];
    for profile in ["a", "c", "h", "new"] {
        let mut once = State {
            current: Some("a".into()),
            previous: Some("b".into()),
            recent: names.iter().map(|name| name.to_string()).collect(),
        };
        update_state(profile, &mut once);
        let mut twice = parse_state(&render_state(&once));
        update_state(profile, &mut twice);
        assert_eq!(twice, once);
    }
}

#[test]
fn a_switch_moves_the_profile_to_the_front() {
    let mut state = State::default();
    update_state("dev", &mut state);
    assert_eq!(state.current.as_deref(), Some("dev"));
    assert_eq!(state.previous, None);
    update_state("prod", &mut state);
    assert_eq!(state.current.as_deref(), Some("prod"));
    assert_eq!(state.previous.as_deref(), Some("dev"));
    assert_eq!(state.recent, ["prod", "dev"]);
    update_state("prod", &mut state);
    assert_eq!(state.previous.as_deref(), Some("dev"));
    update_state("dev", &mut state);
    assert_eq!(state.current.as_deref(), Some("dev"));
    assert_eq!(state.previous.as_deref(), Some("prod"));
    assert_eq!(state.recent, ["dev", "prod"]);
    for index in 0..20 {
        update_state(&format!("p{index}"), &mut state);
    }
    assert_eq!(state.recent.len(), 8);
    assert_eq!(state.recent[0], "p19");
    assert_eq!(state.recent[7], "p12");
}

#[test]
fn an_unreadable_state_file_is_an_error_and_a_missing_one_is_not() {
    let path = bytes("/s/state");
    assert_eq!(read_state(&path, &FileRead::Missing), Ok(String::new()));
    assert_eq!(load_state(&path, &FileRead::Missing), Ok(State::default()));
    assert_eq!(
        load_state(&path, &FileRead::Failed("is a directory".into())),
        Err("could not read /s/state: is a directory".into())
    );
    assert_eq!(
        read_state(b"/\xff", &FileRead::Failed("x".into())),
        Err("could not read /\u{fffd}: x".into())
    );
    assert_eq!(
        load_state(&path, &FileRead::Contents("current=a\n".into()))
            .unwrap()
            .current
            .as_deref(),
        Some("a")
    );
}

#[test]
fn a_state_is_written_beside_its_file_first() {
    let state = State {
        current: Some("a".into()),
        ..State::default()
    };
    let save = save_state(&state, Platform::Unix, b"/home/.state", 4100);
    assert_eq!(save.directory, b"/home/.state");
    assert_eq!(save.temporary, b"/home/.state/.state.4100.tmp");
    assert_eq!(save.path, b"/home/.state/state");
    assert_eq!(save.contents, "current=a\nprevious=\n");
    assert_eq!(
        save_error(&save, &SaveFailure::Create("no".into())),
        "could not create /home/.state: no"
    );
    assert_eq!(
        save_error(&save, &SaveFailure::Write("no".into())),
        "could not write /home/.state/.state.4100.tmp: no"
    );
    assert_eq!(
        save_error(&save, &SaveFailure::Update("no".into())),
        "could not update /home/.state/state: no"
    );
}

#[test]
fn paths_are_joined_by_one_slash() {
    for (directory, tail, expected) in [
        (&b"/a"[..], "b", &b"/a/b"[..]),
        (b"/a/", "b/c", b"/a/b/c"),
        (b"", "b", b"b"),
        (b"/\xff", "b", b"/\xff/b"),
        (b"C:", "b", b"C:/b"),
        (b"/a\\", "b", b"/a\\/b"),
    ] {
        assert_eq!(join_path(Platform::Unix, directory, tail), expected);
    }
}

#[test]
fn windows_paths_are_joined_by_a_backslash() {
    for (directory, tail, expected) in [
        (r"C:\Users\me", "state", r"C:\Users\me\state"),
        (r"C:\Users\me", ".aws/config", r"C:\Users\me\.aws/config"),
        (r"C:\Users\me\", "state", r"C:\Users\me\state"),
        ("C:/Users/me/", "state", "C:/Users/me/state"),
        ("C:", "state", "C:state"),
        ("1:", "state", r"1:\state"),
        ("", "state", "state"),
        (r"\\server\share", "state", r"\\server\share\state"),
        (r"\\?\C:\Users\\me\", ".aws/config", r"\\?\C:\Users\me\.aws\config"),
        (r"\\?\C:", "state", r"\\?\C:\state"),
        (r"\\?\UNC\server\share\a", "state", r"\\?\UNC\server\share\a\state"),
    ] {
        assert_eq!(
            join_path(Platform::Windows, directory.as_bytes(), tail),
            expected.as_bytes()
        );
    }
    let home = Places {
        platform: Platform::Windows,
        home: Some(bytes(r"C:\Users\me")),
        ..Places::default()
    };
    assert_eq!(
        state_path(&home),
        Ok(bytes(r"C:\Users\me\.local/state/awswap\state"))
    );
    assert_eq!(
        docker_config_path(&home),
        Some(bytes(r"C:\Users\me\.docker\config.json"))
    );
    let save = save_state(&State::default(), Platform::Windows, b"C:\\state", 1);
    assert_eq!(save.temporary, b"C:\\state\\.state.1.tmp");
    assert_eq!(save.path, b"C:\\state\\state");
}

#[test]
fn a_file_name_is_the_last_part_of_a_path() {
    for path in [
        "/bin/zsh", "zsh", "/bin/zsh/", "/bin/zsh//.", "/bin/..", "..", ".", "./", "", "/", "//",
        "./fish", "a/./b/.", "a\\b", "/usr/bin/é",
    ] {
        assert_eq!(
            file_name(Platform::Unix, path),
            std::path::Path::new(path)
                .file_name()
                .map(|name| name.to_str().unwrap().to_string()),
            "{path}"
        );
    }
    assert_eq!(file_name(Platform::Unix, "/bin/zsh/."), Some("zsh".into()));
    for (path, expected) in [
        (r"C:\msys\bash.exe", Some("bash.exe")),
        ("C:/msys/bash/", Some("bash")),
        ("C:bash", Some("bash")),
        ("C:", None),
        (r"\usr\bin\.\bash\.", Some("bash")),
        (r"C:\a\..", None),
        (r"\\server\share", None),
        (r"\\server\share\bash", Some("bash")),
        (r"\\server", Some("server")),
        (r"\\.\COM1", None),
        (r"\\?\C:\a/b", Some("a/b")),
        (r"\\?\C:\a\.", None),
        (r"\\?\UNC\server\share", None),
        (r"\\?\UNC\server\share\bash", Some("bash")),
    ] {
        assert_eq!(
            file_name(Platform::Windows, path),
            expected.map(String::from),
            "{path}"
        );
    }
}

#[test]
fn places_come_from_the_environment_or_the_home_directory() {
    let home = Places {
        home: Some(bytes("/home")),
        ..Places::default()
    };
    assert_eq!(state_dir(&home), Ok(bytes("/home/.local/state/awswap")));
    assert_eq!(state_path(&home), Ok(bytes("/home/.local/state/awswap/state")));
    assert_eq!(aws_config_path(&home), b"/home/.aws/config");
    assert_eq!(aws_credentials_path(&home), b"/home/.aws/credentials");
    assert_eq!(docker_config_path(&home), Some(bytes("/home/.docker/config.json")));
    assert_eq!(helm_registry_config_path(&home), None);

    let set = Places {
        platform: Platform::Unix,
        home: Some(bytes("/home")),
        awswap_home: Some(bytes("/state")),
        xdg_state_home: Some(bytes("/xdg")),
        aws_config_file: Some(bytes("/c")),
        aws_shared_credentials_file: Some(bytes("/d")),
        docker_config: Some(bytes("/docker")),
        helm_registry_config: Some(bytes("/helm.json")),
    };
    assert_eq!(state_path(&set), Ok(bytes("/state/state")));
    assert_eq!(aws_config_path(&set), b"/c");
    assert_eq!(aws_credentials_path(&set), b"/d");
    assert_eq!(docker_config_path(&set), Some(bytes("/docker/config.json")));
    assert_eq!(helm_registry_config_path(&set), Some(bytes("/helm.json")));

    let empty = Places {
        docker_config: Some(Vec::new()),
        helm_registry_config: Some(Vec::new()),
        ..Places::default()
    };
    assert_eq!(docker_config_path(&empty), None);
    assert_eq!(helm_registry_config_path(&empty), None);
    assert_eq!(aws_config_path(&empty), b".aws/config");
    assert_eq!(
        state_path(&empty),
        Err("could not determine the state directory; set AWSWAP_HOME".into())
    );
    assert_eq!(
        state_dir_from(Platform::Unix, None, Some(bytes("/xdg/")), Some(bytes("/home"))),
        Ok(bytes("/xdg/awswap"))
    );
}

#[test]
fn reads_registry_config_path_from_helm_env() {
    assert_eq!(
        parse_helm_registry_config(
            "HELM_BIN=\"helm\"\nHELM_REGISTRY_CONFIG=\"/home/user/registry/config.json\"\n"
        ),
        Some("/home/user/registry/config.json".into())
    );
    assert_eq!(parse_helm_registry_config("HELM_BIN=\"helm\"\n"), None);
    assert_eq!(parse_helm_registry_config("HELM_REGISTRY_CONFIG=\"\"\n"), None);
}

#[test]
fn helm_is_believed_only_where_it_succeeds() {
    let output = CommandOutput {
        success: true,
        status: String::new(),
        stdout: b"  HELM_REGISTRY_CONFIG= \"/r.json\"  \n".to_vec(),
        stderr: Vec::new(),
    };
    assert_eq!(
        helm_registry_config_from_helm(Some(&output)),
        Some(bytes("/r.json"))
    );
    let failed = CommandOutput {
        success: false,
        ..output
    };
    assert_eq!(helm_registry_config_from_helm(Some(&failed)), None);
    assert_eq!(helm_registry_config_from_helm(None), None);
}

#[test]
fn a_file_is_executable_by_any_of_its_bits() {
    assert!(is_executable(0o100755));
    assert!(is_executable(0o001));
    assert!(!is_executable(0o100644));
}
