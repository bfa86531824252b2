use awswap::choice::SelectionFailure;
use awswap::cli::{run, Cli, CliCommand};
use awswap::command::{command_error, CommandOutput, FileRead, Invocation, RunFailure};
use awswap::config::discover_profiles;
use awswap::failure::aws_command_error;
use awswap::session::{Action, Reply, Session, Step};
use awswap::settings::{Environment, Line, Options};
use awswap::shell::{print_completions, print_shell_hook, Shell};
use awswap::state::{parse_state, render_state, SaveFailure, State};
use awswap::paths::Places;

/// A machine with an AWS CLI, Docker and Helm, whose files are kept in a list.
struct World {
    files: Vec<(Vec<u8>, FileRead)>,
    choice: Result<usize, SelectionFailure>,
    unsaved: Option<SaveFailure>,
    expired: bool,
    sign_in: bool,
    runs: Vec<Invocation>,
}

const STATE: &str = "/state/state";
const CONFIG: &str = "/config";
const DOCKER: &str = "/docker/config.json";
const HELM: &str = "/helm-registry.json";
const IDENTITY: &str = r#"{"UserId":"ARO:test","Account":"123456789012","Arn":"arn:aws:sts::123456789012:assumed-role/Developer/test"}"#;

impl World {
    fn new() -> World {
        let mut world = World {
            files: Vec::new(),
            choice: Err(SelectionFailure::Canceled),
            unsaved: None,
            expired: false,
            sign_in: true,
            runs: Vec::new(),
        };
        world.write(
            CONFIG,
            "[profile dev]\nregion=us-east-1\nsso_session=company\n[profile prod]\nregion=us-west-2\n",
        );
        world.write("/credentials", "[legacy]\naws_access_key_id=test\n");
        world
    }

    fn write(&mut self, path: &str, contents: &str) {
        self.set(path, FileRead::Contents(contents.into()));
    }

    fn set(&mut self, path: &str, read: FileRead) {
        let path = path.as_bytes().to_vec();
        self.files.retain(|(known, _)| known != &path);
        self.files.push((path, read));
    }

    fn read(&self, path: &[u8]) -> FileRead {
        self.files
            .iter()
            .find(|(known, _)| known == path)
            .map(|(_, read)| read.clone())
            .unwrap_or(FileRead::Missing)
    }

    fn state(&self) -> State {
        match self.read(STATE.as_bytes()) {
            FileRead::Contents(contents) => parse_state(&contents),
            _ => State::default(),
        }
    }

    fn ran(&self, program: &str, args: &str) -> usize {
        self.runs
            .iter()
            .filter(|run| run.program == program && run.args.join(" ").starts_with(args))
            .count()
    }

    fn perform(&mut self, invocation: &Invocation) -> Result<CommandOutput, RunFailure> {
        let args = invocation.args.join(" ");
        self.runs.push(invocation.clone());
        let (success, stdout, stderr) = match invocation.program.as_str() {
            "aws" if args.starts_with("--version") => (true, "aws-cli/2.test\n", ""),
            "aws" if args.starts_with("configure list-profiles") => (true, "dev\nprod\n", ""),
            "aws" if args.contains("--query") => (true, "123456789012\n", ""),
            "aws" if args.starts_with("sts get-caller-identity") => {
                if self.expired {
                    (false, "", "ExpiredToken")
                } else {
                    (true, IDENTITY, "")
                }
            }
            "aws" if args.starts_with("ecr get-login-password") => (true, "secret\n", ""),
            "aws" if args.starts_with("sso login") => {
                self.expired = self.expired && !self.sign_in;
                (self.sign_in, "", "")
            }
            "helm" if args == "env" => (true, "HELM_REGISTRY_CONFIG=\"/asked.json\"\n", ""),
            "helm" if args.starts_with("registry login duplicate.example.com ") => {
                if self.ran("helm", "registry logout duplicate.example.com") == 0 {
                    (
                        false,
                        "",
                        "Error: The specified item already exists in the keychain. (-25299)",
                    )
                } else {
                    (true, "", "")
                }
            }
            "helm" if args.starts_with("registry login denied.example.com ") => {
                (false, "", "access denied\n")
            }
            "docker" | "helm" | "docker-credential-ecr-login" => (true, "", ""),
            _ => (false, "", ""),
        };
        Ok(CommandOutput {
            success,
            status: if success { "exit status: 0" } else { "exit status: 1" }.into(),
            stdout: stdout.as_bytes().to_vec(),
            stderr: stderr.as_bytes().to_vec(),
        })
    }

    fn drive(&mut self, session: &mut Session) -> Result<(), String> {
        for _ in 0..100 {
            let reply = match &session.action {
                Action::Finish(result) => return result.clone(),
                Action::Read(path) => Reply::File(self.read(path)),
                Action::Run(invocation) => {
                    let invocation = invocation.clone();
                    Reply::Ran(self.perform(&invocation))
                }
                Action::Save(save) => match self.unsaved.clone() {
                    Some(failure) => Reply::Saved(Err(failure)),
                    None => {
                        assert_eq!(save.directory, b"/state");
                        assert_eq!(save.temporary, b"/state/.state.7.tmp");
                        let path = String::from_utf8(save.path.clone()).unwrap();
                        let contents = save.contents.clone();
                        self.write(&path, &contents);
                        Reply::Saved(Ok(()))
                    }
                },
                Action::Ask(_) => Reply::Chosen(self.choice.clone()),
            };
            session.resume(reply);
        }
        panic!("the run did not end");
    }

    fn run(&mut self, cli: Cli) -> (Result<(), String>, Vec<Line>) {
        self.run_in(cli, environment())
    }

    fn run_in(&mut self, cli: Cli, environment: Environment) -> (Result<(), String>, Vec<Line>) {
        let mut session = run(cli, environment);
        let result = self.drive(&mut session);
        (result, session.said)
    }
}

fn environment() -> Environment {
    Environment {
        shell_hook: true,
        aws: true,
        docker: true,
        helm: true,
        credential_helper: true,
        aws_config: true,
        process: 7,
        places: Places {
            awswap_home: Some("/state".into()),
            aws_config_file: Some(CONFIG.into()),
            aws_shared_credentials_file: Some("/credentials".into()),
            docker_config: Some("/docker".into()),
            helm_registry_config: Some(HELM.into()),
            ..Places::default()
        },
        ..Environment::default()
    }
}

fn switch_to(profile: Option<&str>) -> Cli {
    Cli {
        options: Options::default(),
        profile: profile.map(str::to_string),
        command: None,
    }
}

fn command(command: CliCommand, json: bool) -> Cli {
    Cli {
        options: Options {
            json,
            ..Options::default()
        },
        profile: None,
        command: Some(command),
    }
}

fn login_to(registries: &[&str]) -> Cli {
    Cli {
        options: Options {
            registries: registries.iter().map(|name| name.to_string()).collect(),
            ..Options::default()
        },
        profile: None,
        command: Some(CliCommand::Login {
            profile: Some("dev".into()),
        }),
    }
}

fn texts(lines: &[Line]) -> Vec<&str> {
    lines
        .iter()
        .map(|line| match line {
            Line::Out(text) | Line::Note(text) | Line::Script(text) => text.as_str(),
        })
        .collect()
}

#[test]
fn covers_local_command_and_file_workflows() {
    let mut world = World::new();
    let dev = || Some("dev".to_string());

    assert_eq!(world.state(), State::default());
    let initial = State {
        current: Some("prod".into()),
        previous: None,
        recent: vec!["prod".into()],
    };
    world.write(STATE, &render_state(&initial));
    assert_eq!(world.state(), initial);
    assert_eq!(
        texts(&world.run(command(CliCommand::List, false)).1),
        ["prod", "dev", "legacy"]
    );

    assert!(world.run(switch_to(Some("dev"))).0.is_ok());
    assert!(world.run(switch_to(Some("dev"))).0.is_ok());
    assert_eq!(world.state().current.as_deref(), Some("dev"));
    assert!(world.run(switch_to(Some("-"))).0.is_ok());
    assert_eq!(world.state().current.as_deref(), Some("prod"));
    assert!(world.run(switch_to(Some("-"))).0.is_ok());
    assert_eq!(world.state().current.as_deref(), Some("dev"));
    assert!(world.run(switch_to(None)).0.is_err());
    for json in [false, true] {
        assert!(world.run(command(CliCommand::Current, json)).0.is_ok());
        assert!(world.run(command(CliCommand::List, json)).0.is_ok());
    }
    assert!(world.run(command(CliCommand::Status { profile: dev() }, true)).0.is_ok());
    assert!(world.run(command(CliCommand::Doctor { profile: dev() }, true)).0.is_ok());
    assert!(world.run(command(CliCommand::Login { profile: dev() }, true)).0.is_ok());
    assert!(
        world
            .run(command(
                CliCommand::Login {
                    profile: Some("prod".into())
                },
                false
            ))
            .0
            .is_err()
    );

    world.write(
        DOCKER,
        r#"{"credHelpers":{"registry.example.com":"ecr-login"}}"#,
    );
    let (result, said) = world.run(login_to(&["registry.example.com"]));
    assert!(result.is_ok());
    assert_eq!(
        texts(&said)[1..],
        [
            "✓ Docker  registry.example.com  (ecr-login)",
            "✓ Helm    registry.example.com",
            "✓ Authenticated dev",
        ]
    );
    let (result, said) = world.run(login_to(&["duplicate.example.com"]));
    assert!(result.is_ok());
    assert!(texts(&said).contains(&"✓ Helm    duplicate.example.com"));
    assert_eq!(world.ran("helm", "registry logout duplicate.example.com"), 1);
    assert_eq!(world.ran("helm", "registry login duplicate.example.com"), 2);
    let (result, _) = world.run(login_to(&["denied.example.com"]));
    assert!(result.unwrap_err().contains("access denied"));
    assert_eq!(world.ran("helm", "registry logout denied.example.com"), 0);
    world.write(
        HELM,
        r#"{"credHelpers":{"registry.example.com":"ecr-login"}}"#,
    );
    let (result, said) = world.run(login_to(&["registry.example.com"]));
    assert!(result.is_ok());
    assert!(texts(&said).contains(&"✓ Helm    registry.example.com  (ecr-login)"));

    world.set(STATE, FileRead::Failed("Is a directory".into()));
    assert!(world.run(command(CliCommand::Current, false)).0.is_err());
    world.write(STATE, "current=dev\n");

    for cli in [
        command(CliCommand::Current, false),
        command(CliCommand::List, true),
        command(CliCommand::Status { profile: dev() }, true),
        command(CliCommand::Doctor { profile: dev() }, true),
        command(CliCommand::Login { profile: dev() }, true),
        command(CliCommand::Init { shell: Shell::Zsh }, false),
        command(CliCommand::Completions { shell: Shell::Fish }, false),
        command(CliCommand::Version, false),
    ] {
        assert!(world.run(cli).0.is_ok());
    }
}

#[test]
fn profiles_and_failures_of_the_workflows_are_read_from_programs_and_files() {
    let world = World::new();
    let output = |success: bool, stdout: &str, stderr: &str| CommandOutput {
        success,
        status: if success { "exit status: 0" } else { "exit status: 1" }.into(),
        stdout: stdout.as_bytes().to_vec(),
        stderr: stderr.as_bytes().to_vec(),
    };
    assert_eq!(
        discover_profiles(
            Some(&output(true, "dev\nprod\n", "")),
            &world.read(CONFIG.as_bytes()),
            &world.read(b"/credentials"),
        ),
        ["dev", "legacy", "prod"]
    );

    let expired = output(false, "", "ExpiredToken");
    assert!(command_error("failed", &expired).contains("ExpiredToken"));
    assert!(aws_command_error("failed", "dev", &expired, true).contains("AWS CLI"));
    let empty = output(false, "", "");
    assert!(command_error("failed", &empty).contains("exit status"));
    assert!(aws_command_error("failed", "dev", &empty, false).contains("exit status"));
}

#[test]
fn a_switch_checks_remembers_receipts_and_logs_in() {
    let mut world = World::new();
    world.write(STATE, "current=prod\nrecent=prod\n");
    let (result, said) = world.run(switch_to(Some("dev")));
    assert_eq!(result, Ok(()));
    assert_eq!(
        said,
        [
            Line::Out("✓ Active dev  123456789012  us-east-1  Developer/test".into()),
            Line::Note("✓ Docker  123456789012.dkr.ecr.us-east-1.amazonaws.com".into()),
            Line::Note("✓ Helm    123456789012.dkr.ecr.us-east-1.amazonaws.com".into()),
        ]
    );
    assert_eq!(
        world.state(),
        State {
            current: Some("dev".into()),
            previous: Some("prod".into()),
            recent: vec!["dev".into(), "prod".into()],
        }
    );
    let login = world.runs.iter().find(|run| run.program == "docker").unwrap();
    assert_eq!(login.input, Some(b"secret\n".to_vec()));
    for run in &world.runs {
        if run.args.contains(&"--profile".to_string()) {
            assert_eq!(
                run.unset,
                ["AWS_ACCESS_KEY_ID", "AWS_SECRET_ACCESS_KEY", "AWS_SESSION_TOKEN"]
            );
        }
    }
}

#[test]
fn a_later_run_finds_the_profile_that_was_chosen() {
    let mut world = World::new();
    assert_eq!(world.run(switch_to(Some("legacy"))).0, Ok(()));
    let hooked = Environment {
        aws_profile: Some(String::new()),
        ..environment()
    };
    assert_eq!(
        world.run_in(command(CliCommand::Current, false), hooked),
        (Ok(()), vec![Line::Out("legacy".into())])
    );
    let written = match world.read(STATE.as_bytes()) {
        FileRead::Contents(contents) => contents,
        _ => String::new(),
    };
    assert_eq!(render_state(&parse_state(&written)), written);
}

#[test]
fn expired_credentials_are_renewed_by_a_sign_in() {
    let mut world = World::new();
    world.expired = true;
    let (result, said) = world.run(switch_to(Some("dev")));
    assert_eq!(result, Ok(()));
    assert_eq!(
        texts(&said)[..2],
        [
            "auth: credentials for dev need refreshing",
            "auth: opening AWS sign-in for dev…",
        ]
    );
    assert_eq!(world.ran("aws", "sso login --profile dev"), 1);
    assert_eq!(world.ran("aws", "sts get-caller-identity --output json"), 2);
    assert_eq!(world.state().current.as_deref(), Some("dev"));
}

#[test]
fn a_switch_that_cannot_sign_in_is_not_remembered() {
    let mut world = World::new();
    world.expired = true;
    world.sign_in = false;
    let first = "AWS credential check failed: credentials for 'dev' expired; run `awswap login dev`";
    assert_eq!(
        world.run(switch_to(Some("dev"))).0,
        Err(format!(
            "credentials are unavailable ({first}); AWS login failed with exit status: 1"
        ))
    );
    assert_eq!(world.state(), State::default());
    let (result, _) = world.run(switch_to(Some("prod")));
    assert!(result.unwrap_err().ends_with("refresh its credentials manually"));
    assert_eq!(world.state(), State::default());
}

#[test]
fn a_switch_outlives_a_failed_registry_login() {
    let mut world = World::new();
    let mut cli = switch_to(Some("dev"));
    cli.options.registries = vec!["denied.example.com".into(), "z.example.com".into()];
    let terminal = Environment {
        output_terminal: true,
        shell_hook: false,
        ..environment()
    };
    let (result, said) = world.run_in(cli, terminal);
    assert_eq!(result, Ok(()));
    assert_eq!(
        texts(&said),
        [
            "✓ Selected dev  123456789012  us-east-1  Developer/test",
            "✓ Docker  denied.example.com",
            "✓ Docker  z.example.com",
            "✓ Helm    z.example.com",
            "warning: helm login to denied.example.com failed: access denied",
            "AWS profile is selected; retry with `awswap login`.",
            "tip: shell unchanged; run eval \"$(awswap init zsh)\" once to activate future selections",
        ]
    );
    assert_eq!(world.state().current.as_deref(), Some("dev"));
}

#[test]
fn registries_are_left_alone_where_they_are_not_wanted() {
    let mut world = World::new();
    let mut cli = switch_to(Some("dev"));
    cli.options.no_ecr = true;
    assert_eq!(world.run(cli).0, Ok(()));
    assert_eq!(world.ran("docker", ""), 0);
    let off = Environment {
        no_ecr: Some("yes".into()),
        ..environment()
    };
    assert_eq!(world.run_in(switch_to(Some("dev")), off).0, Ok(()));
    let bare = Environment {
        docker: false,
        helm: false,
        ..environment()
    };
    let (result, said) = world.run_in(switch_to(Some("dev")), bare);
    assert_eq!(result, Ok(()));
    assert_eq!(
        texts(&said)[1],
        "warning: Docker and Helm are not installed; skipped ECR login"
    );
    assert_eq!(world.ran("aws", "ecr"), 0);
}

#[test]
fn helm_is_asked_for_its_configuration_where_nobody_says() {
    let mut world = World::new();
    world.write(
        "/asked.json",
        r#"{"credHelpers":{"registry.example.com":"ecr-login"}}"#,
    );
    let mut asking = environment();
    asking.places.helm_registry_config = None;
    asking.docker = false;
    let (result, said) = world.run_in(login_to(&["registry.example.com"]), asking);
    assert_eq!(result, Ok(()));
    assert_eq!(world.ran("helm", "env"), 1);
    assert!(texts(&said).contains(&"✓ Helm    registry.example.com  (ecr-login)"));
}

#[test]
fn a_missing_helper_is_a_failed_login() {
    let mut world = World::new();
    world.write(DOCKER, r#"{"credsStore":"ecr-login"}"#);
    let missing = Environment {
        credential_helper: false,
        helm: false,
        ..environment()
    };
    assert_eq!(
        world.run_in(login_to(&["registry.example.com"]), missing.clone()).0,
        Err("'docker-credential-ecr-login' was not found in PATH".into())
    );
    assert_eq!(world.ran("docker", "login"), 0);
    world.write(DOCKER, "{");
    assert!(
        world
            .run_in(login_to(&["registry.example.com"]), missing)
            .0
            .unwrap_err()
            .starts_with("could not parse /docker/config.json: ")
    );
}

#[test]
fn a_profile_is_chosen_from_the_list() {
    let mut world = World::new();
    world.write(STATE, "current=prod\nprevious=legacy\n");
    let asking = Environment {
        input_terminal: true,
        error_terminal: true,
        ..environment()
    };
    world.choice = Ok(2);
    assert_eq!(world.run_in(switch_to(None), asking.clone()).0, Ok(()));
    assert_eq!(world.state().current.as_deref(), Some("dev"));
    world.choice = Err(SelectionFailure::Canceled);
    assert_eq!(
        world.run_in(switch_to(None), asking.clone()).0,
        Err(String::new())
    );
    world.choice = Err(SelectionFailure::Other("broken".into()));
    assert_eq!(
        world.run_in(switch_to(None), asking.clone()).0,
        Err("could not read selection: broken".into())
    );
    let mut session = run(switch_to(None), asking);
    while !matches!(session.action, Action::Ask(_)) {
        let reply = match &session.action {
            Action::Read(path) => Reply::File(world.read(path)),
            _ => Reply::Ran(Err(RunFailure::Start("missing".into()))),
        };
        session.resume(reply);
    }
    session.resume(Reply::Chosen(Ok(99)));
    assert_eq!(session.step, Step::Choosing);
    session.resume(Reply::File(FileRead::Missing));
    assert_eq!(session.step, Step::Choosing);
}

#[test]
fn a_state_that_cannot_be_written_ends_the_switch() {
    let mut world = World::new();
    world.unsaved = Some(SaveFailure::Create("read-only".into()));
    let (result, said) = world.run(switch_to(Some("dev")));
    assert_eq!(result, Err("could not create /state: read-only".into()));
    assert!(said.is_empty());
    assert_eq!(world.ran("docker", ""), 0);
}

#[test]
fn a_run_needs_its_surroundings() {
    let mut world = World::new();
    let without_aws = Environment {
        aws: false,
        ..environment()
    };
    for cli in [
        switch_to(Some("dev")),
        switch_to(Some("-")),
        login_to(&[]),
        command(CliCommand::Status { profile: None }, false),
    ] {
        assert_eq!(
            world.run_in(cli, without_aws.clone()).0,
            Err("'aws' was not found in PATH".into())
        );
    }
    assert!(world.runs.is_empty());
    let homeless = Environment {
        places: Places::default(),
        ..environment()
    };
    assert_eq!(
        world.run_in(command(CliCommand::Current, false), homeless).0,
        Err("could not determine the state directory; set AWSWAP_HOME".into())
    );
    assert_eq!(
        world.run(switch_to(Some("-"))).0,
        Err("no previous AWS profile".into())
    );
    assert_eq!(
        world.run(switch_to(Some("deb"))).0,
        Err("AWS profile 'deb' was not found; did you mean 'dev'?".into())
    );
    assert_eq!(
        world.run(command(CliCommand::Status { profile: None }, false)).0,
        Err("no active profile; run `awswap <profile>` first".into())
    );
    world.set(CONFIG, FileRead::Failed("denied".into()));
    assert_eq!(
        world
            .run(command(
                CliCommand::Status {
                    profile: Some("dev".into())
                },
                false
            ))
            .0,
        Err("could not read AWS config: denied".into())
    );
}

#[test]
fn a_profile_with_a_command_is_refused() {
    let cli = Cli {
        options: Options::default(),
        profile: Some("dev".into()),
        command: Some(CliCommand::Current),
    };
    let session = run(cli, environment());
    assert_eq!(
        session.action,
        Action::Finish(Err("a profile cannot be used with a command".into()))
    );
}

#[test]
fn scripts_and_the_version_are_printed_at_once() {
    let mut world = World::new();
    assert_eq!(
        world.run(command(CliCommand::Init { shell: Shell::Fish }, false)).1,
        [Line::Script(print_shell_hook(Shell::Fish).into())]
    );
    assert_eq!(
        world
            .run(command(CliCommand::Completions { shell: Shell::Bash }, false))
            .1,
        [Line::Script(print_completions(Shell::Bash).into())]
    );
    assert_eq!(
        world.run(command(CliCommand::Version, false)).1,
        [Line::Out("awswap 0.1.0".into())]
    );
    assert!(world.runs.is_empty());
}

#[test]
fn a_diagnosis_tells_all_checks() {
    let mut world = World::new();
    world.write(STATE, "current=dev\n");
    let (result, said) = world.run(command(CliCommand::Doctor { profile: None }, false));
    assert_eq!(result, Ok(()));
    assert_eq!(
        texts(&said),
        [
            "✓ AWS CLI          aws-cli/2.test",
            "✓ AWS config       /config",
            "✓ Profiles         3 discovered",
            "✓ Active profile   dev",
            "✓ Region           us-east-1",
            "✓ Credentials      123456789012 · Developer/test",
            "✓ Shell hook       active",
            "✓ State            /state/state",
            "✓ ECR clients      Docker, Helm",
            "✓ Docker helper    not configured; awswap will use docker login",
            "✓ Environment      no static credential overrides",
        ]
    );
    world.write(STATE, "");
    let bare = Environment {
        aws: false,
        docker: false,
        helm: false,
        shell_hook: false,
        aws_config: false,
        ..environment()
    };
    let (result, said) = world.run_in(command(CliCommand::Doctor { profile: None }, false), bare);
    assert_eq!(result, Err("doctor found 2 blocking problem(s)".into()));
    assert_eq!(
        texts(&said),
        [
            "✗ AWS CLI          not found in PATH",
            "! AWS config       /config",
            "✓ Profiles         3 discovered",
            "✗ Active profile   none selected",
            "! Shell hook       not active; run eval \"$(awswap init zsh)\"",
            "✓ State            /state/state",
            "! ECR clients      Docker and Helm not found; ECR login is optional",
            "✓ Environment      no static credential overrides",
        ]
    );
}

#[test]
fn quiet_and_json_runs_print_what_they_should() {
    let mut world = World::new();
    let quiet = |profile: &str| Cli {
        options: Options {
            quiet: true,
            ..Options::default()
        },
        ..switch_to(Some(profile))
    };
    assert_eq!(world.run(quiet("dev")), (Ok(()), Vec::new()));
    let mut json = switch_to(Some("dev"));
    json.options.json = true;
    assert_eq!(
        texts(&world.run(json).1),
        [
            r#"{"account":"123456789012","identity":"arn:aws:sts::123456789012:assumed-role/Developer/test","profile":"dev","region":"us-east-1","shell_active":true}"#
        ]
    );
    let mut verbose = switch_to(Some("dev"));
    verbose.options.verbose = true;
    verbose.options.no_ecr = true;
    assert_eq!(
        texts(&world.run(verbose).1),
        [
            "… Validating credentials for dev…",
            "+ aws sts get-caller-identity --output json",
            "✓ Active dev  123456789012  us-east-1  Developer/test",
        ]
    );
}
