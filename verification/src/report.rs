//! What a run prints of its result.
use crate::choice::{
    choices_in, choices_of, print_profile_choice, printed_line, profile_choices, ChoiceModel,
};
use crate::command::{verdict, FileModel, FileRead};
use crate::config::{
    auth_of, config_read, empty_config, profile_read, read_aws_config_contents, read_profile_config,
    ConfigModel, ProfileConfig,
};
use crate::identity::{short_name, Identity, IdentityModel};
use crate::json::{
    fields_of, flag_value, list_value, object_of, object_value, optional_value, rendered,
    text_or_null, text_value, texts_value, tree_of, trees, write_value, Tree,
};
use crate::settings::{
    effective_profile, lines_in, no_line, one_line, profile_in_effect, Environment,
    EnvironmentModel, Line, LineModel, Options, OptionsModel,
};
use crate::shell::{hook_label, shell_hook_label};
use crate::state::{
    contents_of, law_state_round_trip, law_switch_well_formed, state_of, storable, switched,
    well_formed, State, StateModel,
};
use crate::style::{paint, paint_strong, painted, strong, Style};
use crate::text::{
    borrowed, copied_or, is_given, join, joined, or_else, owned, pad, padded, slice_of, slices,
    text_of, texts, trimmed,
};
use vstd::prelude::*;

verus! {

/// The receipt of a switch, as JSON.
pub open spec fn activation_json(
    profile: Seq<char>,
    identity: IdentityModel,
    config: ConfigModel,
    hook: bool,
) -> Tree {
    object_of(
        seq![
            ("profile"@, Tree::Text(profile)),
            ("region"@, text_or_null(config.region)),
            ("account"@, Tree::Text(identity.account)),
            ("identity"@, Tree::Text(identity.arn)),
            ("shell_active"@, Tree::Flag(hook)),
        ],
    )
}

/// What a switch did to the profile: without the hook it only selected it.
pub open spec fn activation_verb(hook: bool) -> Seq<char> {
    if hook {
        "Active"@
    } else {
        "Selected"@
    }
}

/// The receipt of a switch, as text.
pub open spec fn activation_text(
    profile: Seq<char>,
    identity: IdentityModel,
    config: ConfigModel,
    hook: bool,
    color: bool,
) -> Seq<char> {
    strong(Style::Green, "✓"@, color) + " "@ + painted(Style::Dim, activation_verb(hook), color)
        + " "@ + strong(Style::Green, profile, color) + "  "@ + painted(
        Style::Dim,
        identity.account,
        color,
    ) + "  "@ + painted(Style::Dim, or_else(config.region, "no-region"@), color) + "  "@ + painted(
        Style::Dim,
        short_name(identity.arn),
        color,
    )
}

/// The receipt of a switch.
pub open spec fn activation_lines(
    profile: Seq<char>,
    identity: IdentityModel,
    config: ConfigModel,
    options: OptionsModel,
    environment: EnvironmentModel,
) -> Seq<LineModel> {
    if options.json {
        seq![
            LineModel::Out(
                rendered(activation_json(profile, identity, config, environment.shell_hook)),
            ),
        ]
    } else if options.quiet {
        Seq::empty()
    } else {
        seq![
            LineModel::Out(
                activation_text(
                    profile,
                    identity,
                    config,
                    environment.shell_hook,
                    environment.color,
                ),
            ),
        ]
    }
}

fn activation_record(profile: &str, identity: &Identity, config: &ProfileConfig, hook: bool) -> (result:
    String)
    ensures
        result@ == rendered(activation_json(profile@, identity@, config@, hook)),
{
    let mut fields: Vec<(String, serde_json::Value)> = Vec::new();
    fields.push(("profile".to_owned(), text_value(profile)));
    fields.push(("region".to_owned(), optional_value(&config.region)));
    fields.push(("account".to_owned(), text_value(identity.account.as_str())));
    fields.push(("identity".to_owned(), text_value(identity.arn.as_str())));
    fields.push(("shell_active".to_owned(), flag_value(hook)));
    assert(fields_of(fields@) =~= seq![
        ("profile"@, Tree::Text(profile@)),
        ("region"@, text_or_null(config@.region)),
        ("account"@, Tree::Text(identity@.account)),
        ("identity"@, Tree::Text(identity@.arn)),
        ("shell_active"@, Tree::Flag(hook)),
    ]);
    write_value(&object_value(fields))
}

fn activation_receipt(
    profile: &str,
    identity: &Identity,
    config: &ProfileConfig,
    hook: bool,
    color: bool,
) -> (result: String)
    ensures
        result@ == activation_text(profile@, identity@, config@, hook, color),
{
    let verb = if hook {
        "Active"
    } else {
        "Selected"
    };
    let shown_verb = paint(Style::Dim, verb, color);
    let shown_profile = paint_strong(Style::Green, profile, color);
    let shown_account = paint(Style::Dim, identity.account.as_str(), color);
    let region = copied_or(&config.region, "no-region");
    let shown_region = paint(Style::Dim, region.as_str(), color);
    let shown_name = paint(Style::Dim, identity.display_name(), color);
    let mut line = paint_strong(Style::Green, "✓", color);
    line.append(" ");
    line.append(shown_verb.as_str());
    line.append(" ");
    line.append(shown_profile.as_str());
    line.append("  ");
    line.append(shown_account.as_str());
    line.append("  ");
    line.append(shown_region.as_str());
    line.append("  ");
    line.append(shown_name.as_str());
    line
}

/// The receipt of a switch.
pub fn print_activation(
    profile: &str,
    identity: &Identity,
    profile_config: &ProfileConfig,
    options: &Options,
    environment: &Environment,
) -> (result: Vec<Line>)
    ensures
        lines_in(result@) == activation_lines(
            profile@,
            identity@,
            profile_config@,
            options@,
            environment@,
        ),
{
    if options.json {
        one_line(
            Line::Out(activation_record(profile, identity, profile_config, environment.shell_hook)),
        )
    } else if options.quiet {
        no_line()
    } else {
        one_line(
            Line::Out(
                activation_receipt(
                    profile,
                    identity,
                    profile_config,
                    environment.shell_hook,
                    environment.color,
                ),
            ),
        )
    }
}

/// The profile is called active exactly where the shell hook is installed, else
/// only selected.
pub proof fn law_active_needs_hook(hook: bool)
    ensures
        activation_verb(hook) == "Active"@ <==> hook,
        activation_verb(hook) == "Selected"@ <==> !hook,
{
    reveal_strlit("Active");
    reveal_strlit("Selected");
    assert("Active"@[0] != "Selected"@[0]);
}

/// The word for the profile after a switch.
pub open spec fn activation_state(hook: bool) -> Seq<char> {
    if hook {
        "active"@
    } else {
        "selected"@
    }
}

/// The warning that a switch succeeded, but the login to the registries did not.
pub open spec fn warning_lines(error: Seq<char>, environment: EnvironmentModel) -> Seq<LineModel> {
    seq![
        LineModel::Note(strong(Style::Yellow, "warning:"@, environment.color) + " "@ + error),
        LineModel::Note(
            painted(
                Style::Dim,
                "AWS profile is "@ + activation_state(environment.shell_hook)
                    + "; retry with `awswap login`."@,
                environment.color,
            ),
        ),
    ]
}

/// The warning that a switch succeeded, but the login to the registries did not.
pub fn print_ecr_warning(error: &str, environment: &Environment) -> (result: Vec<Line>)
    ensures
        lines_in(result@) == warning_lines(error@, environment@),
{
    let mut warning = paint_strong(Style::Yellow, "warning:", environment.color);
    warning.append(" ");
    warning.append(error);
    let mut advice = "AWS profile is ".to_owned();
    advice.append(
        if environment.shell_hook {
            "active"
        } else {
            "selected"
        },
    );
    advice.append("; retry with `awswap login`.");
    let shown = paint(Style::Dim, advice.as_str(), environment.color);
    let mut result: Vec<Line> = Vec::new();
    result.push(Line::Note(warning));
    result.push(Line::Note(shown));
    assert(lines_in(result@) =~= warning_lines(error@, environment@));
    result
}

/// The receipt of a login, as JSON.
pub open spec fn login_json(profile: Seq<char>, identity: IdentityModel) -> Tree {
    object_of(
        seq![
            ("profile"@, Tree::Text(profile)),
            ("account"@, Tree::Text(identity.account)),
            ("authenticated"@, Tree::Flag(true)),
        ],
    )
}

/// The receipt of a login.
pub open spec fn login_lines(
    profile: Seq<char>,
    identity: IdentityModel,
    options: OptionsModel,
    environment: EnvironmentModel,
) -> Seq<LineModel> {
    if options.json {
        seq![LineModel::Out(rendered(login_json(profile, identity)))]
    } else if options.quiet {
        Seq::empty()
    } else {
        seq![
            LineModel::Out(
                strong(Style::Green, "✓ Authenticated"@, environment.color) + " "@ + painted(
                    Style::Bold,
                    profile,
                    environment.color,
                ),
            ),
        ]
    }
}

/// The receipt of a login.
pub fn print_login(
    profile: &str,
    identity: &Identity,
    options: &Options,
    environment: &Environment,
) -> (result: Vec<Line>)
    ensures
        lines_in(result@) == login_lines(profile@, identity@, options@, environment@),
{
    if options.json {
        let mut fields: Vec<(String, serde_json::Value)> = Vec::new();
        fields.push(("profile".to_owned(), text_value(profile)));
        fields.push(("account".to_owned(), text_value(identity.account.as_str())));
        fields.push(("authenticated".to_owned(), flag_value(true)));
        assert(fields_of(fields@) =~= seq![
            ("profile"@, Tree::Text(profile@)),
            ("account"@, Tree::Text(identity@.account)),
            ("authenticated"@, Tree::Flag(true)),
        ]);
        one_line(Line::Out(write_value(&object_value(fields))))
    } else if options.quiet {
        no_line()
    } else {
        let name = paint(Style::Bold, profile, environment.color);
        let mut line = paint_strong(Style::Green, "✓ Authenticated", environment.color);
        line.append(" ");
        line.append(name.as_str());
        one_line(Line::Out(line))
    }
}

/// A printed list, or the message of why it cannot be printed.
pub open spec fn lines_of_result(result: Result<Vec<Line>, String>) -> Result<
    Seq<LineModel>,
    Seq<char>,
> {
    match result {
        Ok(lines) => Ok(lines_in(lines@)),
        Err(message) => Err(message@),
    }
}

/// What the configuration says of a profile; nothing, where it cannot be read.
pub open spec fn config_or_empty(read: FileModel, profile: Seq<char>) -> ConfigModel {
    match profile_read(read, profile) {
        Ok(config) => config,
        Err(_) => empty_config(),
    }
}

/// A profile of a list, as JSON.
pub open spec fn profile_json(
    profile: Seq<char>,
    state: StateModel,
    current: Option<Seq<char>>,
    read: FileModel,
) -> Tree {
    let config = config_or_empty(read, profile);
    object_of(
        seq![
            ("name"@, Tree::Text(profile)),
            ("current"@, Tree::Flag(current == Some(profile))),
            ("previous"@, Tree::Flag(state.previous == Some(profile))),
            ("region"@, text_or_null(config.region)),
            ("auth"@, Tree::Text(auth_of(config))),
        ],
    )
}

/// A list of profiles, as JSON.
pub open spec fn profiles_json(
    ordered: Seq<Seq<char>>,
    state: StateModel,
    current: Option<Seq<char>>,
    read: FileModel,
) -> Tree {
    Tree::List(ordered.map_values(|profile: Seq<char>| profile_json(profile, state, current, read)))
}

/// A list of profiles, as a table.
pub open spec fn table_lines(choices: Seq<ChoiceModel>, color: bool) -> Seq<LineModel> {
    choices.map_values(|choice: ChoiceModel| LineModel::Out(printed_line(choice, color)))
}

/// A list of profiles, as bare names.
pub open spec fn name_lines(ordered: Seq<Seq<char>>) -> Seq<LineModel> {
    ordered.map_values(|profile: Seq<char>| LineModel::Out(profile))
}

/// Printing a list takes a look at the configuration.
pub open spec fn list_needs_config(options: OptionsModel, environment: EnvironmentModel) -> bool {
    options.json || (environment.output_terminal && !options.quiet)
}

/// A list of profiles, as text: as a table on a terminal where the user did not
/// ask for quiet, and else as bare names.
pub open spec fn text_lines(
    ordered: Seq<Seq<char>>,
    state: StateModel,
    current: Option<Seq<char>>,
    options: OptionsModel,
    environment: EnvironmentModel,
    read: FileModel,
) -> Result<Seq<LineModel>, Seq<char>> {
    if environment.output_terminal && !options.quiet {
        match config_read(read) {
            Ok(contents) => Ok(
                table_lines(choices_of(ordered, state, current, contents), environment.color),
            ),
            Err(message) => Err(message),
        }
    } else {
        Ok(name_lines(ordered))
    }
}

/// A printed list of profiles: as JSON where it was asked for, and else as text.
pub open spec fn listed_lines(
    ordered: Seq<Seq<char>>,
    state: StateModel,
    current: Option<Seq<char>>,
    options: OptionsModel,
    environment: EnvironmentModel,
    read: FileModel,
) -> Result<Seq<LineModel>, Seq<char>> {
    if options.json {
        Ok(seq![LineModel::Out(rendered(profiles_json(ordered, state, current, read)))])
    } else {
        text_lines(ordered, state, current, options, environment, read)
    }
}

fn profile_record(profile: &str, state: &State, current: Option<&str>, read: &FileRead) -> (result:
    serde_json::Value)
    ensures
        tree_of(result) == profile_json(profile@, state@, slice_of(current), read@),
{
    let config = match read_profile_config(read, profile) {
        Ok(config) => config,
        Err(_) => ProfileConfig::default(),
    };
    let mut fields: Vec<(String, serde_json::Value)> = Vec::new();
    fields.push(("name".to_owned(), text_value(profile)));
    fields.push(("current".to_owned(), flag_value(is_given(current, profile))));
    fields.push(("previous".to_owned(), flag_value(is_given(borrowed(&state.previous), profile))));
    fields.push(("region".to_owned(), optional_value(&config.region)));
    fields.push(("auth".to_owned(), text_value(config.auth_label())));
    assert(fields_of(fields@) =~= seq![
        ("name"@, Tree::Text(profile@)),
        ("current"@, Tree::Flag(slice_of(current) == Some(profile@))),
        ("previous"@, Tree::Flag(state@.previous == Some(profile@))),
        ("region"@, text_or_null(config@.region)),
        ("auth"@, Tree::Text(auth_of(config@))),
    ]);
    object_value(fields)
}

/// A list of profiles, as JSON.
pub fn print_profiles_json(
    ordered: &[String],
    state: &State,
    current: Option<&str>,
    read: &FileRead,
) -> (result: String)
    ensures
        result@ == rendered(profiles_json(texts(ordered@), state@, slice_of(current), read@)),
{
    let ghost wanted = texts(ordered@).map_values(
        |profile: Seq<char>| profile_json(profile, state@, slice_of(current), read@),
    );
    let mut values: Vec<serde_json::Value> = Vec::new();
    for i in 0..ordered.len()
        invariant
            wanted == texts(ordered@).map_values(
                |profile: Seq<char>| profile_json(profile, state@, slice_of(current), read@),
            ),
            trees(values@) == wanted.take(i as int),
    {
        let ghost before = trees(values@);
        values.push(profile_record(ordered[i].as_str(), state, current, read));
        assert(trees(values@) =~= before.push(wanted[i as int]));
        assert(wanted.take(i + 1) =~= before.push(wanted[i as int]));
    }
    assert(wanted.take(ordered@.len() as int) =~= wanted);
    write_value(&list_value(values))
}

/// A list of profiles, as a table.
pub fn print_profiles_table(
    ordered: &[String],
    state: &State,
    current: Option<&str>,
    color: bool,
    read: &FileRead,
) -> (result: Result<Vec<Line>, String>)
    ensures
        lines_of_result(result) == match config_read(read@) {
            Ok(contents) => Ok(
                table_lines(
                    choices_of(texts(ordered@), state@, slice_of(current), contents),
                    color,
                ),
            ),
            Err(message) => Err(message),
        },
{
    let contents = match read_aws_config_contents(read) {
        Ok(contents) => contents,
        Err(message) => {
            return Err(message);
        },
    };
    let choices = profile_choices(ordered, state, current, contents.as_str());
    let ghost wanted = table_lines(choices_in(choices@), color);
    let mut lines: Vec<Line> = Vec::new();
    for i in 0..choices.len()
        invariant
            wanted == table_lines(choices_in(choices@), color),
            lines_in(lines@) == wanted.take(i as int),
    {
        let ghost before = lines_in(lines@);
        lines.push(Line::Out(print_profile_choice(&choices[i], color)));
        assert(lines_in(lines@) =~= before.push(wanted[i as int]));
        assert(wanted.take(i + 1) =~= before.push(wanted[i as int]));
    }
    assert(wanted.take(choices@.len() as int) =~= wanted);
    Ok(lines)
}

fn print_names(ordered: &[String]) -> (result: Vec<Line>)
    ensures
        lines_in(result@) == name_lines(texts(ordered@)),
{
    let ghost wanted = name_lines(texts(ordered@));
    let mut lines: Vec<Line> = Vec::new();
    for i in 0..ordered.len()
        invariant
            wanted == name_lines(texts(ordered@)),
            lines_in(lines@) == wanted.take(i as int),
    {
        let ghost before = lines_in(lines@);
        lines.push(Line::Out(ordered[i].clone()));
        assert(lines_in(lines@) =~= before.push(wanted[i as int]));
        assert(wanted.take(i + 1) =~= before.push(wanted[i as int]));
    }
    assert(wanted.take(ordered@.len() as int) =~= wanted);
    lines
}

/// A list of profiles, as text.
pub fn print_profiles_text(
    ordered: &[String],
    state: &State,
    current: Option<&str>,
    options: &Options,
    environment: &Environment,
    read: &FileRead,
) -> (result: Result<Vec<Line>, String>)
    ensures
        lines_of_result(result) == text_lines(
            texts(ordered@),
            state@,
            slice_of(current),
            options@,
            environment@,
            read@,
        ),
{
    if environment.output_terminal && !options.quiet {
        return print_profiles_table(ordered, state, current, environment.color, read);
    }
    Ok(print_names(ordered))
}

/// A printed list of profiles.
pub fn print_profiles(
    ordered: &[String],
    state: &State,
    current: Option<&str>,
    options: &Options,
    environment: &Environment,
    read: &FileRead,
) -> (result: Result<Vec<Line>, String>)
    ensures
        lines_of_result(result) == listed_lines(
            texts(ordered@),
            state@,
            slice_of(current),
            options@,
            environment@,
            read@,
        ),
{
    if options.json {
        return Ok(one_line(Line::Out(print_profiles_json(ordered, state, current, read))));
    }
    print_profiles_text(ordered, state, current, options, environment, read)
}

/// The profile in effect, as it is printed, or the message that there is none.
pub open spec fn current_lines(
    state: StateModel,
    options: OptionsModel,
    environment: EnvironmentModel,
) -> Result<Seq<LineModel>, Seq<char>> {
    match profile_in_effect(environment, state) {
        Some(profile) => if options.json {
            Ok(
                seq![
                    LineModel::Out(
                        rendered(object_of(seq![("profile"@, Tree::Text(profile))])),
                    ),
                ],
            )
        } else {
            Ok(seq![LineModel::Out(profile)])
        },
        None => Err("no active AWS profile"@),
    }
}

/// The profile in effect, as it is printed.
pub fn current_profile(state: &State, options: &Options, environment: &Environment) -> (result: Result<
    Vec<Line>,
    String,
>)
    ensures
        lines_of_result(result) == current_lines(state@, options@, environment@),
{
    match effective_profile(environment, state) {
        Some(profile) => if options.json {
            let mut fields: Vec<(String, serde_json::Value)> = Vec::new();
            fields.push(("profile".to_owned(), text_value(profile.as_str())));
            assert(fields_of(fields@) =~= seq![("profile"@, Tree::Text(profile@))]);
            Ok(one_line(Line::Out(write_value(&object_value(fields)))))
        } else {
            Ok(one_line(Line::Out(profile)))
        },
        None => Err("no active AWS profile".to_owned()),
    }
}

/// Once a switch was written, a later run reads it back: where the environment
/// names no profile, the one in effect is the one that was chosen.
pub proof fn law_switch_lasts(
    state: StateModel,
    profile: Seq<char>,
    options: OptionsModel,
    environment: EnvironmentModel,
)
    requires
        well_formed(state),
        storable(profile),
        environment.aws_profile matches Some(name) ==> trimmed(name).len() == 0,
        !options.json,
    ensures
        current_lines(state_of(contents_of(switched(state, profile))), options, environment) == Ok::<
            _,
            Seq<char>,
        >(seq![LineModel::Out(profile)]),
{
    law_switch_well_formed(state, profile);
    law_state_round_trip(switched(state, profile));
}

/// What there is to say of a profile whose credentials are valid.
#[derive(Debug, PartialEq, Eq)]
pub struct StatusReport {
    pub profile: String,
    pub config: ProfileConfig,
    pub identity: Identity,
    pub clients: Vec<&'static str>,
    pub shell_hook: bool,
}

pub struct StatusModel {
    pub profile: Seq<char>,
    pub config: ConfigModel,
    pub identity: IdentityModel,
    pub clients: Seq<Seq<char>>,
    pub shell_hook: bool,
}

impl View for StatusReport {
    type V = StatusModel;

    open spec fn view(&self) -> StatusModel {
        StatusModel {
            profile: self.profile@,
            config: self.config@,
            identity: self.identity@,
            clients: slices(self.clients@),
            shell_hook: self.shell_hook,
        }
    }
}

/// The registry clients that are installed, by name.
pub open spec fn client_names(docker: bool, helm: bool) -> Seq<Seq<char>> {
    if docker && helm {
        seq!["Docker"@, "Helm"@]
    } else if docker {
        seq!["Docker"@]
    } else if helm {
        seq!["Helm"@]
    } else {
        Seq::empty()
    }
}

/// The registry clients that are installed, by name.
pub fn installed_client_names(docker: bool, helm: bool) -> (result: Vec<&'static str>)
    ensures
        slices(result@) == client_names(docker, helm),
{
    let mut names: Vec<&'static str> = Vec::new();
    if docker {
        names.push("Docker");
    }
    if helm {
        names.push("Helm");
    }
    assert(slices(names@) =~= client_names(docker, helm));
    names
}

/// The report on a profile.
pub open spec fn status_of(
    profile: Seq<char>,
    config: ConfigModel,
    identity: IdentityModel,
    environment: EnvironmentModel,
) -> StatusModel {
    StatusModel {
        profile,
        config,
        identity,
        clients: client_names(environment.docker, environment.helm),
        shell_hook: environment.shell_hook,
    }
}

/// The report on a profile.
pub fn build_status_report(
    profile: String,
    config: ProfileConfig,
    identity: Identity,
    environment: &Environment,
) -> (result: StatusReport)
    ensures
        result@ == status_of(profile@, config@, identity@, environment@),
{
    StatusReport {
        profile,
        config,
        identity,
        clients: installed_client_names(environment.docker, environment.helm),
        shell_hook: environment.shell_hook,
    }
}

/// The report, as JSON.
pub open spec fn status_json(report: StatusModel) -> Tree {
    object_of(
        seq![
            ("profile"@, Tree::Text(report.profile)),
            ("region"@, text_or_null(report.config.region)),
            ("account"@, Tree::Text(report.identity.account)),
            ("arn"@, Tree::Text(report.identity.arn)),
            ("identity"@, Tree::Text(short_name(report.identity.arn))),
            ("credentials"@, Tree::Text("valid"@)),
            ("shell_hook"@, Tree::Flag(report.shell_hook)),
            (
                "ecr_clients"@,
                Tree::List(report.clients.map_values(|name: Seq<char>| Tree::Text(name))),
            ),
        ],
    )
}

/// A line of the report: what it is about, and what there is to say.
pub open spec fn status_line(name: Seq<char>, value: Seq<char>) -> LineModel {
    LineModel::Out(padded(name, 14) + " "@ + value)
}

/// The names of clients, in words.
pub open spec fn clients_label(clients: Seq<Seq<char>>) -> Seq<char> {
    if clients.len() == 0 {
        "none"@
    } else {
        joined(clients, ", "@)
    }
}

/// The report, as text.
pub open spec fn status_text(report: StatusModel, color: bool) -> Seq<LineModel> {
    seq![
        status_line("Profile"@, strong(Style::Green, report.profile, color)),
        status_line("Region"@, or_else(report.config.region, "not configured"@)),
        status_line("Account"@, report.identity.account),
        status_line("Identity"@, short_name(report.identity.arn)),
        status_line("Credentials"@, painted(Style::Green, "valid"@, color)),
        status_line("Shell hook"@, hook_label(report.shell_hook)),
        status_line("ECR clients"@, clients_label(report.clients)),
    ]
}

/// The report, as it is printed.
pub open spec fn status_lines(report: StatusModel, options: OptionsModel, color: bool) -> Seq<
    LineModel,
> {
    if options.json {
        seq![LineModel::Out(rendered(status_json(report)))]
    } else if options.quiet {
        Seq::empty()
    } else {
        status_text(report, color)
    }
}

/// The names of clients, in words.
pub fn client_names_label(clients: &[&str]) -> (result: String)
    ensures
        result@ == clients_label(slices(clients@)),
{
    if clients.len() == 0 {
        "none".to_owned()
    } else {
        let names = owned(clients);
        join(names.as_slice(), ", ")
    }
}

fn report_line(name: &str, value: &str) -> (result: Line)
    ensures
        result@ == status_line(name@, value@),
{
    let mut line = pad(name, 14);
    line.append(" ");
    line.append(value);
    Line::Out(line)
}

/// The report, as JSON.
pub fn print_status_json(report: &StatusReport) -> (result: String)
    ensures
        result@ == rendered(status_json(report@)),
{
    let clients = texts_value(report.clients.as_slice());
    assert(report.clients@.map_values(|text: &str| Tree::Text(text@)) =~= slices(
        report.clients@,
    ).map_values(|name: Seq<char>| Tree::Text(name)));
    let mut fields: Vec<(String, serde_json::Value)> = Vec::new();
    fields.push(("profile".to_owned(), text_value(report.profile.as_str())));
    fields.push(("region".to_owned(), optional_value(&report.config.region)));
    fields.push(("account".to_owned(), text_value(report.identity.account.as_str())));
    fields.push(("arn".to_owned(), text_value(report.identity.arn.as_str())));
    fields.push(("identity".to_owned(), text_value(report.identity.display_name())));
    fields.push(("credentials".to_owned(), text_value("valid")));
    fields.push(("shell_hook".to_owned(), flag_value(report.shell_hook)));
    fields.push(("ecr_clients".to_owned(), clients));
    assert(fields_of(fields@) =~= seq![
        ("profile"@, Tree::Text(report@.profile)),
        ("region"@, text_or_null(report@.config.region)),
        ("account"@, Tree::Text(report@.identity.account)),
        ("arn"@, Tree::Text(report@.identity.arn)),
        ("identity"@, Tree::Text(short_name(report@.identity.arn))),
        ("credentials"@, Tree::Text("valid"@)),
        ("shell_hook"@, Tree::Flag(report@.shell_hook)),
        (
            "ecr_clients"@,
            Tree::List(report@.clients.map_values(|name: Seq<char>| Tree::Text(name))),
        ),
    ]);
    write_value(&object_value(fields))
}

/// The report, as text.
pub fn print_status_text(report: &StatusReport, color: bool) -> (result: Vec<Line>)
    ensures
        lines_in(result@) == status_text(report@, color),
{
    let profile = paint_strong(Style::Green, report.profile.as_str(), color);
    let region = copied_or(&report.config.region, "not configured");
    let valid = paint(Style::Green, "valid", color);
    let clients = client_names_label(report.clients.as_slice());
    let mut lines: Vec<Line> = Vec::new();
    lines.push(report_line("Profile", profile.as_str()));
    lines.push(report_line("Region", region.as_str()));
    lines.push(report_line("Account", report.identity.account.as_str()));
    lines.push(report_line("Identity", report.identity.display_name()));
    lines.push(report_line("Credentials", valid.as_str()));
    lines.push(report_line("Shell hook", shell_hook_label(report.shell_hook)));
    lines.push(report_line("ECR clients", clients.as_str()));
    assert(lines_in(lines@) =~= status_text(report@, color));
    lines
}

/// The report, as it is printed.
pub fn print_status(report: &StatusReport, options: &Options, color: bool) -> (result: Vec<Line>)
    ensures
        lines_in(result@) == status_lines(report@, options@, color),
{
    if options.json {
        one_line(Line::Out(print_status_json(report)))
    } else if options.quiet {
        no_line()
    } else {
        print_status_text(report, color)
    }
}

/// How a run ends: whether it succeeded, and what it says of an error.
#[derive(Debug, Clone, PartialEq, Eq)]
pub struct Exit {
    pub success: bool,
    pub message: Option<String>,
}

/// How a run ends: the message of its error, if it has one to tell.
pub open spec fn parting(result: Result<(), Seq<char>>, color: bool) -> Option<Seq<char>> {
    match result {
        Ok(_) => None,
        Err(error) => if error.len() == 0 {
            None
        } else {
            Some(strong(Style::Red, "error:"@, color) + " "@ + error)
        },
    }
}

/// A run that has succeeded, or that the user left, ends without a word; any other
/// tells its error.
pub proof fn law_parting(error: Seq<char>)
    ensures
        parting(Ok(()), false) is None,
        error.len() == 0 ==> parting(Err(error), false) is None,
        error.len() > 0 ==> parting(Err(error), false) == Some("error: "@ + error),
{
    reveal_strlit("error: ");
    reveal_strlit("error:");
    reveal_strlit(" ");
    assert("error:"@ + " "@ =~= "error: "@);
}

/// How a run ends. An error without a message is none: the user wanted it so.
pub fn exit_code(result: &Result<(), String>, color: bool) -> (exit: Exit)
    ensures
        match *result {
            Ok(_) => exit.success && exit.message is None,
            Err(error) => if error@.len() == 0 {
                exit.success && exit.message is None
            } else {
                &&& !exit.success
                &&& exit.message matches Some(message)
                &&& message@ == strong(Style::Red, "error:"@, color) + " "@ + error@
            },
        },
        text_of(exit.message) == parting(verdict(*result), color),
        exit.success <==> exit.message is None,
{
    match result {
        Ok(_) => Exit { success: true, message: None },
        Err(error) => {
            if error.as_str().is_empty() {
                return Exit { success: true, message: None };
            }
            let mut message = paint_strong(Style::Red, "error:", color);
            message.append(" ");
            message.append(error.as_str());
            Exit { success: false, message: Some(message) }
        },
    }
}

} // verus!
