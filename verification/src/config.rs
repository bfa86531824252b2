//! The AWS configuration files: which profiles they name, and what they say of
//! one profile.
use crate::command::{outcome, CommandOutput, FileModel, FileRead, OutputModel};
use crate::ordered::{collect, law_sorted, lemma_sorted, sorted};
use crate::text::{
    after_prefix, contains, copied_text, cut, keep_nonblank, lines, lines_of, mentions, nonblank,
    pieces, same, slice_of, split, split_once, starts_with, strip_prefix, text_of, texts, trim,
    trimmed,
};
use crate::utf8::{decode, lossy};
use vstd::prelude::*;

verus! {

/// What the configuration says of one profile.
#[derive(Debug, Clone, PartialEq, Eq)]
pub struct ProfileConfig {
    pub region: Option<String>,
    pub account_id: Option<String>,
    pub role_name: Option<String>,
    pub source_profile: Option<String>,
    pub is_sso: bool,
    pub is_login: bool,
}

/// A `ProfileConfig` as mathematical values.
pub struct ConfigModel {
    pub region: Option<Seq<char>>,
    pub account_id: Option<Seq<char>>,
    pub role_name: Option<Seq<char>>,
    pub source_profile: Option<Seq<char>>,
    pub is_sso: bool,
    pub is_login: bool,
}

impl View for ProfileConfig {
    type V = ConfigModel;

    open spec fn view(&self) -> ConfigModel {
        ConfigModel {
            region: text_of(self.region),
            account_id: text_of(self.account_id),
            role_name: text_of(self.role_name),
            source_profile: text_of(self.source_profile),
            is_sso: self.is_sso,
            is_login: self.is_login,
        }
    }
}

pub open spec fn empty_config() -> ConfigModel {
    ConfigModel {
        region: None,
        account_id: None,
        role_name: None,
        source_profile: None,
        is_sso: false,
        is_login: false,
    }
}

impl Default for ProfileConfig {
    fn default() -> (result: Self)
        ensures
            result@ == empty_config(),
    {
        ProfileConfig {
            region: None,
            account_id: None,
            role_name: None,
            source_profile: None,
            is_sso: false,
            is_login: false,
        }
    }
}

/// How a profile signs in, in a word.
pub open spec fn auth_of(config: ConfigModel) -> Seq<char> {
    if config.is_sso {
        "SSO"@
    } else if config.is_login {
        "login"@
    } else if config.source_profile is Some || config.role_name is Some {
        "role"@
    } else {
        "credentials"@
    }
}

impl ProfileConfig {
    /// The same once more.
    pub fn copy(&self) -> (result: ProfileConfig)
        ensures
            result@ == self@,
    {
        ProfileConfig {
            region: copied_text(&self.region),
            account_id: copied_text(&self.account_id),
            role_name: copied_text(&self.role_name),
            source_profile: copied_text(&self.source_profile),
            is_sso: self.is_sso,
            is_login: self.is_login,
        }
    }

    /// How the profile signs in, in a word.
    pub fn auth_label(&self) -> (result: &'static str)
        ensures
            result@ == auth_of(self@),
    {
        if self.is_sso {
            "SSO"
        } else if self.is_login {
            "login"
        } else if self.source_profile.is_some() || self.role_name.is_some() {
            "role"
        } else {
            "credentials"
        }
    }
}

/// The name between the brackets, where the line is a section header.
pub open spec fn section_name(line: Seq<char>) -> Option<Seq<char>> {
    let bare = trimmed(line);
    if bare.len() >= 2 && bare.first() == '[' && bare.last() == ']' {
        Some(trimmed(bare.subrange(1, bare.len() - 1)))
    } else {
        None
    }
}

/// The profile that a section describes, if it describes one.
pub open spec fn section_profile(section: Seq<char>) -> Option<Seq<char>> {
    if section == "default"@ {
        Some(section)
    } else {
        match after_prefix(section, "profile "@) {
            Some(profile) => Some(trimmed(profile)),
            None => if !"sso-session "@.is_prefix_of(section) && !"services "@.is_prefix_of(section)
                && !contains(section, " "@) {
                Some(section)
            } else {
                None
            },
        }
    }
}

/// The profile that a line introduces, if it introduces one.
pub open spec fn line_profile(line: Seq<char>) -> Option<Seq<char>> {
    match section_name(line) {
        Some(section) => section_profile(section),
        None => None,
    }
}

/// The profiles that the lines introduce, in their order.
pub open spec fn profiles_in(lines: Seq<Seq<char>>) -> Seq<Seq<char>>
    decreases lines.len(),
{
    if lines.len() == 0 {
        Seq::empty()
    } else {
        let earlier = profiles_in(lines.drop_last());
        match line_profile(lines.last()) {
            Some(profile) => earlier.push(profile),
            None => earlier,
        }
    }
}

/// The header under which a profile's settings stand.
pub open spec fn section_of(profile: Seq<char>) -> Seq<char> {
    if profile == "default"@ {
        "default"@
    } else {
        "profile "@ + profile
    }
}

/// The section that is open after the lines: that of the last header.
pub open spec fn open_section(lines: Seq<Seq<char>>) -> Seq<char>
    decreases lines.len(),
{
    if lines.len() == 0 {
        Seq::empty()
    } else {
        match section_name(lines.last()) {
            Some(section) => section,
            None => open_section(lines.drop_last()),
        }
    }
}

/// The account in a role's name: the fifth of its parts.
pub open spec fn arn_account(arn: Seq<char>) -> Option<Seq<char>> {
    let parts = pieces(arn, ':');
    if parts.len() > 4 && parts[4].len() > 0 {
        Some(parts[4])
    } else {
        None
    }
}

/// What follows the last slash of a role's name.
pub open spec fn arn_role(arn: Seq<char>) -> Option<Seq<char>> {
    let last = pieces(arn, '/').last();
    if last.len() > 0 {
        Some(last)
    } else {
        None
    }
}

pub open spec fn is_basic_key(key: Seq<char>) -> bool {
    key == "region"@ || key == "sso_account_id"@ || key == "source_profile"@
}

pub open spec fn is_role_key(key: Seq<char>) -> bool {
    key == "role_name"@ || key == "role_arn"@
}

pub open spec fn with_basic(config: ConfigModel, key: Seq<char>, value: Seq<char>) -> ConfigModel {
    if key == "region"@ {
        ConfigModel { region: Some(value), ..config }
    } else if key == "sso_account_id"@ {
        ConfigModel { account_id: Some(value), ..config }
    } else {
        ConfigModel { source_profile: Some(value), ..config }
    }
}

pub open spec fn with_arn(config: ConfigModel, arn: Seq<char>) -> ConfigModel {
    ConfigModel { account_id: arn_account(arn), role_name: arn_role(arn), ..config }
}

pub open spec fn with_role(config: ConfigModel, key: Seq<char>, value: Seq<char>) -> ConfigModel {
    if key == "role_name"@ {
        ConfigModel { role_name: Some(value), ..config }
    } else {
        with_arn(config, value)
    }
}

pub open spec fn with_auth(config: ConfigModel, key: Seq<char>) -> ConfigModel {
    if key == "sso_session"@ || key == "sso_start_url"@ {
        ConfigModel { is_sso: true, ..config }
    } else if key == "login_session"@ {
        ConfigModel { is_login: true, ..config }
    } else {
        config
    }
}

/// The configuration after one setting.
pub open spec fn with_property(config: ConfigModel, key: Seq<char>, value: Seq<char>) -> ConfigModel {
    if is_basic_key(key) {
        with_basic(config, key, value)
    } else if is_role_key(key) {
        with_role(config, key, value)
    } else {
        with_auth(config, key)
    }
}

/// The configuration after one line of its section: a key, an equals sign and
/// a value that is not blank; any other line changes nothing.
pub open spec fn with_line(config: ConfigModel, line: Seq<char>) -> ConfigModel {
    match split_once(line, "="@) {
        Some((key, value)) => if trimmed(value).len() == 0 {
            config
        } else {
            with_property(config, trimmed(key), trimmed(value))
        },
        None => config,
    }
}

/// What the lines say of the section: its own lines, one after the other.
pub open spec fn config_in(lines: Seq<Seq<char>>, section: Seq<char>) -> ConfigModel
    decreases lines.len(),
{
    if lines.len() == 0 {
        empty_config()
    } else {
        let earlier = config_in(lines.drop_last(), section);
        if section_name(lines.last()) is None && open_section(lines.drop_last()) == section {
            with_line(earlier, trimmed(lines.last()))
        } else {
            earlier
        }
    }
}

/// What the contents of the configuration file say of a profile.
pub open spec fn config_of(contents: Seq<char>, profile: Seq<char>) -> ConfigModel {
    config_in(lines_of(contents), section_of(profile))
}

/// The name between the brackets, where the line is a section header.
pub fn parse_section<'a>(line: &'a str) -> (result: Option<&'a str>)
    ensures
        slice_of(result) == section_name(line@),
{
    let bare = trim(line);
    let length = bare.unicode_len();
    if length >= 2 && bare.get_char(0) == '[' && bare.get_char(length - 1) == ']' {
        Some(trim(bare.substring_char(1, length - 1)))
    } else {
        None
    }
}

/// The profile that a line introduces, if it introduces one.
fn parse_line_profile(line: &str) -> (result: Option<String>)
    ensures
        text_of(result) == line_profile(line@),
{
    let section = match parse_section(line) {
        Some(section) => section,
        None => return None,
    };
    if same(section, "default") {
        return Some(section.to_owned());
    }
    match strip_prefix(section, "profile ") {
        Some(profile) => Some(trim(profile).to_owned()),
        None => if !starts_with(section, "sso-session ") && !starts_with(section, "services ")
            && !mentions(section, " ") {
            Some(section.to_owned())
        } else {
            None
        },
    }
}

/// The profiles that a configuration or credentials file names.
pub fn parse_profiles(contents: &str) -> (result: Vec<String>)
    ensures
        texts(result@) == sorted(profiles_in(lines_of(contents@))),
{
    let all = lines(contents);
    let mut found: Vec<String> = Vec::new();
    for i in 0..all.len()
        invariant
            texts(found@) == profiles_in(texts(all@).take(i as int)),
    {
        let ghost before = texts(found@);
        let ghost taken = texts(all@).take(i + 1);
        assert(taken.drop_last() =~= texts(all@).take(i as int));
        match parse_line_profile(all[i].as_str()) {
            Some(profile) => {
                found.push(profile);
                assert(texts(found@) =~= before.push(profile@));
            },
            None => {},
        }
    }
    assert(texts(all@).take(all@.len() as int) =~= texts(all@));
    collect(found)
}

/// The profiles that the AWS CLI lists.
pub fn parse_profile_list(output: &[u8]) -> (result: Vec<String>)
    ensures
        texts(result@) == sorted(nonblank(lines_of(lossy(output@)))),
{
    let text = decode(output);
    profile_names(text.as_str())
}

/// The profiles in a list with one name on each line.
pub fn profile_names(text: &str) -> (result: Vec<String>)
    ensures
        texts(result@) == sorted(nonblank(lines_of(text@))),
{
    let all = lines(text);
    collect(keep_nonblank(all.as_slice()))
}

/// The header under which a profile's settings stand.
pub fn profile_section(profile: &str) -> (result: String)
    ensures
        result@ == section_of(profile@),
{
    if same(profile, "default") {
        "default".to_owned()
    } else {
        let mut section = "profile ".to_owned();
        section.append(profile);
        section
    }
}

/// What the contents of the configuration file say of a profile.
pub fn parse_profile_config(contents: &str, profile: &str) -> (result: ProfileConfig)
    ensures
        result@ == config_of(contents@, profile@),
{
    let target = profile_section(profile);
    let all = lines(contents);
    let mut section = String::new();
    let mut config = ProfileConfig::default();
    for i in 0..all.len()
        invariant
            target@ == section_of(profile@),
            section@ == open_section(texts(all@).take(i as int)),
            config@ == config_in(texts(all@).take(i as int), target@),
    {
        let ghost taken = texts(all@).take(i + 1);
        assert(taken.drop_last() =~= texts(all@).take(i as int));
        let line = trim(all[i].as_str());
        match parse_section(all[i].as_str()) {
            Some(name) => {
                section = name.to_owned();
            },
            None => {
                if same(section.as_str(), target.as_str()) {
                    apply_profile_line(&mut config, line);
                }
            },
        }
    }
    assert(texts(all@).take(all@.len() as int) =~= texts(all@));
    config
}

/// Takes over one line of the profile's section.
pub fn apply_profile_line(config: &mut ProfileConfig, line: &str)
    ensures
        final(config)@ == with_line(old(config)@, line@),
{
    match cut(line, "=") {
        Some((key, rest)) => {
            let value = trim(rest);
            if !value.is_empty() {
                apply_profile_property(config, trim(key), value);
            }
        },
        None => {},
    }
}

/// Takes over one setting.
pub fn apply_profile_property(config: &mut ProfileConfig, key: &str, value: &str)
    ensures
        final(config)@ == with_property(old(config)@, key@, value@),
{
    if apply_basic_profile_property(config, key, value) {
        return ;
    }
    if apply_role_profile_property(config, key, value) {
        return ;
    }
    apply_auth_profile_property(config, key);
}

/// Takes over a region, an account or a source profile; says whether the key
/// is one of these.
pub fn apply_basic_profile_property(config: &mut ProfileConfig, key: &str, value: &str) -> (result:
    bool)
    ensures
        result == is_basic_key(key@),
        final(config)@ == if result {
            with_basic(old(config)@, key@, value@)
        } else {
            old(config)@
        },
{
    if same(key, "region") {
        config.region = Some(value.to_owned());
        true
    } else if same(key, "sso_account_id") {
        config.account_id = Some(value.to_owned());
        true
    } else if same(key, "source_profile") {
        config.source_profile = Some(value.to_owned());
        true
    } else {
        false
    }
}

/// Takes over a role; says whether the key is that of one.
pub fn apply_role_profile_property(config: &mut ProfileConfig, key: &str, value: &str) -> (result:
    bool)
    ensures
        result == is_role_key(key@),
        final(config)@ == if result {
            with_role(old(config)@, key@, value@)
        } else {
            old(config)@
        },
{
    if same(key, "role_name") {
        config.role_name = Some(value.to_owned());
        true
    } else if same(key, "role_arn") {
        apply_role_arn(config, value);
        true
    } else {
        false
    }
}

/// Takes over the account and the role that a role's full name holds.
pub fn apply_role_arn(config: &mut ProfileConfig, value: &str)
    ensures
        final(config)@ == with_arn(old(config)@, value@),
{
    let parts = split(value, ':');
    assert(forall|i: int| 0 <= i < parts@.len() ==> texts(parts@)[i] == parts@[i]@);
    config.account_id = if parts.len() > 4 && !parts[4].as_str().is_empty() {
        Some(parts[4].clone())
    } else {
        None
    };
    let names = split(value, '/');
    assert(texts(names@).last() == names@[names@.len() - 1]@);
    let last = &names[names.len() - 1];
    config.role_name = if !last.as_str().is_empty() {
        Some(last.clone())
    } else {
        None
    };
}

/// Notes how the profile signs in, where the key tells.
pub fn apply_auth_profile_property(config: &mut ProfileConfig, key: &str)
    ensures
        final(config)@ == with_auth(old(config)@, key@),
{
    if same(key, "sso_session") || same(key, "sso_start_url") {
        config.is_sso = true;
    } else if same(key, "login_session") {
        config.is_login = true;
    }
}

/// What reading the configuration gives; a missing file says nothing.
pub open spec fn config_read(read: FileModel) -> Result<Seq<char>, Seq<char>> {
    match read {
        FileModel::Contents(contents) => Ok(contents),
        FileModel::Missing => Ok(Seq::empty()),
        FileModel::Failed(error) => Err("could not read AWS config: "@ + error),
    }
}

/// What the configuration says of a profile, or the message of why that is
/// unknown.
pub open spec fn configured(result: Result<ProfileConfig, String>) -> Result<ConfigModel, Seq<char>> {
    match result {
        Ok(config) => Ok(config@),
        Err(message) => Err(message@),
    }
}

/// What the configuration says of a profile, by what reading it gave.
pub open spec fn profile_read(read: FileModel, profile: Seq<char>) -> Result<ConfigModel, Seq<char>> {
    match config_read(read) {
        Ok(contents) => Ok(config_of(contents, profile)),
        Err(message) => Err(message),
    }
}

/// What reading the configuration gives.
pub fn read_aws_config_contents(read: &FileRead) -> (result: Result<String, String>)
    ensures
        outcome(result) == config_read(read@),
{
    match read {
        FileRead::Contents(contents) => Ok(contents.clone()),
        FileRead::Missing => Ok(String::new()),
        FileRead::Failed(error) => {
            let mut message = "could not read AWS config: ".to_owned();
            message.append(error.as_str());
            Err(message)
        },
    }
}

/// What the configuration says of a profile, by what reading it gave.
pub fn read_profile_config(read: &FileRead, profile: &str) -> (result: Result<ProfileConfig, String>)
    ensures
        configured(result) == profile_read(read@, profile@),
{
    match read_aws_config_contents(read) {
        Ok(contents) => Ok(parse_profile_config(contents.as_str(), profile)),
        Err(message) => Err(message),
    }
}

/// The profiles that a run of `aws configure list-profiles` lists.
pub open spec fn listed_names(listed: Option<OutputModel>) -> Seq<Seq<char>> {
    match listed {
        Some(output) => if output.success {
            nonblank(lines_of(lossy(output.stdout)))
        } else {
            Seq::empty()
        },
        None => Seq::empty(),
    }
}

/// The profiles that a file names, if it can be read.
pub open spec fn file_names(read: FileModel) -> Seq<Seq<char>> {
    match read {
        FileModel::Contents(contents) => profiles_in(lines_of(contents)),
        _ => Seq::empty(),
    }
}

/// The profiles that the AWS CLI lists or one of the files names.
pub open spec fn known_profiles(
    listed: Option<OutputModel>,
    config: FileModel,
    credentials: FileModel,
) -> Seq<Seq<char>> {
    sorted(listed_names(listed) + file_names(config) + file_names(credentials))
}

/// The profiles that a run of `aws configure list-profiles` lists.
pub fn discover_profiles_from_aws(listed: Option<&CommandOutput>) -> (result: Vec<String>)
    ensures
        texts(result@) == sorted(
            listed_names(
                match listed {
                    Some(output) => Some(output@),
                    None => None,
                },
            ),
        ),
{
    match listed {
        Some(output) => {
            if output.success {
                return parse_profile_list(output.stdout.as_slice());
            }
        },
        None => {},
    }
    no_profiles()
}

fn no_profiles() -> (result: Vec<String>)
    ensures
        texts(result@) == sorted(Seq::empty()),
{
    let none: Vec<String> = Vec::new();
    assert(texts(none@) =~= Seq::empty());
    collect(none)
}

/// The profiles that a file names, if it can be read.
fn discover_profiles_from_file(read: &FileRead) -> (result: Vec<String>)
    ensures
        texts(result@) == sorted(file_names(read@)),
{
    match read {
        FileRead::Contents(contents) => parse_profiles(contents.as_str()),
        _ => no_profiles(),
    }
}

/// The profiles that the AWS CLI lists or one of the files names.
pub fn discover_profiles(
    listed: Option<&CommandOutput>,
    config: &FileRead,
    credentials: &FileRead,
) -> (result: Vec<String>)
    ensures
        texts(result@) == known_profiles(
            match listed {
                Some(output) => Some(output@),
                None => None,
            },
            config@,
            credentials@,
        ),
{
    let from_aws = discover_profiles_from_aws(listed);
    let from_files = discover_profiles_from_files(config, credentials);
    proof {
        let names = listed_names(
            match listed {
                Some(output) => Some(output@),
                None => None,
            },
        );
        lemma_sorted_parts(names, file_names(config@) + file_names(credentials@));
        assert(names + (file_names(config@) + file_names(credentials@)) =~= names + file_names(
            config@,
        ) + file_names(credentials@));
    }
    collect(appended(from_aws, from_files))
}

/// The profiles that one of the files names, if it can be read.
pub fn discover_profiles_from_files(config: &FileRead, credentials: &FileRead) -> (result: Vec<String>)
    ensures
        texts(result@) == sorted(file_names(config@) + file_names(credentials@)),
{
    let from_config = discover_profiles_from_file(config);
    let from_credentials = discover_profiles_from_file(credentials);
    proof {
        lemma_sorted_parts(file_names(config@), file_names(credentials@));
    }
    collect(appended(from_config, from_credentials))
}

proof fn lemma_sorted_parts(first: Seq<Seq<char>>, second: Seq<Seq<char>>)
    ensures
        sorted(sorted(first) + sorted(second)) == sorted(first + second),
{
    let parts = sorted(first) + sorted(second);
    let whole = first + second;
    law_sorted(first);
    law_sorted(second);
    law_sorted(parts);
    assert forall|text: Seq<char>| parts.contains(text) <==> whole.contains(text) by {
        lemma_contains_parts(sorted(first), sorted(second), text);
        lemma_contains_parts(first, second, text);
    }
    lemma_sorted(sorted(parts), whole);
}

proof fn lemma_contains_parts(first: Seq<Seq<char>>, second: Seq<Seq<char>>, text: Seq<char>)
    ensures
        (first + second).contains(text) <==> first.contains(text) || second.contains(text),
{
    let whole = first + second;
    if first.contains(text) {
        let k = choose|k: int| 0 <= k < first.len() && first[k] == text;
        assert(whole[k] == text);
    }
    if second.contains(text) {
        let k = choose|k: int| 0 <= k < second.len() && second[k] == text;
        assert(whole[first.len() + k] == text);
    }
    if whole.contains(text) {
        let k = choose|k: int| 0 <= k < whole.len() && whole[k] == text;
        if k < first.len() {
            assert(first[k] == text);
        } else {
            assert(second[k - first.len()] == text);
        }
    }
}

/// A profile is known exactly where the AWS CLI lists it or one of the files
/// names it, and no profile is known twice.
pub proof fn law_known_profiles(
    listed: Option<OutputModel>,
    config: FileModel,
    credentials: FileModel,
    profile: Seq<char>,
)
    ensures
        known_profiles(listed, config, credentials).contains(profile) <==> {
            ||| listed_names(listed).contains(profile)
            ||| file_names(config).contains(profile)
            ||| file_names(credentials).contains(profile)
        },
        known_profiles(listed, config, credentials).no_duplicates(),
{
    let names = listed_names(listed) + file_names(config) + file_names(credentials);
    law_sorted(names);
    lemma_contains_parts(
        listed_names(listed) + file_names(config),
        file_names(credentials),
        profile,
    );
    lemma_contains_parts(listed_names(listed), file_names(config), profile);
    assert(sorted(names).contains(profile) <==> names.contains(profile));
}

/// One list after another.
fn appended(left: Vec<String>, right: Vec<String>) -> (result: Vec<String>)
    ensures
        texts(result@) == texts(left@) + texts(right@),
{
    let mut result = left;
    for i in 0..right.len()
        invariant
            texts(result@) == texts(left@) + texts(right@).take(i as int),
    {
        let ghost before = texts(result@);
        result.push(right[i].clone());
        assert(texts(result@) =~= before.push(right@[i as int]@));
        assert(texts(left@) + texts(right@).take(i + 1) =~= before.push(right@[i as int]@));
    }
    assert(texts(right@).take(right@.len() as int) =~= texts(right@));
    result
}

proof fn lemma_open_section(lines: Seq<Seq<char>>, body: Seq<Seq<char>>)
    requires
        forall|i: int| 0 <= i < body.len() ==> section_name(#[trigger] body[i]) is None,
    ensures
        open_section(lines + body) == open_section(lines),
    decreases body.len(),
{
    if body.len() == 0 {
        assert(lines + body =~= lines);
    } else {
        let fewer = body.drop_last();
        assert((lines + body).drop_last() =~= lines + fewer);
        assert(section_name(body[body.len() - 1]) is None);
        assert forall|i: int| 0 <= i < fewer.len() implies section_name(#[trigger] fewer[i]) is None by {
            assert(section_name(body[i]) is None);
        }
        lemma_open_section(lines, fewer);
    }
}

/// What stands in another section says nothing of a section.
pub proof fn law_other_section(
    lines: Seq<Seq<char>>,
    header: Seq<char>,
    body: Seq<Seq<char>>,
    section: Seq<char>,
)
    requires
        section_name(header) is Some,
        section_name(header) != Some(section),
        forall|i: int| 0 <= i < body.len() ==> section_name(#[trigger] body[i]) is None,
    ensures
        config_in(lines.push(header) + body, section) == config_in(lines, section),
    decreases body.len(),
{
    let start = lines.push(header);
    if body.len() == 0 {
        assert(start + body =~= start);
        assert(start.drop_last() =~= lines);
    } else {
        let fewer = body.drop_last();
        assert((start + body).drop_last() =~= start + fewer);
        assert forall|i: int| 0 <= i < fewer.len() implies section_name(#[trigger] fewer[i]) is None by {
            assert(section_name(body[i]) is None);
        }
        law_other_section(lines, header, fewer, section);
        lemma_open_section(start, fewer);
        assert(start.drop_last() =~= lines);
        assert(open_section(start) == section_name(header)->0);
    }
}

} // verus!
