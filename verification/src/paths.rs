//! Where files are: paths as bytes.
use crate::command::{bytes_of, CommandOutput, OutputModel};
use crate::platform::{copied, join_path, path_below, Platform};
use crate::text::{
    after_prefix, lines, lines_of, strip_prefix, text_of, texts, trim, trim_leading, trim_trailing,
    trimmed, without_leading, without_trailing,
};
use crate::utf8::{decode, lossy};
use vstd::prelude::*;
use vstd::utf8::encode_utf8;

verus! {

/// The platform, and the environment variables that say where files are.
#[derive(Debug, Clone, PartialEq, Eq)]
pub struct Places {
    pub platform: Platform,
    pub home: Option<Vec<u8>>,
    pub awswap_home: Option<Vec<u8>>,
    pub xdg_state_home: Option<Vec<u8>>,
    pub aws_config_file: Option<Vec<u8>>,
    pub aws_shared_credentials_file: Option<Vec<u8>>,
    pub docker_config: Option<Vec<u8>>,
    pub helm_registry_config: Option<Vec<u8>>,
}

pub struct PlacesModel {
    pub platform: Platform,
    pub home: Option<Seq<u8>>,
    pub awswap_home: Option<Seq<u8>>,
    pub xdg_state_home: Option<Seq<u8>>,
    pub aws_config_file: Option<Seq<u8>>,
    pub aws_shared_credentials_file: Option<Seq<u8>>,
    pub docker_config: Option<Seq<u8>>,
    pub helm_registry_config: Option<Seq<u8>>,
}

impl View for Places {
    type V = PlacesModel;

    open spec fn view(&self) -> PlacesModel {
        PlacesModel {
            platform: self.platform,
            home: bytes_of(self.home),
            awswap_home: bytes_of(self.awswap_home),
            xdg_state_home: bytes_of(self.xdg_state_home),
            aws_config_file: bytes_of(self.aws_config_file),
            aws_shared_credentials_file: bytes_of(self.aws_shared_credentials_file),
            docker_config: bytes_of(self.docker_config),
            helm_registry_config: bytes_of(self.helm_registry_config),
        }
    }
}

impl Default for Places {
    fn default() -> (result: Self)
        ensures
            result@ == (PlacesModel {
                platform: Platform::Unix,
                home: None,
                awswap_home: None,
                xdg_state_home: None,
                aws_config_file: None,
                aws_shared_credentials_file: None,
                docker_config: None,
                helm_registry_config: None,
            }),
    {
        Places {
            platform: Platform::Unix,
            home: None,
            awswap_home: None,
            xdg_state_home: None,
            aws_config_file: None,
            aws_shared_credentials_file: None,
            docker_config: None,
            helm_registry_config: None,
        }
    }
}

/// The value of a variable, unless it is empty.
pub open spec fn non_empty(value: Option<Seq<u8>>) -> Option<Seq<u8>> {
    match value {
        Some(value) => if value.len() > 0 {
            Some(value)
        } else {
            None
        },
        None => None,
    }
}

/// A path, or the message of why there is none.
pub open spec fn path_of(result: Result<Vec<u8>, String>) -> Result<Seq<u8>, Seq<char>> {
    match result {
        Ok(path) => Ok(path@),
        Err(message) => Err(message@),
    }
}

/// The directory of the state file: where `AWSWAP_HOME` says, else below
/// `XDG_STATE_HOME`, else below the home directory.
pub open spec fn directory_from(
    platform: Platform,
    awswap_home: Option<Seq<u8>>,
    xdg_state_home: Option<Seq<u8>>,
    home: Option<Seq<u8>>,
) -> Result<Seq<u8>, Seq<char>> {
    match awswap_home {
        Some(directory) => Ok(directory),
        None => match xdg_state_home {
            Some(directory) => Ok(path_below(platform, directory, "awswap"@)),
            None => match home {
                Some(directory) => Ok(path_below(platform, directory, ".local/state/awswap"@)),
                None => Err("could not determine the state directory; set AWSWAP_HOME"@),
            },
        },
    }
}

pub open spec fn state_directory(places: PlacesModel) -> Result<Seq<u8>, Seq<char>> {
    directory_from(places.platform, places.awswap_home, places.xdg_state_home, places.home)
}

/// The state file.
pub open spec fn state_file(places: PlacesModel) -> Result<Seq<u8>, Seq<char>> {
    match state_directory(places) {
        Ok(directory) => Ok(path_below(places.platform, directory, "state"@)),
        Err(message) => Err(message),
    }
}

/// A file that a variable names, or else one below the home directory.
pub open spec fn named_or_below(
    platform: Platform,
    named: Option<Seq<u8>>,
    home: Option<Seq<u8>>,
    tail: Seq<char>,
) -> Seq<u8> {
    match named {
        Some(path) => path,
        None => match home {
            Some(directory) => path_below(platform, directory, tail),
            None => path_below(platform, Seq::empty(), tail),
        },
    }
}

pub open spec fn aws_config_file(places: PlacesModel) -> Seq<u8> {
    named_or_below(places.platform, places.aws_config_file, places.home, ".aws/config"@)
}

pub open spec fn aws_credentials_file(places: PlacesModel) -> Seq<u8> {
    named_or_below(
        places.platform,
        places.aws_shared_credentials_file,
        places.home,
        ".aws/credentials"@,
    )
}

/// The configuration of Docker, in the directory that `DOCKER_CONFIG` names or
/// else below the home directory.
pub open spec fn docker_config_file(places: PlacesModel) -> Option<Seq<u8>> {
    match non_empty(places.docker_config) {
        Some(directory) => Some(path_below(places.platform, directory, "config.json"@)),
        None => match places.home {
            Some(home) => Some(
                path_below(
                    places.platform,
                    path_below(places.platform, home, ".docker"@),
                    "config.json"@,
                ),
            ),
            None => None,
        },
    }
}

/// The value of the first line that sets `HELM_REGISTRY_CONFIG`.
pub open spec fn first_setting(lines: Seq<Seq<char>>) -> Option<Seq<char>>
    decreases lines.len(),
{
    if lines.len() == 0 {
        None
    } else {
        match after_prefix(trimmed(lines.first()), "HELM_REGISTRY_CONFIG="@) {
            Some(value) => Some(value),
            None => first_setting(lines.drop_first()),
        }
    }
}

/// The text without the quotation marks around it.
pub open spec fn unquoted(text: Seq<char>) -> Seq<char> {
    without_trailing(without_leading(text, '"'), '"')
}

/// The registry configuration that `helm env` prints the path of.
pub open spec fn helm_setting(contents: Seq<char>) -> Option<Seq<char>> {
    match first_setting(lines_of(contents)) {
        Some(value) => {
            let path = unquoted(trimmed(value));
            if path.len() > 0 {
                Some(path)
            } else {
                None
            }
        },
        None => None,
    }
}

/// The registry configuration that a run of `helm env` names.
pub open spec fn helm_answer(output: Option<OutputModel>) -> Option<Seq<u8>> {
    match output {
        Some(output) => if output.success {
            match helm_setting(lossy(output.stdout)) {
                Some(path) => Some(encode_utf8(path)),
                None => None,
            }
        } else {
            None
        },
        None => None,
    }
}

/// How a path is shown in a message.
pub fn display(path: &[u8]) -> (result: String)
    ensures
        result@ == lossy(path@),
{
    decode(path)
}

/// The message of a file with which something could not be done.
pub open spec fn file_message(deed: Seq<char>, shown: Seq<char>, error: Seq<char>) -> Seq<char> {
    "could not "@ + deed + " "@ + shown + ": "@ + error
}

/// The message of a file with which something could not be done.
pub fn file_error(deed: &str, shown: &str, error: &str) -> (result: String)
    ensures
        result@ == file_message(deed@, shown@, error@),
{
    let mut message = "could not ".to_owned();
    message.append(deed);
    message.append(" ");
    message.append(shown);
    message.append(": ");
    message.append(error);
    message
}

/// The message of a path with which something could not be done.
pub fn path_error(deed: &str, path: &[u8], error: &str) -> (result: String)
    ensures
        result@ == file_message(deed@, lossy(path@), error@),
{
    let shown = display(path);
    file_error(deed, shown.as_str(), error)
}

/// The directory of the state file.
pub fn state_dir_from(
    platform: Platform,
    awswap_home: Option<Vec<u8>>,
    xdg_state_home: Option<Vec<u8>>,
    home: Option<Vec<u8>>,
) -> (result: Result<Vec<u8>, String>)
    ensures
        path_of(result) == directory_from(
            platform,
            bytes_of(awswap_home),
            bytes_of(xdg_state_home),
            bytes_of(home),
        ),
{
    match awswap_home {
        Some(directory) => Ok(directory),
        None => match xdg_state_home {
            Some(directory) => Ok(join_path(platform, directory.as_slice(), "awswap")),
            None => match home {
                Some(directory) => Ok(
                    join_path(platform, directory.as_slice(), ".local/state/awswap"),
                ),
                None => Err("could not determine the state directory; set AWSWAP_HOME".to_owned()),
            },
        },
    }
}

/// A copy of a variable.
fn copied_option(bytes: &Option<Vec<u8>>) -> (result: Option<Vec<u8>>)
    ensures
        bytes_of(result) == bytes_of(*bytes),
{
    match bytes {
        Some(bytes) => Some(copied(bytes.as_slice())),
        None => None,
    }
}

pub fn state_dir(places: &Places) -> (result: Result<Vec<u8>, String>)
    ensures
        path_of(result) == state_directory(places@),
{
    state_dir_from(
        places.platform,
        copied_option(&places.awswap_home),
        copied_option(&places.xdg_state_home),
        copied_option(&places.home),
    )
}

/// The state file.
pub fn state_path(places: &Places) -> (result: Result<Vec<u8>, String>)
    ensures
        path_of(result) == state_file(places@),
{
    match state_dir(places) {
        Ok(directory) => Ok(join_path(places.platform, directory.as_slice(), "state")),
        Err(message) => Err(message),
    }
}

fn named_path(
    platform: Platform,
    named: &Option<Vec<u8>>,
    home: &Option<Vec<u8>>,
    tail: &str,
) -> (result: Vec<u8>)
    ensures
        result@ == named_or_below(platform, bytes_of(*named), bytes_of(*home), tail@),
{
    match named {
        Some(path) => copied(path.as_slice()),
        None => match home {
            Some(directory) => join_path(platform, directory.as_slice(), tail),
            None => {
                let nowhere: Vec<u8> = Vec::new();
                assert(nowhere@ =~= Seq::empty());
                join_path(platform, nowhere.as_slice(), tail)
            },
        },
    }
}

pub fn aws_config_path(places: &Places) -> (result: Vec<u8>)
    ensures
        result@ == aws_config_file(places@),
{
    named_path(places.platform, &places.aws_config_file, &places.home, ".aws/config")
}

pub fn aws_credentials_path(places: &Places) -> (result: Vec<u8>)
    ensures
        result@ == aws_credentials_file(places@),
{
    named_path(
        places.platform,
        &places.aws_shared_credentials_file,
        &places.home,
        ".aws/credentials",
    )
}

/// The configuration of Docker.
pub fn docker_config_path(places: &Places) -> (result: Option<Vec<u8>>)
    ensures
        bytes_of(result) == docker_config_file(places@),
{
    match &places.docker_config {
        Some(directory) => {
            if directory.len() > 0 {
                return Some(join_path(places.platform, directory.as_slice(), "config.json"));
            }
        },
        None => {},
    }
    match &places.home {
        Some(home) => {
            let directory = join_path(places.platform, home.as_slice(), ".docker");
            Some(join_path(places.platform, directory.as_slice(), "config.json"))
        },
        None => None,
    }
}

/// The registry configuration of Helm that `HELM_REGISTRY_CONFIG` names.
pub fn helm_registry_config_path(places: &Places) -> (result: Option<Vec<u8>>)
    ensures
        bytes_of(result) == non_empty(places@.helm_registry_config),
{
    match &places.helm_registry_config {
        Some(path) => if path.len() > 0 {
            Some(copied(path.as_slice()))
        } else {
            None
        },
        None => None,
    }
}

/// The registry configuration that `helm env` prints the path of.
pub fn parse_helm_registry_config(contents: &str) -> (result: Option<String>)
    ensures
        text_of(result) == helm_setting(contents@),
{
    let all = lines(contents);
    assert(texts(all@).skip(0) =~= texts(all@));
    for i in 0..all.len()
        invariant
            first_setting(texts(all@)) == first_setting(texts(all@).skip(i as int)),
            texts(all@) == lines_of(contents@),
    {
        assert(texts(all@).skip(i as int).drop_first() =~= texts(all@).skip(i + 1));
        match strip_prefix(trim(all[i].as_str()), "HELM_REGISTRY_CONFIG=") {
            Some(value) => {
                let path = trim_trailing(trim_leading(trim(value), '"'), '"');
                return if path.is_empty() {
                    None
                } else {
                    Some(path.to_owned())
                };
            },
            None => {},
        }
    }
    None
}

/// The registry configuration that a run of `helm env` names.
pub fn helm_registry_config_from_helm(output: Option<&CommandOutput>) -> (result: Option<Vec<u8>>)
    ensures
        bytes_of(result) == helm_answer(
            match output {
                Some(output) => Some(output@),
                None => None,
            },
        ),
{
    match output {
        Some(output) => {
            if !output.success {
                return None;
            }
            let printed = decode(output.stdout.as_slice());
            match parse_helm_registry_config(printed.as_str()) {
                Some(path) => Some(copied(path.as_str().as_bytes())),
                None => None,
            }
        },
        None => None,
    }
}

/// A file with these permissions may be run.
pub open spec fn may_run(mode: u32) -> bool {
    mode & 0o111 != 0
}

/// A file may be run where its owner, its group or others may.
pub proof fn law_may_run(mode: u32)
    ensures
        may_run(mode) <==> mode & 0o100 != 0 || mode & 0o010 != 0 || mode & 0o001 != 0,
{
    assert(mode & 0o111 != 0 <==> mode & 0o100 != 0 || mode & 0o010 != 0 || mode & 0o001 != 0)
        by (bit_vector);
}

/// A file may be run: some of its permission bits for running are set.
pub fn is_executable(mode: u32) -> (result: bool)
    ensures
        result == (mode & 0o111 != 0),
        result == may_run(mode),
{
    mode & 0o111 != 0
}

} // verus!
