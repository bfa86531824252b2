//! Where files are, name by name; and which shell a path leads to.
use crate::paths::{
    aws_config_file, aws_credentials_file, docker_config_file, first_setting, helm_setting,
    state_directory, state_file, unquoted, PlacesModel,
};
use crate::platform::{file_name_of, is_verbatim, letters_of, path_below, Platform};
use crate::shell::setup_hint;
use crate::text::{after_prefix, is_white_space, lines_of, pieces, trimmed};
use crate::words::{law_pieces, law_trimmed_bare, law_without};
use vstd::prelude::*;
use vstd::utf8::encode_utf8;

verus! {

/// A path below a directory: on Unix a slash stands between the two, unless the
/// directory ends in one; on Windows a backslash, unless it ends in either. Below no
/// directory the path stays as it is.
pub proof fn law_path_below(directory: Seq<u8>, tail: Seq<char>)
    ensures
        directory.len() > 0 && directory.last() != 47 ==> path_below(
            Platform::Unix,
            directory,
            tail,
        ) == directory + seq![47u8] + encode_utf8(tail),
        directory.len() > 0 && directory.last() == 47 ==> path_below(
            Platform::Unix,
            directory,
            tail,
        ) == directory + encode_utf8(tail),
        directory.len() > 2 && directory.last() != 47 && directory.last() != 92 && !is_verbatim(
            letters_of(directory),
        ) ==> path_below(Platform::Windows, directory, tail) == directory + seq![92u8]
            + encode_utf8(tail),
        directory.len() > 0 && (directory.last() == 47 || directory.last() == 92) && !is_verbatim(
            letters_of(directory),
        ) ==> path_below(Platform::Windows, directory, tail) == directory + encode_utf8(tail),
        directory.len() == 0 ==> path_below(Platform::Unix, directory, tail) == encode_utf8(tail)
            && path_below(Platform::Windows, directory, tail) == encode_utf8(tail),
{
    assert(directory.push(47u8) =~= directory + seq![47u8]);
    assert(directory.push(92u8) =~= directory + seq![92u8]);
    if directory.len() == 0 {
        assert(directory + encode_utf8(tail) =~= encode_utf8(tail));
    }
}

/// The state is in the directory that `AWSWAP_HOME` names, else in `awswap` below
/// the one that `XDG_STATE_HOME` names, else in `.local/state/awswap` below the home
/// directory; without any of them there is no place for it. Its file is `state`.
pub proof fn law_state_place(places: PlacesModel)
    ensures
        match places.awswap_home {
            Some(named) => state_directory(places) == Ok::<_, Seq<char>>(named),
            None => match places.xdg_state_home {
                Some(named) => state_directory(places) == Ok::<_, Seq<char>>(
                    path_below(places.platform, named, "awswap"@),
                ),
                None => match places.home {
                    Some(home) => state_directory(places) == Ok::<_, Seq<char>>(
                        path_below(places.platform, home, ".local/state/awswap"@),
                    ),
                    None => state_directory(places) == Err::<Seq<u8>, _>(
                        "could not determine the state directory; set AWSWAP_HOME"@,
                    ),
                },
            },
        },
        state_directory(places) matches Ok(directory) ==> state_file(places) == Ok::<_, Seq<char>>(
            path_below(places.platform, directory, "state"@),
        ),
        state_directory(places) matches Err(message) ==> state_file(places) == Err::<Seq<u8>, _>(
            message,
        ),
{
}

/// The files of the AWS CLI are those that its variables name, and else those in
/// `.aws` below the home directory; Docker's configuration is in the directory that
/// its variable names, unless that is empty, and else in `.docker`.
pub proof fn law_other_places(places: PlacesModel, home: Seq<u8>)
    requires
        places.home == Some(home),
    ensures
        places.aws_config_file matches Some(path) ==> aws_config_file(places) == path,
        places.aws_config_file is None ==> aws_config_file(places) == path_below(
            places.platform,
            home,
            ".aws/config"@,
        ),
        places.aws_shared_credentials_file matches Some(path) ==> aws_credentials_file(places)
            == path,
        places.aws_shared_credentials_file is None ==> aws_credentials_file(places) == path_below(
            places.platform,
            home,
            ".aws/credentials"@,
        ),
        places.docker_config matches Some(path) ==> path.len() > 0 ==> docker_config_file(places)
            == Some(path_below(places.platform, path, "config.json"@)),
        places.docker_config is None || places.docker_config->0.len() == 0 ==> docker_config_file(
            places,
        ) == Some(
            path_below(
                places.platform,
                path_below(places.platform, home, ".docker"@),
                "config.json"@,
            ),
        ),
{
}

/// Helm names its configuration on the first line that sets `HELM_REGISTRY_CONFIG`,
/// with or without quotation marks.
pub proof fn law_helm_configuration(contents: Seq<char>, index: int, path: Seq<char>)
    requires
        0 <= index < lines_of(contents).len(),
        forall|i: int|
            0 <= i < index ==> !"HELM_REGISTRY_CONFIG="@.is_prefix_of(
                trimmed(#[trigger] lines_of(contents)[i]),
            ),
        path.len() > 0,
        path.first() != '"',
        path.last() != '"',
        !is_white_space(path.first()),
        !is_white_space(path.last()),
        trimmed(lines_of(contents)[index]) == "HELM_REGISTRY_CONFIG="@ + path || trimmed(
            lines_of(contents)[index],
        ) == "HELM_REGISTRY_CONFIG="@ + (seq!['"'] + path + seq!['"']),
    ensures
        helm_setting(contents) == Some(path),
{
    let quoted = seq!['"'] + path + seq!['"'];
    let name = "HELM_REGISTRY_CONFIG="@;
    lemma_first_setting(lines_of(contents), index);
    law_trimmed_bare(path);
    law_trimmed_bare(quoted);
    assert((name + path).skip(name.len() as int) =~= path);
    assert((name + quoted).skip(name.len() as int) =~= quoted);
    assert((name + path).subrange(0, name.len() as int) =~= name);
    assert((name + quoted).subrange(0, name.len() as int) =~= name);
    assert(name.is_prefix_of(name + path));
    assert(name.is_prefix_of(name + quoted));
    law_without(path, '"');
    law_without(path + seq!['"'], '"');
    assert(seq!['"'] + (path + seq!['"']) =~= quoted);
    assert(path + seq!['"'] =~= path.push('"'));
    assert((path + seq!['"']).first() == path.first());
    assert(unquoted(quoted) == path);
    assert(unquoted(path) == path);
}

proof fn lemma_first_setting(lines: Seq<Seq<char>>, index: int)
    requires
        0 <= index < lines.len(),
        forall|i: int|
            0 <= i < index ==> !"HELM_REGISTRY_CONFIG="@.is_prefix_of(trimmed(#[trigger] lines[i])),
        "HELM_REGISTRY_CONFIG="@.is_prefix_of(trimmed(lines[index])),
    ensures
        first_setting(lines) == after_prefix(trimmed(lines[index]), "HELM_REGISTRY_CONFIG="@),
    decreases index,
{
    if index > 0 {
        let rest = lines.drop_first();
        assert(!"HELM_REGISTRY_CONFIG="@.is_prefix_of(trimmed(lines[0])));
        assert forall|i: int| 0 <= i < index - 1 implies !"HELM_REGISTRY_CONFIG="@.is_prefix_of(
            trimmed(#[trigger] rest[i]),
        ) by {
            assert(rest[i] == lines[i + 1]);
        }
        assert(rest[index - 1] == lines[index]);
        lemma_first_setting(rest, index - 1);
    }
}

/// On Unix the name of a file is what follows the last slash, unless that only says
/// where to go; a slash behind it changes nothing.
pub proof fn law_file_name(directory: Seq<char>, name: Seq<char>)
    requires
        name.len() > 0,
        !name.contains('/'),
    ensures
        name != "."@ && name != ".."@ ==> {
            &&& file_name_of(Platform::Unix, name) == Some(name)
            &&& file_name_of(Platform::Unix, directory + seq!['/'] + name) == Some(name)
            &&& file_name_of(Platform::Unix, directory + seq!['/'] + name + seq!['/']) == Some(name)
        },
        name == ".."@ ==> file_name_of(Platform::Unix, directory + seq!['/'] + name) is None,
{
    let none = Seq::<char>::empty();
    reveal_strlit(".");
    reveal_strlit("..");
    law_pieces(directory, '/', name);
    law_pieces(directory + seq!['/'] + name, '/', none);
    let whole = directory + seq!['/'] + name;
    assert(whole + seq!['/'] + none =~= whole + seq!['/']);
    let parts = pieces(whole, '/');
    assert(parts.last() == name);
    let slashed = pieces(whole + seq!['/'], '/');
    assert(slashed == parts.push(none));
    assert(slashed.drop_last() =~= parts);
    assert(slashed.last() == none);
    assert("."@.len() == 1 && ".."@.len() == 2);
}

/// The hint names the command for the shell that the path leads to: `bash`, `zsh`
/// or `fish`; for any other shell, and where none is known, the one for Zsh.
pub proof fn law_shell_hint(directory: Seq<char>, name: Seq<char>)
    requires
        name.len() > 0,
        !name.contains('/'),
        name != "."@,
    ensures
        ({
            let hint = setup_hint(Platform::Unix, Some(directory + seq!['/'] + name));
            &&& name == "fish"@ ==> hint == "awswap init fish | source"@
            &&& name == "bash"@ ==> hint == "eval \"$(awswap init bash)\""@
            &&& name != "fish"@ && name != "bash"@ ==> hint == "eval \"$(awswap init zsh)\""@
        }),
        setup_hint(Platform::Unix, None) == "eval \"$(awswap init zsh)\""@,
{
    law_file_name(directory, name);
    reveal_strlit(".");
    reveal_strlit("..");
    reveal_strlit("fish");
    reveal_strlit("bash");
    reveal_strlit("zsh");
    assert("."@.len() == 1 && ".."@.len() == 2 && "fish"@.len() == 4 && "bash"@.len() == 4
        && "zsh"@.len() == 3);
    assert("fish"@[0] != "bash"@[0]);
    reveal_strlit("eval \"$(awswap init bash)\"");
    reveal_strlit("eval \"$(awswap init zsh)\"");
    reveal_strlit("eval \"$(awswap init ");
    reveal_strlit(")\"");
    assert("eval \"$(awswap init "@ + "bash"@ + ")\""@ =~= "eval \"$(awswap init bash)\""@);
    assert("eval \"$(awswap init "@ + "zsh"@ + ")\""@ =~= "eval \"$(awswap init zsh)\""@);
}

} // verus!
