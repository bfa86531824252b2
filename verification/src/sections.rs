//! What the lines of the AWS configuration say, each in the section under whose
//! header it stands.
use crate::command::FileModel;
use crate::config::{
    auth_of, config_in, config_of, file_names, line_profile, open_section, profile_read,
    profiles_in, section_name, with_property, ConfigModel,
};
use crate::credentials::renewal;
use crate::text::{
    contains, find_from, is_white_space, lemma_find, lines_of, occurs_at, pieces, split_once,
    trimmed,
};
use crate::words::law_trimmed_bare;
use vstd::prelude::*;

verus! {

/// The line is no header itself, and the last header above it has that name.
pub open spec fn is_under(lines: Seq<Seq<char>>, index: int, header: Seq<char>) -> bool {
    &&& 0 <= index < lines.len()
    &&& section_name(lines[index]) is None
    &&& exists|start: int| #[trigger] heads(lines, start, index, header)
}

/// The header of that name is the last one above the line.
pub open spec fn heads(lines: Seq<Seq<char>>, start: int, index: int, header: Seq<char>) -> bool {
    &&& 0 <= start < index
    &&& section_name(lines[start]) == Some(header)
    &&& forall|k: int| start < k < index ==> section_name(#[trigger] lines[k]) is None
}

/// The key and the value that a line in a section sets: what stands before and
/// behind its first equals sign. A blank value sets nothing.
pub open spec fn setting(lines: Seq<Seq<char>>, index: int, header: Seq<char>) -> Option<
    (Seq<char>, Seq<char>),
> {
    if is_under(lines, index, header) {
        match split_once(trimmed(lines[index]), "="@) {
            Some((key, value)) => if trimmed(value).len() > 0 {
                Some((trimmed(key), trimmed(value)))
            } else {
                None
            },
            None => None,
        }
    } else {
        None
    }
}

/// The line sets one of two keys.
pub open spec fn sets(
    lines: Seq<Seq<char>>,
    index: int,
    header: Seq<char>,
    one: Seq<char>,
    other: Seq<char>,
) -> bool {
    setting(lines, index, header) matches Some((key, _)) && (key == one || key == other)
}

/// The line is the last one that sets one of two keys.
pub open spec fn sets_last(
    lines: Seq<Seq<char>>,
    index: int,
    header: Seq<char>,
    one: Seq<char>,
    other: Seq<char>,
) -> bool {
    &&& sets(lines, index, header, one, other)
    &&& forall|later: int| index < later ==> !(#[trigger] sets(lines, later, header, one, other))
}

/// The value that a line sets.
pub open spec fn value_at(lines: Seq<Seq<char>>, index: int, header: Seq<char>) -> Seq<char> {
    match setting(lines, index, header) {
        Some((_, value)) => value,
        None => Seq::empty(),
    }
}

proof fn lemma_open(lines: Seq<Seq<char>>, header: Seq<char>)
    requires
        header.len() > 0,
    ensures
        open_section(lines) == header <==> exists|start: int| #[trigger]
            heads(lines, start, lines.len() as int, header),
    decreases lines.len(),
{
    if lines.len() > 0 {
        let earlier = lines.drop_last();
        let end = lines.len() as int;
        lemma_open(earlier, header);
        match section_name(lines.last()) {
            Some(name) => {
                if name == header {
                    assert(heads(lines, end - 1, end, header));
                }
                if exists|start: int| #[trigger] heads(lines, start, end, header) {
                    let start = choose|start: int| #[trigger] heads(lines, start, end, header);
                    if start < end - 1 {
                        assert(section_name(lines[end - 1]) is None);
                    }
                }
            },
            None => {
                if open_section(earlier) == header {
                    let start = choose|start: int| #[trigger] heads(earlier, start, end - 1, header);
                    assert forall|k: int| start < k < end implies section_name(
                        #[trigger] lines[k],
                    ) is None by {
                        if k < end - 1 {
                            assert(earlier[k] == lines[k]);
                        }
                    }
                    assert(heads(lines, start, end, header));
                }
                if exists|start: int| #[trigger] heads(lines, start, end, header) {
                    let start = choose|start: int| #[trigger] heads(lines, start, end, header);
                    assert forall|k: int| start < k < end - 1 implies section_name(
                        #[trigger] earlier[k],
                    ) is None by {
                        assert(earlier[k] == lines[k]);
                    }
                    assert(heads(earlier, start, end - 1, header));
                }
            },
        }
    }
}

proof fn lemma_heads_same(
    lines: Seq<Seq<char>>,
    more: Seq<Seq<char>>,
    index: int,
    header: Seq<char>,
)
    requires
        0 <= index <= lines.len(),
        lines.len() <= more.len(),
        forall|k: int| 0 <= k < lines.len() ==> #[trigger] lines[k] == more[k],
    ensures
        (exists|start: int| #[trigger] heads(lines, start, index, header)) <==> (exists|start: int|
         #[trigger] heads(more, start, index, header)),
{
    if exists|start: int| #[trigger] heads(lines, start, index, header) {
        let start = choose|start: int| #[trigger] heads(lines, start, index, header);
        assert forall|k: int| start < k < index implies section_name(#[trigger] more[k]) is None by {
            assert(lines[k] == more[k]);
        }
        assert(heads(more, start, index, header));
    }
    if exists|start: int| #[trigger] heads(more, start, index, header) {
        let start = choose|start: int| #[trigger] heads(more, start, index, header);
        assert forall|k: int| start < k < index implies section_name(#[trigger] lines[k]) is None by {
            assert(lines[k] == more[k]);
        }
        assert(heads(lines, start, index, header));
    }
}

proof fn lemma_setting_same(lines: Seq<Seq<char>>, index: int, header: Seq<char>)
    requires
        0 <= index < lines.len() - 1,
    ensures
        setting(lines.drop_last(), index, header) == setting(lines, index, header),
{
    let earlier = lines.drop_last();
    lemma_heads_same(earlier, lines, index, header);
    assert(earlier[index] == lines[index]);
}

/// The last line sets what it sets, and no other does anything more.
proof fn lemma_last_line(lines: Seq<Seq<char>>, header: Seq<char>)
    requires
        header.len() > 0,
        lines.len() > 0,
    ensures
        config_in(lines, header) == match setting(lines, lines.len() - 1, header) {
            Some((key, value)) => with_property(
                config_in(lines.drop_last(), header),
                key,
                value,
            ),
            None => config_in(lines.drop_last(), header),
        },
{
    let earlier = lines.drop_last();
    lemma_open(earlier, header);
    lemma_heads_same(earlier, lines, lines.len() - 1, header);
}

proof fn lemma_keys()
    ensures
        "region"@ != "sso_account_id"@,
        "region"@ != "source_profile"@,
        "sso_account_id"@ != "source_profile"@,
        "role_name"@ != "region"@,
        "role_name"@ != "sso_account_id"@,
        "role_name"@ != "source_profile"@,
        "role_arn"@ != "region"@,
        "role_arn"@ != "sso_account_id"@,
        "role_arn"@ != "source_profile"@,
        "role_arn"@ != "role_name"@,
        "sso_session"@ != "region"@,
        "sso_session"@ != "sso_account_id"@,
        "sso_session"@ != "source_profile"@,
        "sso_session"@ != "role_name"@,
        "sso_session"@ != "role_arn"@,
        "sso_start_url"@ != "region"@,
        "sso_start_url"@ != "sso_account_id"@,
        "sso_start_url"@ != "source_profile"@,
        "sso_start_url"@ != "role_name"@,
        "sso_start_url"@ != "role_arn"@,
        "login_session"@ != "region"@,
        "login_session"@ != "sso_account_id"@,
        "login_session"@ != "source_profile"@,
        "login_session"@ != "role_name"@,
        "login_session"@ != "role_arn"@,
        "login_session"@ != "sso_session"@,
        "login_session"@ != "sso_start_url"@,
{
    reveal_strlit("region");
    reveal_strlit("sso_account_id");
    reveal_strlit("source_profile");
    reveal_strlit("role_name");
    reveal_strlit("role_arn");
    reveal_strlit("sso_session");
    reveal_strlit("sso_start_url");
    reveal_strlit("login_session");
    assert("region"@.len() == 6 && "sso_account_id"@.len() == 14 && "source_profile"@.len() == 14);
    assert("role_name"@.len() == 9 && "role_arn"@.len() == 8 && "sso_session"@.len() == 11);
    assert("sso_start_url"@.len() == 13 && "login_session"@.len() == 13);
    assert("sso_account_id"@[1] != "source_profile"@[1]);
    assert("login_session"@[0] != "sso_start_url"@[0]);
}

/// What the lines under a header come to.
pub open spec fn says(lines: Seq<Seq<char>>, header: Seq<char>, config: ConfigModel) -> bool {
    &&& config.is_sso <==> exists|i: int| #[trigger]
        sets(lines, i, header, "sso_session"@, "sso_start_url"@)
    &&& config.is_login <==> exists|i: int| #[trigger]
        sets(lines, i, header, "login_session"@, "login_session"@)
    &&& config.region is Some <==> exists|i: int| #[trigger]
        sets(lines, i, header, "region"@, "region"@)
    &&& forall|i: int| #[trigger]
        sets_last(lines, i, header, "region"@, "region"@) ==> config.region == Some(
            value_at(lines, i, header),
        )
    &&& config.source_profile is Some <==> exists|i: int| #[trigger]
        sets(lines, i, header, "source_profile"@, "source_profile"@)
    &&& forall|i: int| #[trigger]
        sets_last(lines, i, header, "source_profile"@, "source_profile"@) ==> config.source_profile
            == Some(value_at(lines, i, header))
    &&& (forall|i: int| !#[trigger] sets(lines, i, header, "sso_account_id"@, "role_arn"@))
        ==> config.account_id is None
    &&& forall|i: int| #[trigger]
        sets_last(lines, i, header, "sso_account_id"@, "role_arn"@) ==> config.account_id
            == account_in(lines, i, header)
    &&& (forall|i: int| !#[trigger] sets(lines, i, header, "role_name"@, "role_arn"@))
        ==> config.role_name is None
    &&& forall|i: int| #[trigger]
        sets_last(lines, i, header, "role_name"@, "role_arn"@) ==> config.role_name == role_in(
            lines,
            i,
            header,
        )
}

/// The account that a line sets: all of its value, or the fifth of the parts of a
/// role's name, between colons.
pub open spec fn account_in(lines: Seq<Seq<char>>, index: int, header: Seq<char>) -> Option<
    Seq<char>,
> {
    let value = value_at(lines, index, header);
    if sets(lines, index, header, "sso_account_id"@, "sso_account_id"@) {
        Some(value)
    } else if pieces(value, ':').len() >= 5 && pieces(value, ':')[4].len() > 0 {
        Some(pieces(value, ':')[4])
    } else {
        None
    }
}

/// The role that a line sets: all of its value, or what follows the last slash of a
/// role's name.
pub open spec fn role_in(lines: Seq<Seq<char>>, index: int, header: Seq<char>) -> Option<Seq<char>> {
    let value = value_at(lines, index, header);
    if sets(lines, index, header, "role_name"@, "role_name"@) {
        Some(value)
    } else if pieces(value, '/').last().len() > 0 {
        Some(pieces(value, '/').last())
    } else {
        None
    }
}

proof fn lemma_sets_grow(
    lines: Seq<Seq<char>>,
    header: Seq<char>,
    one: Seq<char>,
    other: Seq<char>,
)
    requires
        lines.len() > 0,
    ensures
        (exists|i: int| #[trigger] sets(lines, i, header, one, other)) <==> sets(
            lines,
            lines.len() - 1,
            header,
            one,
            other,
        ) || (exists|i: int| #[trigger] sets(lines.drop_last(), i, header, one, other)),
        sets(lines, lines.len() - 1, header, one, other) ==> forall|i: int| #[trigger]
            sets_last(lines, i, header, one, other) ==> i == lines.len() - 1,
        !sets(lines, lines.len() - 1, header, one, other) ==> forall|i: int| #[trigger]
            sets_last(lines, i, header, one, other) ==> i < lines.len() - 1 && sets_last(
                lines.drop_last(),
                i,
                header,
                one,
                other,
            ) && value_at(lines.drop_last(), i, header) == value_at(lines, i, header) && setting(
                lines.drop_last(),
                i,
                header,
            ) == setting(lines, i, header),
{
    let earlier = lines.drop_last();
    let end = lines.len() - 1;
    assert forall|i: int| 0 <= i < end implies setting(earlier, i, header) == #[trigger] setting(
        lines,
        i,
        header,
    ) by {
        lemma_setting_same(lines, i, header);
    }
    if exists|i: int| #[trigger] sets(lines, i, header, one, other) {
        let i = choose|i: int| #[trigger] sets(lines, i, header, one, other);
        if i < end {
            assert(setting(earlier, i, header) == setting(lines, i, header));
            assert(sets(earlier, i, header, one, other));
        }
    }
    if exists|i: int| #[trigger] sets(earlier, i, header, one, other) {
        let i = choose|i: int| #[trigger] sets(earlier, i, header, one, other);
        assert(setting(earlier, i, header) == setting(lines, i, header));
        assert(sets(lines, i, header, one, other));
    }
    assert forall|i: int| #[trigger] sets_last(lines, i, header, one, other) && i < end implies {
        &&& sets_last(earlier, i, header, one, other)
        &&& setting(earlier, i, header) == setting(lines, i, header)
    } by {
        assert(setting(earlier, i, header) == setting(lines, i, header));
        assert forall|later: int| i < later implies !(#[trigger] sets(
            earlier,
            later,
            header,
            one,
            other,
        )) by {
            assert(!sets(lines, later, header, one, other));
            if later < end {
                assert(setting(earlier, later, header) == setting(lines, later, header));
            }
        }
    }
    assert forall|i: int| #[trigger] sets_last(lines, i, header, one, other) implies i <= end by {
        assert(sets(lines, i, header, one, other));
    }
}

#[verifier::rlimit(60)]
proof fn lemma_says(lines: Seq<Seq<char>>, header: Seq<char>)
    requires
        header.len() > 0,
    ensures
        says(lines, header, config_in(lines, header)),
    decreases lines.len(),
{
    lemma_keys();
    if lines.len() > 0 {
        let earlier = lines.drop_last();
        let before = config_in(earlier, header);
        let after = config_in(lines, header);
        lemma_says(earlier, header);
        lemma_last_line(lines, header);
        lemma_sets_grow(lines, header, "sso_session"@, "sso_start_url"@);
        lemma_sets_grow(lines, header, "login_session"@, "login_session"@);
        lemma_sets_grow(lines, header, "region"@, "region"@);
        lemma_sets_grow(lines, header, "source_profile"@, "source_profile"@);
        lemma_sets_grow(lines, header, "sso_account_id"@, "role_arn"@);
        lemma_sets_grow(lines, header, "role_name"@, "role_arn"@);
        let end = lines.len() - 1;
        if !sets(lines, end, header, "sso_account_id"@, "role_arn"@) {
            assert(after.account_id == before.account_id);
            assert forall|i: int| #[trigger]
                sets_last(lines, i, header, "sso_account_id"@, "role_arn"@) implies after.account_id
                == account_in(lines, i, header) by {
                assert(sets_last(earlier, i, header, "sso_account_id"@, "role_arn"@));
                assert(account_in(earlier, i, header) == account_in(lines, i, header));
            }
        }
        if !sets(lines, end, header, "role_name"@, "role_arn"@) {
            assert(after.role_name == before.role_name);
            assert forall|i: int| #[trigger]
                sets_last(lines, i, header, "role_name"@, "role_arn"@) implies after.role_name
                == role_in(lines, i, header) by {
                assert(sets_last(earlier, i, header, "role_name"@, "role_arn"@));
                assert(role_in(earlier, i, header) == role_in(lines, i, header));
            }
        }
    }
}

/// What the configuration says of a profile is what the lines of its own section
/// say: it signs in by SSO exactly where one of them names a session or a start
/// page, and by a login exactly where one names a login session; region, account,
/// role and source are those of the last line that sets them.
pub proof fn law_config_lines(contents: Seq<char>, profile: Seq<char>)
    ensures
        profile == "default"@ ==> says(
            lines_of(contents),
            "default"@,
            config_of(contents, profile),
        ),
        profile != "default"@ ==> says(
            lines_of(contents),
            "profile "@ + profile,
            config_of(contents, profile),
        ),
{
    reveal_strlit("default");
    reveal_strlit("profile ");
    lemma_says(lines_of(contents), "default"@);
    lemma_says(lines_of(contents), "profile "@ + profile);
}

/// A profile signs in by `aws sso login` exactly where its section names an SSO
/// session or start page, else by `aws login` exactly where it names a login
/// session, and else not at all.
pub proof fn law_sign_in_by_section(contents: Seq<char>, profile: Seq<char>, header: Seq<char>)
    requires
        profile == "default"@ ==> header == "default"@,
        profile != "default"@ ==> header == "profile "@ + profile,
    ensures
        ({
            let lines = lines_of(contents);
            let sso = exists|i: int| #[trigger]
                sets(lines, i, header, "sso_session"@, "sso_start_url"@);
            let login = exists|i: int| #[trigger]
                sets(lines, i, header, "login_session"@, "login_session"@);
            let args = renewal(profile, FileModel::Contents(contents));
            let config = config_of(contents, profile);
            &&& config.is_sso <==> sso
            &&& config.is_login <==> login
            &&& sso ==> args == Ok::<_, Seq<char>>(seq!["sso"@, "login"@]) && auth_of(config)
                == "SSO"@
            &&& !sso && login ==> args == Ok::<_, Seq<char>>(seq!["login"@]) && auth_of(config)
                == "login"@
            &&& !sso && !login ==> args == Err::<Seq<Seq<char>>, _>(
                "profile '"@ + profile
                    + "' is not configured for SSO or `aws login`; refresh its credentials manually"@,
            )
        }),
        renewal(profile, FileModel::Missing) is Err,
{
    law_config_lines(contents, profile);
    reveal_strlit("default");
    reveal_strlit("profile ");
    let none = Seq::<char>::empty();
    assert(pieces(none, '\n') =~= seq![none]);
    assert(lines_of(none) =~= Seq::<Seq<char>>::empty());
    assert(profile_read(FileModel::Missing, profile) == Ok::<_, Seq<char>>(config_of(none, profile)));
}

/// A profile that signs in neither way is called after its role where it has one
/// or names a source, and after its credentials where it does not.
pub proof fn law_auth_label(config: ConfigModel)
    requires
        !config.is_sso,
        !config.is_login,
    ensures
        config.role_name is Some || config.source_profile is Some ==> auth_of(config) == "role"@,
        config.role_name is None && config.source_profile is None ==> auth_of(config)
            == "credentials"@,
{
}

/// A header is a name in brackets; a line that does not start and end in brackets
/// is none.
pub proof fn law_headers(name: Seq<char>, line: Seq<char>)
    requires
        name.len() > 0,
        !is_white_space(name.first()),
        !is_white_space(name.last()),
    ensures
        section_name(seq!['['] + name + seq![']']) == Some(name),
        trimmed(line).len() < 2 || trimmed(line).first() != '[' || trimmed(line).last() != ']'
            ==> section_name(line) is None,
{
    let header = seq!['['] + name + seq![']'];
    law_trimmed_bare(header);
    assert(header.subrange(1, header.len() - 1) =~= name);
    law_trimmed_bare(name);
}

/// A key, an equals sign and a value: the first equals sign parts the two.
pub proof fn law_first_equals_sign(key: Seq<char>, value: Seq<char>)
    requires
        !key.contains('='),
    ensures
        split_once(key + "="@ + value, "="@) == Some((key, value)),
        split_once(key, "="@) is None,
{
    reveal_strlit("=");
    let line = key + "="@ + value;
    assert("="@ =~= seq!['=']);
    lemma_find(line, "="@, 0);
    lemma_find(key, "="@, 0);
    assert(line.subrange(key.len() as int, key.len() as int + 1) =~= "="@);
    assert(occurs_at(line, "="@, key.len() as int));
    match find_from(line, "="@, 0) {
        Some(index) => {
            assert(line.subrange(index, index + 1)[0] == '=');
            assert(line[index] == '=');
            if index < key.len() {
                assert(key[index] == '=');
            }
            assert(index == key.len());
            assert(line.take(index) =~= key);
            assert(line.skip(index + 1) =~= value);
        },
        None => {},
    }
    match find_from(key, "="@, 0) {
        Some(index) => {
            assert(key.subrange(index, index + 1)[0] == '=');
            assert(key[index] == '=');
        },
        None => {},
    }
}

/// A file names a profile exactly where one of its headers does: `default`, a name
/// behind `profile`, or a name on its own; headers of other things name none.
pub proof fn law_profile_headers(contents: Seq<char>, profile: Seq<char>)
    ensures
        file_names(FileModel::Contents(contents)).contains(profile) <==> exists|i: int|
            0 <= i < lines_of(contents).len() && names_profile(
                #[trigger] lines_of(contents)[i],
                profile,
            ),
        !file_names(FileModel::Missing).contains(profile),
{
    lemma_profiles_in(lines_of(contents), profile);
}

/// The line is the header of a profile.
pub open spec fn names_profile(line: Seq<char>, profile: Seq<char>) -> bool {
    section_name(line) matches Some(name) && {
        ||| name == "default"@ && profile == name
        ||| name != "default"@ && "profile "@.is_prefix_of(name) && profile == trimmed(
            name.skip(8),
        )
        ||| name != "default"@ && !contains(name, " "@) && profile == name
    }
}

proof fn lemma_profiles_in(lines: Seq<Seq<char>>, profile: Seq<char>)
    ensures
        profiles_in(lines).contains(profile) <==> exists|i: int|
            0 <= i < lines.len() && names_profile(#[trigger] lines[i], profile),
    decreases lines.len(),
{
    if lines.len() > 0 {
        let earlier = lines.drop_last();
        lemma_profiles_in(earlier, profile);
        lemma_line_profile(lines.last(), profile);
        let found = profiles_in(lines);
        let before = profiles_in(earlier);
        if found.contains(profile) {
            let k = choose|k: int| 0 <= k < found.len() && found[k] == profile;
            if k < before.len() {
                assert(before[k] == profile);
                assert(before.contains(profile));
                let i = choose|i: int|
                    0 <= i < earlier.len() && names_profile(#[trigger] earlier[i], profile);
                assert(names_profile(lines[i], profile));
            } else {
                assert(names_profile(lines[lines.len() - 1], profile));
            }
        }
        if exists|i: int| 0 <= i < lines.len() && names_profile(#[trigger] lines[i], profile) {
            let i = choose|i: int| 0 <= i < lines.len() && names_profile(#[trigger] lines[i], profile);
            if i < earlier.len() {
                assert(names_profile(earlier[i], profile));
                assert(before.contains(profile));
                let k = choose|k: int| 0 <= k < before.len() && before[k] == profile;
                assert(found[k] == profile);
            } else {
                assert(found.last() == profile);
            }
        }
    }
}

proof fn lemma_line_profile(line: Seq<char>, profile: Seq<char>)
    ensures
        line_profile(line) == Some(profile) <==> names_profile(line, profile),
{
    reveal_strlit("profile ");
    reveal_strlit("sso-session ");
    reveal_strlit("services ");
    reveal_strlit(" ");
    match section_name(line) {
        Some(name) => {
            assert(" "@ =~= seq![' ']);
            assert forall|prefix: Seq<char>|
                prefix.len() > 0 && prefix.last() == ' ' && #[trigger] prefix.is_prefix_of(
                    name,
                ) implies contains(name, " "@) by {
                let at = prefix.len() - 1;
                assert(name[at] == prefix[at]);
                assert(name.subrange(at, at + 1) =~= " "@);
                assert(occurs_at(name, " "@, at));
            }
        },
        None => {},
    }
}

} // verus!
