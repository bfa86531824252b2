//! The login of the registry clients: which registries, which clients, with what,
//! and what becomes of it.
use crate::command::{command_message, detail_of, run_message, FailureModel, FileModel, OutputModel};
use crate::course::{fails, succeeds};
use crate::failure::aws_message;
use crate::flow::{file_told, next, run_told};
use crate::json::{parsed_text, Tree};
use crate::login::{
    account_told, advanced, client_in, client_located, client_told, first_told, helper_told,
    login_begun, login_ended, logins_begun, logins_over, logout_told, password_sent, password_told,
    registries_known, registries_sought, registry_in, second_told, settings_told,
};
use crate::ordered::{law_sorted, sorted};
use crate::paths::{docker_config_file, helm_setting};
use crate::registry::{
    all_digits, helper_read, host_of, law_partitions, login_note, registries_for, registry_for,
    registry_named, registry_of, suffix_of, without_scheme, RegistryClient, RegistryLoginMethod,
};
use crate::report::{login_lines, warning_lines};
use crate::session::{saying, ActionModel, ReplyModel, SessionModel};
use crate::settings::{wants_ecr, EnvironmentModel, LineModel, OptionsModel};
use crate::shell::tip_lines;
use crate::text::{
    contains, is_digit, is_white_space, joined, lemma_pieces_extend, lowered, nonblank, padded,
    pieces, trimmed, without_trailing,
};
use crate::utf8::lossy;
use crate::waiting::is_turn;
use crate::words::law_trimmed_bare;
use vstd::prelude::*;
use vstd::utf8::encode_utf8;

verus! {

/// The logins are over: a switch has succeeded, with a warning where one failed,
/// and a login has succeeded only where none failed.
pub proof fn law_logins_over(session: SessionModel, error: Seq<char>)
    ensures
        ({
            let good = logins_over(session, Ok(()));
            let bad = logins_over(session, Err(error));
            let tip = tip_lines(session.options, session.environment);
            if session.task is Switch || session.task is Previous {
                &&& succeeds(good) && good.said == session.said + tip
                &&& succeeds(bad) && bad.said == session.said + warning_lines(
                    error,
                    session.environment,
                ) + tip
            } else {
                &&& succeeds(good) && good.said == session.said + login_lines(
                    session.profile,
                    session.identity,
                    session.options,
                    session.environment,
                )
                &&& fails(bad, error) && bad.said == session.said
            }
        }),
{
    reveal(logins_over);
}

/// The login to registries is skipped where the command line or the environment
/// says so; a variable that is empty, zero, `false` or `no` says nothing.
pub proof fn law_ecr_wanted(options: OptionsModel, environment: EnvironmentModel)
    ensures
        ({
            let off = match environment.no_ecr {
                Some(value) => {
                    let word = lowered(trimmed(value));
                    word.len() > 0 && word != "0"@ && word != "false"@ && word != "no"@
                },
                None => false,
            };
            wants_ecr(options, environment) <==> !options.no_ecr && !off
        }),
        forall|session: SessionModel| #[trigger]
            logins_begun(session).step is Finished || wants_ecr(
                session.options,
                session.environment,
            ),
{
    reveal_strlit("");
    reveal(logins_begun);
    reveal(logins_over);
    match environment.no_ecr {
        Some(value) => {
            let word = lowered(trimmed(value));
            if word.len() == 0 {
                assert(word =~= ""@);
            }
        },
        None => {},
    }
}

/// The text is digits only.
pub open spec fn is_number(text: Seq<char>) -> bool {
    forall|i: int| 0 <= i < text.len() ==> '0' <= #[trigger] text[i] <= '9'
}

/// A number stands for the registry of that account, and anything else for the
/// host in it.
pub open spec fn stands_for(item: Seq<char>, region: Seq<char>, registry: Seq<char>) -> bool {
    &&& is_number(item) ==> registry == registry_of(item, region)
    &&& !is_number(item) ==> registry == host_of(item)
}

proof fn lemma_stands_for(item: Seq<char>, region: Seq<char>, registry: Seq<char>)
    ensures
        stands_for(item, region, registry) <==> registry == registry_for(item, region),
{
    if is_number(item) {
        assert forall|k: int| 0 <= k < item.len() implies is_digit(#[trigger] item[k]) by {}
    } else if all_digits(item) {
        assert forall|k: int| 0 <= k < item.len() implies '0' <= #[trigger] item[k] <= '9' by {
            assert(is_digit(item[k]));
        }
    }
}

/// The registries are those that the command line names, or, where it names none,
/// those that the environment lists between commas: each number is an account, and
/// anything else the address of a host. Where none is named, the account of the
/// caller is asked for.
pub proof fn law_registries_named(
    session: SessionModel,
    items: Seq<Seq<char>>,
    region: Seq<char>,
    registry: Seq<char>,
)
    requires
        wants_ecr(session.options, session.environment),
        session.config.region == Some(region),
        session.options.registries.len() > 0 ==> items == session.options.registries,
        session.options.registries.len() == 0 ==> items == (
        match session.environment.ecr_registries {
            Some(list) => nonblank(pieces(list, ',')),
            None => Seq::empty(),
        }),
    ensures
        ({
            let after = logins_begun(session);
            &&& items.len() > 0 ==> (after.registries.contains(registry) <==> exists|i: int|
                0 <= i < items.len() && stands_for(#[trigger] items[i], region, registry))
            &&& items.len() > 0 ==> after.registries.no_duplicates()
            &&& items.len() == 0 ==> after.step is Account && (
            after.action matches ActionModel::Run(call) && call.program == "aws"@ && call.args
                == seq![
                "sts"@,
                "get-caller-identity"@,
                "--query"@,
                "Account"@,
                "--output"@,
                "text"@,
                "--profile"@,
                session.profile,
            ])
        }),
{
    reveal(logins_begun);
    reveal(registries_sought);
    let mapped = items.map_values(|item: Seq<char>| registry_for(item, region));
    law_sorted(mapped);
    let after = logins_begun(session);
    if items.len() > 0 {
        let registries = registries_for(items, region);
        lemma_known_registries(SessionModel { registries, ..session });
        assert(after.registries == sorted(mapped));
        assert forall|i: int| 0 <= i < items.len() implies (stands_for(
            #[trigger] items[i],
            region,
            registry,
        ) <==> mapped[i] == registry) by {
            lemma_stands_for(items[i], region, registry);
        }
        if mapped.contains(registry) {
            let i = choose|i: int| 0 <= i < mapped.len() && mapped[i] == registry;
            assert(stands_for(items[i], region, registry));
        }
        if exists|i: int| 0 <= i < items.len() && stands_for(#[trigger] items[i], region, registry) {
            let i = choose|i: int|
                0 <= i < items.len() && stands_for(#[trigger] items[i], region, registry);
            assert(mapped[i] == registry);
        }
    } else {
        if let ActionModel::Run(call) = after.action {
            assert(call.args =~= seq![
                "sts"@,
                "get-caller-identity"@,
                "--query"@,
                "Account"@,
                "--output"@,
                "text"@,
                "--profile"@,
                session.profile,
            ]);
        }
    }
}

proof fn lemma_known_registries(session: SessionModel)
    ensures
        registries_known(session).registries == session.registries,
{
    reveal(registries_known);
    reveal(logins_over);
}

/// Without a region there is nothing to log in to.
pub proof fn law_no_region(session: SessionModel)
    requires
        session.config.region is None,
    ensures
        logins_begun(session).step is Finished,
        logins_begun(session).action == ActionModel::Finish(Ok(())),
        session.registries.len() > 0 && (session.environment.docker || session.environment.helm)
            ==> registries_known(session) == logins_over(
            session,
            Err("profile '"@ + session.profile + "' has no region; skipped ECR login"@),
        ),
{
    reveal(logins_begun);
    reveal(registries_sought);
    reveal(registries_known);
    reveal(logins_over);
}

/// The registry of an account is that of its region.
pub proof fn law_account_registry(account: Seq<char>, region: Seq<char>)
    ensures
        ({
            let start = account + ".dkr.ecr."@ + region;
            &&& "cn-"@.is_prefix_of(region) ==> registry_of(account, region) == start
                + ".amazonaws.com.cn"@
            &&& "us-iso-"@.is_prefix_of(region) ==> registry_of(account, region) == start
                + ".c2s.ic.gov"@
            &&& "us-isob-"@.is_prefix_of(region) ==> registry_of(account, region) == start
                + ".sc2s.sgov.gov"@
            &&& "eu-isoe-"@.is_prefix_of(region) ==> registry_of(account, region) == start
                + ".cloud.adc-e.uk"@
            &&& "us-isof-"@.is_prefix_of(region) ==> registry_of(account, region) == start
                + ".csp.hci.ic.gov"@
            &&& "eusc-"@.is_prefix_of(region) ==> registry_of(account, region) == start
                + ".amazonaws.eu"@
            &&& !"cn-"@.is_prefix_of(region) && !"us-iso-"@.is_prefix_of(region)
                && !"us-isob-"@.is_prefix_of(region) && !"eu-isoe-"@.is_prefix_of(region)
                && !"us-isof-"@.is_prefix_of(region) && !"eusc-"@.is_prefix_of(region)
                ==> registry_of(account, region) == start + ".amazonaws.com"@
        }),
{
    law_partitions(region);
    reveal_strlit(".");
    reveal_strlit("amazonaws.com.cn");
    reveal_strlit(".amazonaws.com.cn");
    reveal_strlit("c2s.ic.gov");
    reveal_strlit(".c2s.ic.gov");
    reveal_strlit("sc2s.sgov.gov");
    reveal_strlit(".sc2s.sgov.gov");
    reveal_strlit("cloud.adc-e.uk");
    reveal_strlit(".cloud.adc-e.uk");
    reveal_strlit("csp.hci.ic.gov");
    reveal_strlit(".csp.hci.ic.gov");
    reveal_strlit("amazonaws.eu");
    reveal_strlit(".amazonaws.eu");
    reveal_strlit("amazonaws.com");
    reveal_strlit(".amazonaws.com");
    assert("."@ + "amazonaws.com.cn"@ =~= ".amazonaws.com.cn"@);
    assert("."@ + "c2s.ic.gov"@ =~= ".c2s.ic.gov"@);
    assert("."@ + "sc2s.sgov.gov"@ =~= ".sc2s.sgov.gov"@);
    assert("."@ + "cloud.adc-e.uk"@ =~= ".cloud.adc-e.uk"@);
    assert("."@ + "csp.hci.ic.gov"@ =~= ".csp.hci.ic.gov"@);
    assert("."@ + "amazonaws.eu"@ =~= ".amazonaws.eu"@);
    assert("."@ + "amazonaws.com"@ =~= ".amazonaws.com"@);
    let start = account + ".dkr.ecr."@ + region;
    let suffix = suffix_of(region);
    assert(start + "."@ + suffix =~= start + ("."@ + suffix));
}

/// Of the address of a registry the host counts: without `https://` or `http://`
/// before it, and without a path behind it.
pub proof fn law_host(host: Seq<char>, path: Seq<char>)
    requires
        host.len() > 0,
        !host.contains('/'),
        host.last() != ':',
        !is_white_space(host.first()),
        !is_white_space(host.last()),
        path.len() == 0 || path.first() == '/',
        path.len() > 0 ==> path.last() != '/' && !is_white_space(path.last()),
    ensures
        host_of(host + path) == host,
        host_of("https://"@ + host + path) == host,
        host_of("http://"@ + host + path) == host,
        host_of(host + seq!['/']) == host,
{
    reveal_strlit("https://");
    reveal_strlit("http://");
    lemma_host_end(host, path);
    lemma_bare_host(host, path);
    lemma_host_end("https://"@ + host, path);
    lemma_host_end("http://"@ + host, path);
    let secure = "https://"@ + host + path;
    let open = "http://"@ + host + path;
    assert("https://"@.is_prefix_of(secure)) by {
        assert(secure.subrange(0, 8) =~= "https://"@);
    }
    assert(secure.skip(8) =~= host + path);
    assert("http://"@.is_prefix_of(open)) by {
        assert(open.subrange(0, 7) =~= "http://"@);
    }
    assert(open.skip(7) =~= host + path);
    assert(!"https://"@.is_prefix_of(open)) by {
        assert(open[4] == ':');
    }
    let slashed = host + seq!['/'];
    law_trimmed_bare(slashed);
    assert(slashed.drop_last() =~= host);
    assert(without_trailing(host, '/') == host) by {
        assert(host.contains(host.last()));
    }
    let nothing = Seq::<char>::empty();
    lemma_bare_host(host, nothing);
    assert(host + nothing =~= host);
}

proof fn lemma_host_end(start: Seq<char>, path: Seq<char>)
    requires
        start.len() > 0,
        !is_white_space(start.first()),
        start.last() != '/',
        !is_white_space(start.last()),
        path.len() > 0 ==> path.last() != '/' && !is_white_space(path.last()),
    ensures
        trimmed(start + path) == start + path,
        without_trailing(start + path, '/') == start + path,
{
    let whole = start + path;
    assert(whole.first() == start.first());
    if path.len() == 0 {
        assert(whole =~= start);
    } else {
        assert(whole.last() == path.last());
    }
    law_trimmed_bare(whole);
}

proof fn lemma_bare_host(host: Seq<char>, path: Seq<char>)
    requires
        host.len() > 0,
        !host.contains('/'),
        host.last() != ':',
        path.len() == 0 || path.first() == '/',
    ensures
        without_scheme(host + path) == host + path,
        pieces(host + path, '/')[0] == host,
{
    reveal_strlit("https://");
    reveal_strlit("http://");
    let whole = host + path;
    assert("https://"@[6] == '/' && "https://"@[7] == '/' && "https://"@[5] == ':');
    assert("http://"@[5] == '/' && "http://"@[6] == '/' && "http://"@[4] == ':');
    assert forall|k: int| 0 <= k < host.len() implies host[k] != '/' && whole[k] == host[k] by {
        assert(host.contains(host[k]));
    }
    let end = host.len() - 1;
    if "https://"@.is_prefix_of(whole) {
        assert(whole[6] == '/' && whole[5] == ':');
        if path.len() > 0 && host.len() < 6 {
            assert(whole[host.len() as int] == '/');
            assert("https://"@[host.len() as int] == '/');
        }
        assert(whole[end] == host[end]);
    }
    if "http://"@.is_prefix_of(whole) {
        assert(whole[5] == '/' && whole[4] == ':');
        if path.len() > 0 && host.len() < 5 {
            assert(whole[host.len() as int] == '/');
            assert("http://"@[host.len() as int] == '/');
        }
        assert(whole[end] == host[end]);
    }
    lemma_first_piece(host, path);
}

proof fn lemma_first_piece(host: Seq<char>, path: Seq<char>)
    requires
        !host.contains('/'),
        path.len() == 0 || path.first() == '/',
    ensures
        pieces(host + path, '/').len() > 0,
        pieces(host + path, '/')[0] == host,
        path.len() > 0 ==> pieces(host + path, '/').len() > 1,
    decreases path.len(),
{
    let none = Seq::<char>::empty();
    if path.len() == 0 {
        lemma_pieces_extend(none, host, '/');
        assert(none + host =~= host + path);
        assert(pieces(none, '/') =~= seq![none]);
        assert(pieces(none, '/').drop_last().push(none + host) =~= seq![host]);
    } else {
        let fewer = path.drop_last();
        assert((host + path).drop_last() =~= host + fewer);
        if fewer.len() > 0 {
            assert(fewer.first() == path.first());
        }
        lemma_first_piece(host, fewer);
    }
}

/// The caller's own account has the registry to log in to, where AWS names one;
/// else there is nothing to log in to, and the logins are over.
pub proof fn law_account_told(session: SessionModel, output: OutputModel, region: Seq<char>)
    requires
        session.step is Account,
        session.config.region == Some(region),
    ensures
        ({
            let after = next(session, ReplyModel::Ran(Ok(output)));
            let account = trimmed(lossy(output.stdout));
            &&& output.success && account.len() > 0 && account != "None"@ ==> after
                == registries_known(
                SessionModel { registries: seq![registry_of(account, region)], ..session },
            )
            &&& output.success && (account.len() == 0 || account == "None"@) ==> after
                == logins_over(
                session,
                Err("AWS returned no account ID; skipped ECR login"@),
            )
            &&& !output.success ==> after == logins_over(
                session,
                Err(
                    aws_message(
                        "could not determine the AWS account"@,
                        session.profile,
                        output,
                        session.options.verbose,
                    ),
                ),
            )
        }),
{
    reveal(run_told);
    reveal(account_told);
}

/// Once the registries are known, AWS is asked for a password in the profile's
/// region, for the clients that are installed: Docker before Helm.
pub proof fn law_password_asked(session: SessionModel, region: Seq<char>)
    requires
        session.registries.len() > 0,
        session.config.region == Some(region),
    ensures
        ({
            let after = registries_known(session);
            let environment = session.environment;
            &&& environment.docker || environment.helm ==> {
                &&& after.step is Password
                &&& after.action matches ActionModel::Run(call) && call.program == "aws"@
                    && call.args == seq![
                    "ecr"@,
                    "get-login-password"@,
                    "--region"@,
                    region,
                    "--profile"@,
                    session.profile,
                ]
                &&& after.clients == if !environment.helm {
                    seq![RegistryClient::Docker]
                } else if !environment.docker {
                    seq![RegistryClient::Helm]
                } else {
                    seq![RegistryClient::Docker, RegistryClient::Helm]
                }
                &&& after.registries == session.registries
                &&& after.profile == session.profile
                &&& environment.error_terminal && !environment.color && !session.options.quiet
                    && !session.options.json && !session.options.verbose ==> after.said
                    == session.said.push(
                    LineModel::Note("… Requesting ECR credentials in "@ + region + "…"@),
                )
            }
            &&& !environment.docker && !environment.helm ==> after == logins_over(
                session,
                Err("Docker and Helm are not installed; skipped ECR login"@),
            )
        }),
{
    reveal(registries_known);
    reveal_strlit("… Requesting ECR credentials in ");
    reveal_strlit("…");
    reveal_strlit(" ");
    reveal_strlit("Requesting ECR credentials in ");
    assert("…"@ + " "@ + ("Requesting ECR credentials in "@ + region + "…"@)
        =~= "… Requesting ECR credentials in "@ + region + "…"@);
    if session.environment.docker || session.environment.helm {
        let call = registries_known(session).action->Run_0;
        assert(call.args =~= seq![
            "ecr"@,
            "get-login-password"@,
            "--region"@,
            region,
            "--profile"@,
            session.profile,
        ]);
    }
}

/// The turn of one client at one registry begins with the client's configuration:
/// Docker's own, the one that Helm's variable names, or the one that Helm itself
/// names. Where there is no configuration, the client gets the password.
pub open spec fn takes_turn(session: SessionModel, registry: nat, client: nat) -> bool {
    let places = session.environment.places;
    &&& session.registry == registry
    &&& session.client == client
    &&& session.clients[client as int] is Docker ==> match docker_config_file(places) {
        Some(path) => session.step is ClientConfig && session.action == ActionModel::Read(path),
        None => session.step is FirstLogin && sends_password(session, registry, client),
    }
    &&& session.clients[client as int] is Helm ==> if places.helm_registry_config is Some
        && places.helm_registry_config->0.len() > 0 {
        session.step is ClientConfig && session.action == ActionModel::Read(
            places.helm_registry_config->0,
        )
    } else {
        session.step is HelmSettings && (session.action matches ActionModel::Run(call)
            && call.program == "helm"@ && call.args == seq!["env"@])
    }
}

/// The client is run to log in to the registry, with the password as its input.
pub open spec fn sends_password(session: SessionModel, registry: nat, client: nat) -> bool {
    let host = session.registries[registry as int];
    session.action matches ActionModel::Run(call) && call.input == Some(session.password)
        && call.set.len() == 0 && call.unset.len() == 0 && call.capture is Errors && match
    session.clients[client as int] {
        RegistryClient::Docker => call.program == "docker"@ && call.args == seq![
            "login"@,
            host,
            "--username"@,
            "AWS"@,
            "--password-stdin"@,
        ],
        RegistryClient::Helm => call.program == "helm"@ && call.args == seq![
            "registry"@,
            "login"@,
            host,
            "--username"@,
            "AWS"@,
            "--password-stdin"@,
        ],
    }
}

proof fn lemma_turn(session: SessionModel)
    requires
        session.registry < session.registries.len(),
        session.client < session.clients.len(),
    ensures
        takes_turn(login_begun(session), session.registry, session.client),
        login_begun(session).said == session.said,
        login_begun(session).failures == session.failures,
        login_begun(session).password == session.password,
{
    reveal(login_begun);
    reveal(client_located);
    reveal(password_sent);
}

/// The turn goes on: the same client at the same registry, and nothing printed or
/// failed meanwhile.
pub open spec fn same_turn(before: SessionModel, after: SessionModel) -> bool {
    &&& after.registry == before.registry
    &&& after.client == before.client
    &&& after.failures == before.failures
    &&& after.said == before.said
}

/// What AWS prints is the password, and the first client begins with the first
/// registry; where AWS prints none, the logins are over.
pub proof fn law_password_told(session: SessionModel, output: OutputModel)
    requires
        session.step is Password,
        session.registries.len() > 0,
        session.clients.len() > 0,
    ensures
        ({
            let after = next(session, ReplyModel::Ran(Ok(output)));
            &&& output.success ==> after.password == output.stdout && takes_turn(after, 0, 0)
                && after.failures.len() == 0
            &&& !output.success ==> after == logins_over(
                session,
                Err(
                    aws_message(
                        "could not get an ECR login token"@,
                        session.profile,
                        output,
                        session.options.verbose,
                    ),
                ),
            )
        }),
{
    reveal(run_told);
    reveal(password_told);
    lemma_turn(
        SessionModel {
            password: output.stdout,
            failures: Seq::empty(),
            registry: 0,
            client: 0,
            ..session
        },
    );
}

/// After a login it is the next client's turn at the same registry, or, after the
/// last client, the first client's at the next registry; after the last registry
/// the logins are over, and have failed where one of them has.
pub open spec fn goes_to_next(before: SessionModel, after: SessionModel) -> bool {
    if before.client + 1 < before.clients.len() {
        takes_turn(after, before.registry, before.client + 1)
    } else if before.registry + 1 < before.registries.len() {
        takes_turn(after, before.registry + 1, 0)
    } else {
        after.step is Finished
    }
}

/// A login that has worked is noted, and the next one follows.
pub proof fn law_login_worked(session: SessionModel, method: RegistryLoginMethod)
    requires
        is_turn(session),
    ensures
        ({
            let after = login_ended(session, Ok(method));
            let registry = session.registries[session.registry as int];
            let client = session.clients[session.client as int];
            &&& goes_to_next(session, after)
            &&& after.failures == session.failures
            &&& !(after.step is Finished) && (session.options.quiet || session.options.json)
                ==> after.said == session.said
            &&& !(after.step is Finished) && !session.options.quiet && !session.options.json
                && !session.environment.color ==> after.said == session.said.push(
                LineModel::Note(
                    (match client {
                        RegistryClient::Docker => "✓ Docker  "@,
                        RegistryClient::Helm => "✓ Helm    "@,
                    }) + registry + (match method {
                        RegistryLoginMethod::Password => ""@,
                        RegistryLoginMethod::EcrCredentialHelper => "  (ecr-login)"@,
                    }),
                ),
            )
            &&& after.step is Finished && session.failures.len() == 0 ==> after.action
                == ActionModel::Finish(Ok(()))
        }),
{
    reveal(login_ended);
    reveal(advanced);
    reveal_strlit("✓ Docker  ");
    reveal_strlit("✓ Helm    ");
    reveal_strlit("✓");
    reveal_strlit("Docker");
    reveal_strlit("Helm");
    reveal_strlit(" ");
    reveal_strlit("");
    reveal_strlit("  (ecr-login)");
    reveal_strlit("  ");
    reveal_strlit("(ecr-login)");
    assert("✓"@ + " "@ + padded("Docker"@, 7) + " "@ =~= "✓ Docker  "@);
    assert("✓"@ + " "@ + padded("Helm"@, 7) + " "@ =~= "✓ Helm    "@);
    assert("  "@ + "(ecr-login)"@ =~= "  (ecr-login)"@);
    assert(""@ =~= Seq::<char>::empty());
    let lines = if session.options.quiet || session.options.json {
        Seq::empty()
    } else {
        seq![
            LineModel::Note(
                login_note(
                    client_in(session),
                    registry_in(session),
                    method,
                    session.environment.color,
                ),
            ),
        ]
    };
    let noted = saying(session, lines);
    if session.options.quiet || session.options.json {
        assert(noted.said =~= session.said);
    }
    lemma_advanced(noted);
}

proof fn lemma_advanced(session: SessionModel)
    requires
        session.registry < session.registries.len(),
        session.client < session.clients.len(),
    ensures
        goes_to_next(session, advanced(session)),
        advanced(session).failures == session.failures,
        !(advanced(session).step is Finished) ==> advanced(session).said == session.said,
        advanced(session).step is Finished ==> advanced(session) == logins_over(
            SessionModel { client: 0, registry: session.registry + 1, ..session },
            if session.failures.len() == 0 {
                Ok(())
            } else {
                Err(joined(session.failures, "; "@))
            },
        ),
        advanced(session).step is Finished && session.failures.len() == 0 ==> advanced(
            session,
        ).action == ActionModel::Finish(Ok(())),
{
    reveal(advanced);
    if session.client + 1 < session.clients.len() {
        lemma_turn(SessionModel { client: session.client + 1, ..session });
    } else {
        let following = SessionModel { client: 0, registry: session.registry + 1, ..session };
        if session.registry + 1 < session.registries.len() {
            lemma_turn(following);
        } else {
            reveal(login_begun);
            reveal(logins_over);
        }
    }
}

/// A login that failed is kept, and the next one follows; at the end all failures
/// are told.
pub proof fn law_login_failed(session: SessionModel, error: Seq<char>)
    requires
        is_turn(session),
    ensures
        ({
            let after = login_ended(session, Err(error));
            &&& goes_to_next(session, after)
            &&& after.failures == session.failures.push(error)
            &&& after.step is Finished && session.task is Login ==> fails(
                after,
                joined(session.failures.push(error), "; "@),
            )
        }),
{
    reveal(login_ended);
    lemma_advanced(SessionModel { failures: session.failures.push(error), ..session });
    reveal(logins_over);
}

/// Where Helm names its configuration, it is read; where it names none, Helm gets
/// the password.
pub proof fn law_helm_settings(session: SessionModel, output: OutputModel)
    requires
        session.step is HelmSettings,
        is_turn(session),
        session.clients[session.client as int] is Helm,
        session.environment.places.helm_registry_config is None
            || session.environment.places.helm_registry_config->0.len() == 0,
    ensures
        ({
            let after = next(session, ReplyModel::Ran(Ok(output)));
            match helm_setting(lossy(output.stdout)) {
                Some(path) => {
                    &&& output.success ==> after.step is ClientConfig && after.action
                        == ActionModel::Read(encode_utf8(path))
                    &&& same_turn(session, after)
                    &&& !output.success ==> after.step is FirstLogin && sends_password(
                        after,
                        session.registry,
                        session.client,
                    )
                },
                None => after.step is FirstLogin && sends_password(
                    after,
                    session.registry,
                    session.client,
                ) && same_turn(session, after),
            }
        }),
{
    reveal(run_told);
    reveal(settings_told);
    reveal(client_located);
    reveal(password_sent);
}

/// A client whose configuration names another helper than the one that asks AWS
/// itself, or none, gets the password; where it names that one, the helper is asked
/// for the registry under the profile, without static credentials.
pub proof fn law_client_configured(session: SessionModel, read: FileModel)
    requires
        session.step is ClientConfig,
        is_turn(session),
    ensures
        ({
            let after = next(session, ReplyModel::File(read));
            let registry = session.registries[session.registry as int];
            session.action matches ActionModel::Read(path) ==> match helper_read(
                path,
                read,
                registry,
            ) {
                Ok(helper) => {
                    &&& helper != Some("ecr-login"@) ==> after.step is FirstLogin
                        && sends_password(after, session.registry, session.client) && same_turn(
                        session,
                        after,
                    )
                    &&& helper == Some("ecr-login"@) && session.environment.credential_helper ==> {
                        &&& after.step is Helper
                        &&& same_turn(session, after)
                        &&& after.action matches ActionModel::Run(call) && call.program
                            == "docker-credential-ecr-login"@ && call.args == seq!["get"@]
                            && call.set == seq![
                            ("AWS_PROFILE"@, session.profile),
                            ("AWS_DEFAULT_PROFILE"@, session.profile),
                        ] && call.unset == seq![
                            "AWS_ACCESS_KEY_ID"@,
                            "AWS_SECRET_ACCESS_KEY"@,
                            "AWS_SESSION_TOKEN"@,
                            "AWS_SECURITY_TOKEN"@,
                        ] && call.input == Some(encode_utf8(registry + "\n"@))
                            && call.capture is Errors
                    }
                    &&& helper == Some("ecr-login"@) && !session.environment.credential_helper
                        ==> after == login_ended(
                        session,
                        Err("'docker-credential-ecr-login' was not found in PATH"@),
                    )
                },
                Err(error) => after == login_ended(session, Err(error)),
            }
        }),
{
    reveal(file_told);
    reveal(client_told);
    reveal(password_sent);
    reveal_strlit("'docker-credential-ecr-login' was not found in PATH");
    reveal_strlit("'");
    reveal_strlit("docker-credential-ecr-login");
    reveal_strlit("' was not found in PATH");
    assert("'"@ + "docker-credential-ecr-login"@ + "' was not found in PATH"@
        =~= "'docker-credential-ecr-login' was not found in PATH"@);
}

/// The helper for a registry is the one that the configuration names for it, and
/// else the one that it names for all; an empty name is none. Without a file there
/// is no helper.
pub proof fn law_helper_named(
    path: Seq<u8>,
    contents: Seq<char>,
    members: Map<Seq<char>, Tree>,
    helpers: Map<Seq<char>, Tree>,
    registry: Seq<char>,
    helper: Seq<char>,
)
    requires
        parsed_text(contents) == Ok::<_, Seq<char>>(Tree::Object(members)),
        helper.len() > 0,
    ensures
        ({
            let read = helper_read(path, FileModel::Contents(contents), registry);
            &&& members.contains_key("credHelpers"@) && members["credHelpers"@] == Tree::Object(
                helpers,
            ) && helpers.contains_key(registry) && helpers[registry] == Tree::Text(helper) ==> read
                == Ok::<_, Seq<char>>(Some(helper))
            &&& !members.contains_key("credHelpers"@) && members.contains_key("credsStore"@)
                && members["credsStore"@] == Tree::Text(helper) ==> read == Ok::<_, Seq<char>>(
                Some(helper),
            )
            &&& members.contains_key("credHelpers"@) && members["credHelpers"@] == Tree::Object(
                helpers,
            ) && !helpers.contains_key(registry) && members.contains_key("credsStore"@)
                && members["credsStore"@] == Tree::Text(helper) ==> read == Ok::<_, Seq<char>>(
                Some(helper),
            )
            &&& !members.contains_key("credHelpers"@) && !members.contains_key("credsStore"@)
                ==> read == Ok::<Option<Seq<char>>, Seq<char>>(None)
        }),
        helper_read(path, FileModel::Missing, registry) == Ok::<Option<Seq<char>>, Seq<char>>(None),
{
}

/// A helper that answers has logged the client in; one that fails has not.
pub proof fn law_helper_told(session: SessionModel, output: OutputModel)
    requires
        session.step is Helper,
        is_turn(session),
    ensures
        ({
            let after = next(session, ReplyModel::Ran(Ok(output)));
            let registry = session.registries[session.registry as int];
            &&& output.success ==> after == login_ended(
                session,
                Ok(RegistryLoginMethod::EcrCredentialHelper),
            )
            &&& !output.success ==> after == login_ended(
                session,
                Err(
                    command_message(
                        "docker-credential-ecr-login could not authenticate to "@ + registry,
                        output,
                    ),
                ),
            )
        }),
{
    reveal(run_told);
    reveal(helper_told);
    reveal_strlit("docker-credential-ecr-login could not authenticate to ");
    reveal_strlit("docker-credential-ecr-login");
    reveal_strlit(" could not authenticate to ");
    assert("docker-credential-ecr-login"@ + " could not authenticate to "@
        =~= "docker-credential-ecr-login could not authenticate to "@);
}

/// A client that took the password has logged in. Where Helm says that the
/// Keychain holds the item already, it logs out of the registry and tries once
/// more; any other failure is the end of that login.
pub proof fn law_password_login(session: SessionModel, output: OutputModel)
    requires
        session.step is FirstLogin,
        is_turn(session),
    ensures
        ({
            let after = next(session, ReplyModel::Ran(Ok(output)));
            let registry = session.registries[session.registry as int];
            let helm = session.clients[session.client as int] is Helm;
            let detail = lowered(detail_of(output));
            let duplicate = contains(detail, "-25299"@) || contains(
                detail,
                "the specified item already exists in the keychain"@,
            );
            let message = command_message(
                (if helm {
                    "helm login to "@
                } else {
                    "docker login to "@
                }) + registry + " failed"@,
                output,
            );
            &&& output.success ==> after == login_ended(session, Ok(RegistryLoginMethod::Password))
            &&& !output.success && helm && duplicate ==> {
                &&& after.step is Logout
                &&& same_turn(session, after)
                &&& after.login_error == message
                &&& after.action matches ActionModel::Run(call) && call.program == "helm"@
                    && call.args == seq!["registry"@, "logout"@, registry]
            }
            &&& !output.success && !(helm && duplicate) ==> after == login_ended(
                session,
                Err(message),
            )
        }),
{
    reveal(run_told);
    reveal(first_told);
    reveal_strlit("helm login to ");
    reveal_strlit("docker login to ");
    reveal_strlit("helm");
    reveal_strlit("docker");
    reveal_strlit(" login to ");
    assert("helm"@ + " login to "@ =~= "helm login to "@);
    assert("docker"@ + " login to "@ =~= "docker login to "@);
}

/// After the logout the login is tried again in the same way, and what becomes of
/// it counts; where the logout fails, the login has failed.
pub proof fn law_second_login(session: SessionModel, output: OutputModel)
    requires
        is_turn(session),
    ensures
        session.step is Logout && output.success ==> {
            let after = next(session, ReplyModel::Ran(Ok(output)));
            after.step is SecondLogin && sends_password(after, session.registry, session.client)
                && same_turn(session, after)
        },
        session.step is Logout && !output.success ==> next(session, ReplyModel::Ran(Ok(output)))
            == login_ended(
            session,
            Err(
                session.login_error + "; automatic Keychain cleanup failed: "@ + command_message(
                    "helm logout from "@ + session.registries[session.registry as int] + " failed"@,
                    output,
                ),
            ),
        ),
        session.step is SecondLogin && output.success ==> next(session, ReplyModel::Ran(Ok(output)))
            == login_ended(session, Ok(RegistryLoginMethod::Password)),
        session.step is SecondLogin && session.clients[session.client as int] is Helm
            && !output.success ==> next(session, ReplyModel::Ran(Ok(output))) == login_ended(
            session,
            Err(
                command_message(
                    "helm login to "@ + session.registries[session.registry as int] + " failed"@,
                    output,
                ),
            ),
        ),
{
    reveal(run_told);
    reveal(logout_told);
    reveal(second_told);
    reveal_strlit("helm login to ");
    reveal_strlit("helm");
    reveal_strlit(" login to ");
    assert("helm"@ + " login to "@ =~= "helm login to "@);
}

/// A program that could not be run ends what it was for: the logins, where it was
/// the AWS CLI, or the one login that a client or a helper was run for.
pub proof fn law_runs_fail(session: SessionModel, failure: FailureModel, cause: Seq<char>)
    requires
        is_turn(session),
    ensures
        session.step is Account || session.step is Password ==> next(
            session,
            ReplyModel::Ran(Err(FailureModel::Start(cause))),
        ) == logins_over(session, Err("could not run AWS CLI: "@ + cause)),
        session.step is FirstLogin || session.step is SecondLogin ==> next(
            session,
            ReplyModel::Ran(Err(failure)),
        ) == login_ended(
            session,
            Err(
                run_message(
                    if session.clients[session.client as int] is Helm {
                        "helm"@
                    } else {
                        "docker"@
                    },
                    "credentials"@,
                    failure,
                ),
            ),
        ),
        session.step is Helper ==> next(session, ReplyModel::Ran(Err(failure))) == login_ended(
            session,
            Err(run_message("docker-credential-ecr-login"@, "registry"@, failure)),
        ),
        session.step is Logout ==> next(session, ReplyModel::Ran(Err(FailureModel::Start(cause))))
            == login_ended(
            session,
            Err(
                session.login_error + "; automatic Keychain cleanup failed: "@ + (
                "could not start helm: "@ + cause),
            ),
        ),
{
    reveal(run_told);
    reveal(account_told);
    reveal(password_told);
    reveal(helper_told);
    reveal(first_told);
    reveal(logout_told);
    reveal(second_told);
}

/// A registry that is named on the command line is taken without the space around
/// it, and must not be empty.
pub proof fn law_registry_named(value: Seq<char>)
    ensures
        trimmed(value).len() > 0 ==> registry_named(value) == Ok::<_, Seq<char>>(trimmed(value)),
        trimmed(value).len() == 0 ==> registry_named(value) == Err::<Seq<char>, _>(
            "registry cannot be empty"@,
        ),
{
}

/// A client's configuration that cannot be read or understood is an error, which
/// names the file.
pub proof fn law_helper_unknown(
    path: Seq<u8>,
    contents: Seq<char>,
    registry: Seq<char>,
    error: Seq<char>,
)
    ensures
        parsed_text(contents) == Err::<Tree, _>(error) ==> helper_read(
            path,
            FileModel::Contents(contents),
            registry,
        ) == Err::<Option<Seq<char>>, _>("could not parse "@ + lossy(path) + ": "@ + error),
        helper_read(path, FileModel::Failed(error), registry) == Err::<Option<Seq<char>>, _>(
            "could not read "@ + lossy(path) + ": "@ + error,
        ),
{
    reveal_strlit("could not parse ");
    reveal_strlit("could not read ");
    reveal_strlit("could not ");
    reveal_strlit("parse");
    reveal_strlit("read");
    reveal_strlit(" ");
    assert("could not "@ + "parse"@ + " "@ =~= "could not parse "@);
    assert("could not "@ + "read"@ + " "@ =~= "could not read "@);
}

/// A Helm that cannot be asked for its settings is like one that fails.
pub proof fn law_no_settings(session: SessionModel, failure: FailureModel, output: OutputModel)
    requires
        session.step is HelmSettings,
        !output.success,
    ensures
        next(session, ReplyModel::Ran(Err(failure))) == next(session, ReplyModel::Ran(Ok(output))),
{
    reveal(run_told);
    reveal(settings_told);
}

} // verus!
