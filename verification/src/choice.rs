//! Choosing a profile: by name, by what is remembered, or from a list.
use crate::command::{outcome, verdict, FileModel, FileRead};
use crate::config::{
    auth_of, config_of, config_read, parse_profile_config, read_aws_config_contents,
};
use crate::distance::{closest_of, closest_profile};
use crate::settings::{effective_profile, profile_in_effect, Environment, EnvironmentModel};
use crate::state::{switched, State, StateModel};
use crate::style::{paint, painted, Style};
use crate::text::{
    borrowed, copied_or, is_among, is_given, or_else, pad, padded, same, slice_of, texts,
};
use vstd::prelude::*;

verus! {

/// What to add to the message of an unknown profile: the one that was likely
/// meant, if there is one.
pub open spec fn hint_for(requested: Seq<char>, profiles: Seq<Seq<char>>) -> Seq<char> {
    match closest_of(requested, profiles) {
        Some(profile) => "; did you mean '"@ + profile + "'?"@,
        None => ""@,
    }
}

/// A profile is one of those configured, or the message that it is not.
pub open spec fn existence(profile: Seq<char>, profiles: Seq<Seq<char>>) -> Result<(), Seq<char>> {
    if profiles.contains(profile) {
        Ok(())
    } else {
        Err("AWS profile '"@ + profile + "' was not found"@ + hint_for(profile, profiles))
    }
}

/// A profile that has to be one of those configured.
pub open spec fn existing(profile: Seq<char>, profiles: Seq<Seq<char>>) -> Result<
    Seq<char>,
    Seq<char>,
> {
    match existence(profile, profiles) {
        Ok(_) => Ok(profile),
        Err(message) => Err(message),
    }
}

/// Refuses a profile that is not configured.
pub fn ensure_profile_exists(profile: &str, profiles: &[String]) -> (result: Result<(), String>)
    ensures
        verdict(result) == existence(profile@, texts(profiles@)),
{
    if is_among(profile, profiles) {
        return Ok(());
    }
    let mut message = "AWS profile '".to_owned();
    message.append(profile);
    message.append("' was not found");
    let ghost start = message@;
    match closest_profile(profile, profiles) {
        Some(candidate) => {
            message.append("; did you mean '");
            message.append(candidate);
            message.append("'?");
            assert(message@ =~= start + hint_for(profile@, texts(profiles@)));
        },
        None => {
            message.append("");
        },
    }
    Err(message)
}

/// The profile that was asked for by name.
pub fn named_profile_for_switch(profile: &str, profiles: &[String]) -> (result: Result<
    String,
    String,
>)
    ensures
        outcome(result) == existing(profile@, texts(profiles@)),
{
    match ensure_profile_exists(profile, profiles) {
        Ok(_) => Ok(profile.to_owned()),
        Err(message) => Err(message),
    }
}

/// The user can be asked to choose, or the message that they cannot.
pub open spec fn askable(environment: EnvironmentModel) -> Result<(), Seq<char>> {
    if environment.input_terminal && environment.error_terminal {
        Ok(())
    } else {
        Err("interactive selection requires a terminal; pass a profile name"@)
    }
}

/// Refuses to ask where nobody could answer.
pub fn unnamed_profile_for_switch(environment: &Environment) -> (result: Result<(), String>)
    ensures
        verdict(result) == askable(environment@),
{
    if environment.input_terminal && environment.error_terminal {
        Ok(())
    } else {
        Err("interactive selection requires a terminal; pass a profile name".to_owned())
    }
}

/// Which profile to switch to: one known by its name, or one that the user is
/// to choose.
#[derive(Debug, Clone, PartialEq, Eq)]
pub enum Selection {
    Named(String),
    Asked,
}

pub enum SelectionModel {
    Named(Seq<char>),
    Asked,
}

impl View for Selection {
    type V = SelectionModel;

    open spec fn view(&self) -> SelectionModel {
        match self {
            Selection::Named(profile) => SelectionModel::Named(profile@),
            Selection::Asked => SelectionModel::Asked,
        }
    }
}

/// A selection, or the message of why there is none.
pub open spec fn selected(result: Result<Selection, String>) -> Result<SelectionModel, Seq<char>> {
    match result {
        Ok(selection) => Ok(selection@),
        Err(message) => Err(message@),
    }
}

/// Which profile to switch to.
pub open spec fn selection_for(
    requested: Option<Seq<char>>,
    profiles: Seq<Seq<char>>,
    environment: EnvironmentModel,
) -> Result<SelectionModel, Seq<char>> {
    match requested {
        Some(profile) => match existence(profile, profiles) {
            Ok(_) => Ok(SelectionModel::Named(profile)),
            Err(message) => Err(message),
        },
        None => match askable(environment) {
            Ok(_) => Ok(SelectionModel::Asked),
            Err(message) => Err(message),
        },
    }
}

/// Which profile to switch to.
pub fn profile_for_switch(
    requested: Option<&str>,
    profiles: &[String],
    environment: &Environment,
) -> (result: Result<Selection, String>)
    ensures
        selected(result) == selection_for(slice_of(requested), texts(profiles@), environment@),
{
    match requested {
        Some(profile) => match named_profile_for_switch(profile, profiles) {
            Ok(profile) => Ok(Selection::Named(profile)),
            Err(message) => Err(message),
        },
        None => match unnamed_profile_for_switch(environment) {
            Ok(_) => Ok(Selection::Asked),
            Err(message) => Err(message),
        },
    }
}

/// The profile that was current before, if it is still configured.
pub open spec fn previous_of(state: StateModel, profiles: Seq<Seq<char>>) -> Result<
    Seq<char>,
    Seq<char>,
> {
    match state.previous {
        Some(previous) => existing(previous, profiles),
        None => Err("no previous AWS profile"@),
    }
}

/// The profile that was current before, if it is still configured.
pub fn previous_profile(state: &State, profiles: &[String]) -> (result: Result<String, String>)
    ensures
        outcome(result) == previous_of(state@, texts(profiles@)),
{
    match &state.previous {
        Some(previous) => match ensure_profile_exists(previous.as_str(), profiles) {
            Ok(_) => Ok(previous.clone()),
            Err(message) => Err(message),
        },
        None => Err("no previous AWS profile".to_owned()),
    }
}

/// After a switch from one profile to another, the previous profile is the one
/// that was left, as long as it is configured.
pub proof fn law_previous_is_left(
    state: StateModel,
    left: Seq<char>,
    profile: Seq<char>,
    profiles: Seq<Seq<char>>,
)
    requires
        state.current == Some(left),
        profile != left,
        profiles.contains(left),
    ensures
        previous_of(switched(state, profile), profiles) == Ok::<_, Seq<char>>(left),
{
}

/// The profile that a command is about: the one it names, or else the one in
/// effect, if it is configured.
pub open spec fn resolved(
    requested: Option<Seq<char>>,
    profiles: Seq<Seq<char>>,
    state: StateModel,
    environment: EnvironmentModel,
) -> Result<Seq<char>, Seq<char>> {
    match requested {
        Some(profile) => existing(profile, profiles),
        None => match profile_in_effect(environment, state) {
            Some(profile) => if profiles.contains(profile) {
                Ok(profile)
            } else {
                Err("no active profile; run `awswap <profile>` first"@)
            },
            None => Err("no active profile; run `awswap <profile>` first"@),
        },
    }
}

/// The profile that a command is about.
pub fn resolve_profile(
    requested: Option<&str>,
    profiles: &[String],
    state: &State,
    environment: &Environment,
) -> (result: Result<String, String>)
    ensures
        outcome(result) == resolved(
            slice_of(requested),
            texts(profiles@),
            state@,
            environment@,
        ),
{
    match requested {
        Some(profile) => named_profile_for_switch(profile, profiles),
        None => {
            match effective_profile(environment, state) {
                Some(profile) => {
                    if is_among(profile.as_str(), profiles) {
                        return Ok(profile);
                    }
                },
                None => {},
            }
            Err("no active profile; run `awswap <profile>` first".to_owned())
        },
    }
}

/// Refuses to switch where nothing is configured.
pub fn require_profiles(profiles: &[String]) -> (result: Result<(), String>)
    ensures
        verdict(result) == switchable(texts(profiles@)),
{
    if profiles.len() == 0 {
        Err("no AWS profiles found; run `aws configure sso` first".to_owned())
    } else {
        Ok(())
    }
}

/// There is a profile to switch to, or the message that there is none.
pub open spec fn switchable(profiles: Seq<Seq<char>>) -> Result<(), Seq<char>> {
    if profiles.len() == 0 {
        Err("no AWS profiles found; run `aws configure sso` first"@)
    } else {
        Ok(())
    }
}

/// There is a profile to list, or the message that there is none.
pub open spec fn listable(profiles: Seq<Seq<char>>) -> Result<(), Seq<char>> {
    if profiles.len() == 0 {
        Err("no AWS profiles found"@)
    } else {
        Ok(())
    }
}

/// Refuses to list where nothing is configured.
pub fn require_list_profiles(profiles: &[String]) -> (result: Result<(), String>)
    ensures
        verdict(result) == listable(texts(profiles@)),
{
    if profiles.len() == 0 {
        Err("no AWS profiles found".to_owned())
    } else {
        Ok(())
    }
}

/// The candidates that are configured, each where it first comes.
pub open spec fn offered(candidates: Seq<Seq<char>>, profiles: Seq<Seq<char>>) -> Seq<Seq<char>>
    decreases candidates.len(),
{
    if candidates.len() == 0 {
        Seq::empty()
    } else {
        let earlier = offered(candidates.drop_last(), profiles);
        if profiles.contains(candidates.last()) && !earlier.contains(candidates.last()) {
            earlier.push(candidates.last())
        } else {
            earlier
        }
    }
}

pub open spec fn optional(candidate: Option<Seq<char>>) -> Seq<Seq<char>> {
    match candidate {
        Some(candidate) => seq![candidate],
        None => Seq::empty(),
    }
}

/// The candidates for a list: the current profile, the previous one, those used
/// recently, and then all.
pub open spec fn candidates_of(
    profiles: Seq<Seq<char>>,
    state: StateModel,
    current: Option<Seq<char>>,
) -> Seq<Seq<char>> {
    optional(current) + optional(state.previous) + state.recent + profiles
}

/// The configured profiles in the order in which they are listed.
pub open spec fn listing(
    profiles: Seq<Seq<char>>,
    state: StateModel,
    current: Option<Seq<char>>,
) -> Seq<Seq<char>> {
    offered(candidates_of(profiles, state, current), profiles)
}

/// Puts a candidate at the end of a list, if it is configured and not on the
/// list yet.
fn offer(ordered: &mut Vec<String>, candidate: &str, profiles: &[String], before: Ghost<Seq<Seq<char>>>)
    requires
        texts(old(ordered)@) == offered(before@, texts(profiles@)),
    ensures
        texts(final(ordered)@) == offered(before@.push(candidate@), texts(profiles@)),
{
    assert(before@.push(candidate@).drop_last() =~= before@);
    if is_among(candidate, profiles) && !is_among(candidate, ordered.as_slice()) {
        let ghost earlier = texts(ordered@);
        ordered.push(candidate.to_owned());
        assert(texts(ordered@) =~= earlier.push(candidate@));
    }
}

/// The configured profiles in the order in which they are listed.
pub fn ordered_profiles(profiles: &[String], state: &State, current: Option<&str>) -> (result: Vec<
    String,
>)
    ensures
        texts(result@) == listing(texts(profiles@), state@, slice_of(current)),
{
    let mut ordered: Vec<String> = Vec::new();
    let ghost mut before: Seq<Seq<char>> = Seq::empty();
    assert(texts(ordered@) =~= Seq::empty());
    match current {
        Some(current) => {
            offer(&mut ordered, current, profiles, Ghost(before));
            proof {
                before = before.push(current@);
            }
        },
        None => {},
    }
    assert(before =~= optional(slice_of(current)));
    match &state.previous {
        Some(previous) => {
            offer(&mut ordered, previous.as_str(), profiles, Ghost(before));
            proof {
                before = before.push(previous@);
            }
        },
        None => {},
    }
    let ghost head = optional(slice_of(current)) + optional(state@.previous);
    assert(before =~= head);
    for i in 0..state.recent.len()
        invariant
            before == head + texts(state.recent@).take(i as int),
            texts(ordered@) == offered(before, texts(profiles@)),
    {
        offer(&mut ordered, state.recent[i].as_str(), profiles, Ghost(before));
        proof {
            before = before.push(state.recent@[i as int]@);
        }
        assert(before =~= head + texts(state.recent@).take(i + 1));
    }
    assert(before =~= head + state@.recent);
    for i in 0..profiles.len()
        invariant
            before == head + state@.recent + texts(profiles@).take(i as int),
            texts(ordered@) == offered(before, texts(profiles@)),
    {
        offer(&mut ordered, profiles[i].as_str(), profiles, Ghost(before));
        proof {
            before = before.push(profiles@[i as int]@);
        }
        assert(before =~= head + state@.recent + texts(profiles@).take(i + 1));
    }
    assert(before =~= candidates_of(texts(profiles@), state@, slice_of(current)));
    ordered
}

proof fn lemma_offered(candidates: Seq<Seq<char>>, profiles: Seq<Seq<char>>)
    ensures
        offered(candidates, profiles).no_duplicates(),
        forall|name: Seq<char>| #[trigger]
            offered(candidates, profiles).contains(name) <==> candidates.contains(name)
                && profiles.contains(name),
    decreases candidates.len(),
{
    let all = offered(candidates, profiles);
    if candidates.len() > 0 {
        let fewer = candidates.drop_last();
        let last = candidates.last();
        let earlier = offered(fewer, profiles);
        lemma_offered(fewer, profiles);
        assert forall|name: Seq<char>| #[trigger]
            all.contains(name) <==> candidates.contains(name) && profiles.contains(name) by {
            if earlier.contains(name) {
                let k = choose|k: int| 0 <= k < earlier.len() && earlier[k] == name;
                assert(all[k] == name);
            }
            if fewer.contains(name) {
                let k = choose|k: int| 0 <= k < fewer.len() && fewer[k] == name;
                assert(candidates[k] == name);
            }
            if candidates.contains(name) && name != last {
                let k = choose|k: int| 0 <= k < candidates.len() && candidates[k] == name;
                assert(fewer[k] == name);
            }
            assert(candidates[candidates.len() - 1] == last);
            if all.len() > earlier.len() {
                assert(all.last() == last);
                if all.contains(name) && name != last {
                    let k = choose|k: int| 0 <= k < all.len() && all[k] == name;
                    assert(earlier[k] == name);
                }
            }
        }
        assert forall|i: int, j: int| 0 <= i < j < all.len() implies #[trigger] all[i]
            != #[trigger] all[j] by {
            if j == earlier.len() {
                assert(earlier.contains(earlier[i]));
            }
        }
    }
}

proof fn lemma_offered_prefix(
    candidates: Seq<Seq<char>>,
    more: Seq<Seq<char>>,
    profiles: Seq<Seq<char>>,
)
    ensures
        offered(candidates, profiles).is_prefix_of(offered(candidates + more, profiles)),
    decreases more.len(),
{
    if more.len() == 0 {
        assert(candidates + more =~= candidates);
    } else {
        lemma_offered_prefix(candidates, more.drop_last(), profiles);
        assert((candidates + more).drop_last() =~= candidates + more.drop_last());
    }
}

/// A list holds each configured profile once and no other one.
pub proof fn law_listing(
    profiles: Seq<Seq<char>>,
    state: StateModel,
    current: Option<Seq<char>>,
)
    ensures
        listing(profiles, state, current).no_duplicates(),
        forall|name: Seq<char>| #[trigger]
            listing(profiles, state, current).contains(name) <==> profiles.contains(name),
{
    let candidates = candidates_of(profiles, state, current);
    lemma_offered(candidates, profiles);
    assert forall|name: Seq<char>| #[trigger]
        listing(profiles, state, current).contains(name) <==> profiles.contains(name) by {
        if profiles.contains(name) {
            let k = choose|k: int| 0 <= k < profiles.len() && profiles[k] == name;
            assert(candidates[candidates.len() - profiles.len() + k] == name);
        }
    }
}

/// The current profile stands first in a list, and the previous one, where it is
/// another, second; then come those used recently, before all others.
pub proof fn law_listing_order(
    profiles: Seq<Seq<char>>,
    state: StateModel,
    current: Option<Seq<char>>,
)
    ensures
        current matches Some(name) ==> profiles.contains(name) ==> listing(
            profiles,
            state,
            current,
        ).first() == name,
        current matches Some(name) ==> state.previous matches Some(previous) ==> profiles.contains(
            name,
        ) && profiles.contains(previous) && previous != name ==> listing(
            profiles,
            state,
            current,
        )[1] == previous,
        offered(optional(current) + optional(state.previous) + state.recent, profiles).is_prefix_of(
            listing(profiles, state, current),
        ),
{
    let first = optional(current);
    let second = first + optional(state.previous);
    let third = second + state.recent;
    lemma_offered_prefix(first, optional(state.previous) + state.recent + profiles, profiles);
    assert(first + (optional(state.previous) + state.recent + profiles) =~= candidates_of(
        profiles,
        state,
        current,
    ));
    lemma_offered_prefix(second, state.recent + profiles, profiles);
    assert(second + (state.recent + profiles) =~= candidates_of(profiles, state, current));
    lemma_offered_prefix(third, profiles, profiles);
    reveal_with_fuel(offered, 3);
    if current is Some {
        assert(first.drop_last() =~= Seq::empty());
        if state.previous is Some {
            assert(second.drop_last() =~= first);
            let name = current->0;
            let previous = state.previous->0;
            if profiles.contains(name) && profiles.contains(previous) && previous != name {
                assert(offered(first, profiles) =~= seq![name]);
                assert(!offered(first, profiles).contains(previous));
                assert(offered(second, profiles) == offered(first, profiles).push(previous));
                assert(offered(second, profiles)[1] == previous);
                assert(listing(profiles, state, current)[1] == offered(second, profiles)[1]);
            }
        }
    }
}

/// A profile as it stands in a list.
#[derive(Debug, Clone, PartialEq, Eq)]
pub struct ProfileChoice {
    pub name: String,
    pub marker: &'static str,
    pub region: String,
    pub auth: &'static str,
    pub account: String,
}

pub struct ChoiceModel {
    pub name: Seq<char>,
    pub marker: Seq<char>,
    pub region: Seq<char>,
    pub auth: Seq<char>,
    pub account: Seq<char>,
}

impl View for ProfileChoice {
    type V = ChoiceModel;

    open spec fn view(&self) -> ChoiceModel {
        ChoiceModel {
            name: self.name@,
            marker: self.marker@,
            region: self.region@,
            auth: self.auth@,
            account: self.account@,
        }
    }
}

pub open spec fn choices_in(choices: Seq<ProfileChoice>) -> Seq<ChoiceModel> {
    choices.map_values(|choice: ProfileChoice| choice@)
}

/// The mark of the current profile, of the previous one, and of any other.
pub open spec fn marker_of(
    profile: Seq<char>,
    state: StateModel,
    current: Option<Seq<char>>,
) -> Seq<char> {
    if current == Some(profile) {
        "● "@
    } else if state.previous == Some(profile) {
        "↩ "@
    } else {
        "  "@
    }
}

/// A profile as it stands in a list.
pub open spec fn choice_of(
    profile: Seq<char>,
    state: StateModel,
    current: Option<Seq<char>>,
    contents: Seq<char>,
) -> ChoiceModel {
    let config = config_of(contents, profile);
    ChoiceModel {
        name: profile,
        marker: marker_of(profile, state, current),
        region: or_else(config.region, "—"@),
        auth: auth_of(config),
        account: or_else(config.account_id, Seq::empty()),
    }
}

/// The profiles as they stand in a list.
pub open spec fn choices_of(
    profiles: Seq<Seq<char>>,
    state: StateModel,
    current: Option<Seq<char>>,
    contents: Seq<char>,
) -> Seq<ChoiceModel> {
    profiles.map_values(|profile: Seq<char>| choice_of(profile, state, current, contents))
}

/// A profile as it stands in a list.
fn profile_choice(
    profile: &str,
    state: &State,
    current: Option<&str>,
    config_contents: &str,
) -> (result: ProfileChoice)
    ensures
        result@ == choice_of(profile@, state@, slice_of(current), config_contents@),
{
    let config = parse_profile_config(config_contents, profile);
    let marker = if is_given(current, profile) {
        "● "
    } else if is_given(borrowed(&state.previous), profile) {
        "↩ "
    } else {
        "  "
    };
    proof {
        reveal_strlit("");
    }
    assert(""@ =~= Seq::empty());
    ProfileChoice {
        name: profile.to_owned(),
        marker,
        region: copied_or(&config.region, "—"),
        auth: config.auth_label(),
        account: copied_or(&config.account_id, ""),
    }
}

/// The profiles as they stand in a list.
pub fn profile_choices(
    profiles: &[String],
    state: &State,
    current: Option<&str>,
    config_contents: &str,
) -> (result: Vec<ProfileChoice>)
    ensures
        choices_in(result@) == choices_of(
            texts(profiles@),
            state@,
            slice_of(current),
            config_contents@,
        ),
{
    let ghost wanted = choices_of(texts(profiles@), state@, slice_of(current), config_contents@);
    let mut result: Vec<ProfileChoice> = Vec::new();
    for i in 0..profiles.len()
        invariant
            wanted == choices_of(texts(profiles@), state@, slice_of(current), config_contents@),
            choices_in(result@) == wanted.take(i as int),
    {
        let ghost before = choices_in(result@);
        result.push(profile_choice(profiles[i].as_str(), state, current, config_contents));
        assert(choices_in(result@) =~= before.push(wanted[i as int]));
        assert(wanted.take(i + 1) =~= before.push(wanted[i as int]));
    }
    assert(wanted.take(profiles@.len() as int) =~= wanted);
    result
}

/// The columns of a list, behind the mark.
pub open spec fn columns_of(choice: ChoiceModel) -> Seq<char> {
    padded(choice.name, 24) + " "@ + padded(choice.region, 15) + " "@ + padded(choice.auth, 11)
        + " "@ + choice.account
}

/// A profile as the user is offered it.
pub open spec fn offered_line(choice: ChoiceModel) -> Seq<char> {
    choice.marker + columns_of(choice)
}

/// The mark of a profile in a printed list.
pub open spec fn printed_marker(marker: Seq<char>, color: bool) -> Seq<char> {
    if marker == "● "@ {
        painted(Style::Green, "●"@, color)
    } else if marker == "↩ "@ {
        painted(Style::Cyan, "↩"@, color)
    } else {
        " "@
    }
}

/// A profile as a printed list shows it.
pub open spec fn printed_line(choice: ChoiceModel, color: bool) -> Seq<char> {
    printed_marker(choice.marker, color) + " "@ + columns_of(choice)
}

fn columns(choice: &ProfileChoice) -> (result: String)
    ensures
        result@ == columns_of(choice@),
{
    let mut result = pad(choice.name.as_str(), 24);
    let region = pad(choice.region.as_str(), 15);
    let auth = pad(choice.auth, 11);
    result.append(" ");
    result.append(region.as_str());
    result.append(" ");
    result.append(auth.as_str());
    result.append(" ");
    result.append(choice.account.as_str());
    result
}

impl ProfileChoice {
    /// The profile as the user is offered it.
    pub fn line(&self) -> (result: String)
        ensures
            result@ == offered_line(self@),
    {
        let mut result = self.marker.to_owned();
        let rest = columns(self);
        result.append(rest.as_str());
        result
    }
}

/// A profile as a printed list shows it.
pub fn print_profile_choice(choice: &ProfileChoice, color: bool) -> (result: String)
    ensures
        result@ == printed_line(choice@, color),
{
    let mut result = if same(choice.marker, "● ") {
        paint(Style::Green, "●", color)
    } else if same(choice.marker, "↩ ") {
        paint(Style::Cyan, "↩", color)
    } else {
        " ".to_owned()
    };
    let rest = columns(choice);
    result.append(" ");
    result.append(rest.as_str());
    result
}

/// How many profiles the user sees at a time.
pub const PAGE: usize = 12;

/// What the user is asked.
pub const QUESTION: &'static str = "AWS profile";

/// What the user is told of the keys.
pub const KEYS: &'static str = "↑↓ move • type filter • enter select • esc cancel";

/// A question to the user: the profiles to choose from, and how many of them to
/// show at a time.
#[derive(Debug, Clone, PartialEq, Eq)]
pub struct Prompt {
    pub choices: Vec<ProfileChoice>,
    pub page_size: usize,
}

pub struct PromptModel {
    pub choices: Seq<ChoiceModel>,
    pub page_size: nat,
}

impl View for Prompt {
    type V = PromptModel;

    open spec fn view(&self) -> PromptModel {
        PromptModel { choices: choices_in(self.choices@), page_size: self.page_size as nat }
    }
}

/// A question, or the message of why it cannot be put.
pub open spec fn prompted(result: Result<Prompt, String>) -> Result<PromptModel, Seq<char>> {
    match result {
        Ok(prompt) => Ok(prompt@),
        Err(message) => Err(message@),
    }
}

/// The question with which of the profiles to go on.
pub open spec fn prompt_of(
    ordered: Seq<Seq<char>>,
    state: StateModel,
    current: Option<Seq<char>>,
    contents: Seq<char>,
) -> PromptModel {
    PromptModel {
        choices: choices_of(ordered, state, current, contents),
        page_size: if ordered.len() < PAGE {
            ordered.len()
        } else {
            PAGE as nat
        },
    }
}

/// The question with which of the profiles to go on.
pub fn prompt_for_profile(
    ordered: &[String],
    state: &State,
    current: Option<&str>,
    config_contents: &str,
) -> (result: Prompt)
    ensures
        result@ == prompt_of(texts(ordered@), state@, slice_of(current), config_contents@),
{
    Prompt {
        choices: profile_choices(ordered, state, current, config_contents),
        page_size: if ordered.len() < PAGE {
            ordered.len()
        } else {
            PAGE
        },
    }
}

/// The question that a switch without a name puts.
pub open spec fn question_for(
    profiles: Seq<Seq<char>>,
    state: StateModel,
    environment: EnvironmentModel,
    read: FileModel,
) -> Result<PromptModel, Seq<char>> {
    let current = profile_in_effect(environment, state);
    match config_read(read) {
        Ok(contents) => Ok(
            prompt_of(listing(profiles, state, current), state, current, contents),
        ),
        Err(message) => Err(message),
    }
}

/// The question that a switch without a name puts.
pub fn select_profile(
    profiles: &[String],
    state: &State,
    environment: &Environment,
    read: &FileRead,
) -> (result: Result<Prompt, String>)
    ensures
        prompted(result) == question_for(texts(profiles@), state@, environment@, read@),
{
    let current = effective_profile(environment, state);
    let ordered = ordered_profiles(profiles, state, borrowed(&current));
    match read_aws_config_contents(read) {
        Ok(contents) => Ok(
            prompt_for_profile(ordered.as_slice(), state, borrowed(&current), contents.as_str()),
        ),
        Err(message) => Err(message),
    }
}

/// Why the user chose nothing: they turned the question down, interrupted it,
/// or could not be asked.
#[derive(Debug, Clone, PartialEq, Eq)]
pub enum SelectionFailure {
    Canceled,
    Interrupted,
    Other(String),
}

pub enum SelectionFailureModel {
    Canceled,
    Interrupted,
    Other(Seq<char>),
}

impl View for SelectionFailure {
    type V = SelectionFailureModel;

    open spec fn view(&self) -> SelectionFailureModel {
        match self {
            SelectionFailure::Canceled => SelectionFailureModel::Canceled,
            SelectionFailure::Interrupted => SelectionFailureModel::Interrupted,
            SelectionFailure::Other(error) => SelectionFailureModel::Other(error@),
        }
    }
}

/// The message of a choice that was not made: none where the user wanted none.
pub open spec fn selection_message(failure: SelectionFailureModel) -> Seq<char> {
    match failure {
        SelectionFailureModel::Other(error) => "could not read selection: "@ + error,
        _ => Seq::empty(),
    }
}

/// The message of a choice that was not made.
pub fn selection_error(failure: &SelectionFailure) -> (result: String)
    ensures
        result@ == selection_message(failure@),
{
    match failure {
        SelectionFailure::Other(error) => {
            let mut message = "could not read selection: ".to_owned();
            message.append(error.as_str());
            message
        },
        _ => String::new(),
    }
}

} // verus!
