//! What the state file holds, line by line, and which profiles come first.
use crate::choice::{candidates_of, existence, listing, offered};
use crate::distance::{closest_of, distance, is_closest, law_suggestion};
use crate::ordered::{law_sorted, sorted};
use crate::state::{contents_of, entries_in, entry_of, other_than, state_of, switched, StateModel};
use crate::text::{lines_of, precedes};
use vstd::prelude::*;

verus! {

/// The state file starts with the current profile and the previous one, each on a
/// line of its own, and goes on with one line for each recently used profile.
pub proof fn law_file_written(state: StateModel, name: Seq<char>)
    ensures
        state.recent.len() == 0 ==> contents_of(state) == "current="@ + (match state.current {
            Some(current) => current,
            None => ""@,
        }) + "\nprevious="@ + (match state.previous {
            Some(previous) => previous,
            None => ""@,
        }) + "\n"@,
        contents_of(StateModel { recent: state.recent.push(name), ..state }) == contents_of(state)
            + "recent="@ + name + "\n"@,
{
    let longer = StateModel { recent: state.recent.push(name), ..state };
    assert(longer.recent.drop_last() =~= state.recent);
    assert(contents_of(longer) =~= contents_of(state) + "recent="@ + name + "\n"@);
    if state.recent.len() == 0 {
        assert(contents_of(state) =~= "current="@ + (match state.current {
            Some(current) => current,
            None => ""@,
        }) + "\nprevious="@ + (match state.previous {
            Some(previous) => previous,
            None => ""@,
        }) + "\n"@);
    }
}

/// Each line of the state file sets what it names, and nothing else: the current
/// profile, the previous one, or one more that was recently used, unless it is
/// there already. A line without a value, or with another name, sets nothing.
pub proof fn law_file_read(lines: Seq<Seq<char>>, name: Seq<char>, line: Seq<char>)
    requires
        name.len() > 0,
        !"current="@.is_prefix_of(line),
        !"previous="@.is_prefix_of(line),
        !"recent="@.is_prefix_of(line),
    ensures
        ({
            let before = entries_in(lines);
            &&& entries_in(lines.push("current="@ + name)) == (StateModel {
                current: Some(name),
                ..before
            })
            &&& entries_in(lines.push("previous="@ + name)) == (StateModel {
                previous: Some(name),
                ..before
            })
            &&& !before.recent.contains(name) ==> entries_in(lines.push("recent="@ + name)) == (
            StateModel { recent: before.recent.push(name), ..before })
            &&& before.recent.contains(name) ==> entries_in(lines.push("recent="@ + name)) == before
            &&& entries_in(lines.push(line)) == before
            &&& entries_in(lines.push("current="@)) == before
            &&& entries_in(lines.push("previous="@)) == before
            &&& entries_in(lines.push("recent="@)) == before
        }),
        entries_in(Seq::empty()) == (StateModel {
            current: None,
            previous: None,
            recent: Seq::empty(),
        }),
{
    lemma_entry("current="@, name);
    lemma_entry("previous="@, name);
    lemma_entry("recent="@, name);
    let none = Seq::<char>::empty();
    lemma_entry("current="@, none);
    lemma_entry("previous="@, none);
    lemma_entry("recent="@, none);
    assert("current="@ + none =~= "current="@);
    assert("previous="@ + none =~= "previous="@);
    assert("recent="@ + none =~= "recent="@);
    lemma_names_differ();
    assert(lines.push("current="@ + name).drop_last() =~= lines);
    assert(lines.push("previous="@ + name).drop_last() =~= lines);
    assert(lines.push("recent="@ + name).drop_last() =~= lines);
    assert(lines.push(line).drop_last() =~= lines);
    assert(lines.push("current="@).drop_last() =~= lines);
    assert(lines.push("previous="@).drop_last() =~= lines);
    assert(lines.push("recent="@).drop_last() =~= lines);
}

proof fn lemma_names_differ()
    ensures
        "current"@ != "previous"@,
        "current"@ != "recent"@,
        "previous"@ != "recent"@,
{
    reveal_strlit("current");
    reveal_strlit("previous");
    reveal_strlit("recent");
    assert("current"@.len() == 7 && "previous"@.len() == 8 && "recent"@.len() == 6);
}

proof fn lemma_entry(prefix: Seq<char>, name: Seq<char>)
    requires
        prefix == "current="@ || prefix == "previous="@ || prefix == "recent="@,
    ensures
        name.len() == 0 ==> entry_of(prefix + name) is None,
        name.len() > 0 && prefix == "current="@ ==> entry_of(prefix + name) == Some(
            ("current"@, name),
        ),
        name.len() > 0 && prefix == "previous="@ ==> entry_of(prefix + name) == Some(
            ("previous"@, name),
        ),
        name.len() > 0 && prefix == "recent="@ ==> entry_of(prefix + name) == Some(
            ("recent"@, name),
        ),
{
    reveal_strlit("current=");
    reveal_strlit("previous=");
    reveal_strlit("recent=");
    let line = prefix + name;
    assert(line.subrange(0, prefix.len() as int) =~= prefix);
    assert(line.skip(prefix.len() as int) =~= name);
    assert(line[0] == prefix[0]);
    assert("current="@[0] == 'c' && "previous="@[0] == 'p' && "recent="@[0] == 'r');
    assert("current="@.is_prefix_of(line) ==> line[0] == 'c');
    assert("previous="@.is_prefix_of(line) ==> line[0] == 'p');
    assert("recent="@.is_prefix_of(line) ==> line[0] == 'r');
    assert(prefix.is_prefix_of(line));
}

/// Of the recently used profiles the file gives the first eight.
pub proof fn law_eight_recent(contents: Seq<char>)
    ensures
        ({
            let all = entries_in(lines_of(contents));
            let state = state_of(contents);
            &&& state.current == all.current
            &&& state.previous == all.previous
            &&& all.recent.len() <= 8 ==> state.recent == all.recent
            &&& all.recent.len() > 8 ==> state.recent == all.recent.take(8)
        }),
{
}

/// The profile that was switched to comes first among those recently used; the
/// others follow in the order that they had, as long as there are eight.
pub proof fn law_recent_order(state: StateModel, profile: Seq<char>)
    ensures
        !state.recent.contains(profile) && state.recent.len() < 8 ==> switched(
            state,
            profile,
        ).recent == seq![profile] + state.recent,
        !state.recent.contains(profile) && state.recent.len() >= 8 ==> switched(
            state,
            profile,
        ).recent == seq![profile] + state.recent.take(7),
{
    if !state.recent.contains(profile) {
        lemma_kept(state.recent, profile);
        let full = seq![profile] + state.recent;
        if state.recent.len() >= 8 {
            assert(full.take(8) =~= seq![profile] + state.recent.take(7));
        }
    }
}

proof fn lemma_kept(list: Seq<Seq<char>>, profile: Seq<char>)
    requires
        !list.contains(profile),
    ensures
        list.filter(other_than(profile)) == list,
    decreases list.len(),
{
    reveal(Seq::filter);
    if list.len() > 0 {
        assert(!list.drop_last().contains(profile)) by {
            if list.drop_last().contains(profile) {
                let k = choose|k: int|
                    0 <= k < list.drop_last().len() && list.drop_last()[k] == profile;
                assert(list[k] == profile);
            }
        }
        assert(list.contains(list.last()));
        lemma_kept(list.drop_last(), profile);
        assert(list.drop_last().push(list.last()) =~= list);
    } else {
        assert(list.filter(other_than(profile)) =~= list);
    }
}

/// One name is met before the other in the list.
pub open spec fn is_met_first(list: Seq<Seq<char>>, name: Seq<char>, other: Seq<char>) -> bool {
    exists|k: int|
        0 <= k < list.len() && #[trigger] list[k] == name && forall|m: int|
            0 <= m <= k ==> #[trigger] list[m] != other
}

/// Profiles are listed in the order in which they are met in: the one in effect,
/// the previous one, those recently used, and all that are configured.
pub proof fn law_listing_in_order(
    profiles: Seq<Seq<char>>,
    state: StateModel,
    current: Option<Seq<char>>,
    left: int,
    right: int,
)
    requires
        0 <= left < listing(profiles, state, current).len(),
        0 <= right < listing(profiles, state, current).len(),
        is_met_first(
            (match current {
                Some(name) => seq![name],
                None => Seq::empty(),
            }) + (match state.previous {
                Some(name) => seq![name],
                None => Seq::empty(),
            }) + state.recent + profiles,
            listing(profiles, state, current)[left],
            listing(profiles, state, current)[right],
        ),
    ensures
        left < right,
{
    let candidates = candidates_of(profiles, state, current);
    lemma_offered_order(candidates, profiles, left, right);
}

proof fn lemma_offered_subset(candidates: Seq<Seq<char>>, profiles: Seq<Seq<char>>)
    ensures
        forall|i: int|
            0 <= i < offered(candidates, profiles).len() ==> candidates.contains(
                #[trigger] offered(candidates, profiles)[i],
            ) && profiles.contains(offered(candidates, profiles)[i]),
        forall|k: int|
            0 <= k < candidates.len() && profiles.contains(#[trigger] candidates[k]) ==> offered(
                candidates,
                profiles,
            ).contains(candidates[k]),
        offered(candidates, profiles).no_duplicates(),
    decreases candidates.len(),
{
    if candidates.len() > 0 {
        let fewer = candidates.drop_last();
        let before = offered(fewer, profiles);
        let after = offered(candidates, profiles);
        lemma_offered_subset(fewer, profiles);
        assert forall|i: int| 0 <= i < after.len() implies candidates.contains(
            #[trigger] after[i],
        ) && profiles.contains(after[i]) by {
            if i < before.len() {
                assert(after[i] == before[i]);
                assert(fewer.contains(before[i]));
                let k = choose|k: int| 0 <= k < fewer.len() && fewer[k] == before[i];
                assert(candidates[k] == after[i]);
            } else {
                assert(candidates[candidates.len() - 1] == after[i]);
            }
        }
        assert forall|k: int|
            0 <= k < candidates.len() && profiles.contains(
                #[trigger] candidates[k],
            ) implies after.contains(candidates[k]) by {
            if k < fewer.len() {
                assert(fewer[k] == candidates[k]);
                assert(before.contains(fewer[k]));
                let i = choose|i: int| 0 <= i < before.len() && before[i] == fewer[k];
                assert(after[i] == candidates[k]);
            } else if before.contains(candidates.last()) {
                let i = choose|i: int| 0 <= i < before.len() && before[i] == candidates.last();
                assert(after[i] == candidates[k]);
            } else {
                assert(after.last() == candidates[k]);
            }
        }
    }
}

proof fn lemma_offered_order(
    candidates: Seq<Seq<char>>,
    profiles: Seq<Seq<char>>,
    left: int,
    right: int,
)
    requires
        0 <= left < offered(candidates, profiles).len(),
        0 <= right < offered(candidates, profiles).len(),
        is_met_first(
            candidates,
            offered(candidates, profiles)[left],
            offered(candidates, profiles)[right],
        ),
    ensures
        left < right,
    decreases candidates.len(),
{
    let after = offered(candidates, profiles);
    if candidates.len() > 0 {
        let fewer = candidates.drop_last();
        let before = offered(fewer, profiles);
        lemma_offered_subset(fewer, profiles);
        lemma_offered_subset(candidates, profiles);
        let k = choose|k: int|
            0 <= k < candidates.len() && #[trigger] candidates[k] == after[left] && forall|m: int|
                0 <= m <= k ==> #[trigger] candidates[m] != after[right];
        if left < before.len() && right < before.len() {
            if k < fewer.len() {
                assert(fewer[k] == before[left]);
                assert forall|m: int| 0 <= m <= k implies #[trigger] fewer[m] != before[right] by {
                    assert(candidates[m] != after[right]);
                }
                assert(is_met_first(fewer, before[left], before[right]));
                lemma_offered_order(fewer, profiles, left, right);
            } else {
                assert(fewer.contains(before[right]));
                let m = choose|m: int| 0 <= m < fewer.len() && fewer[m] == before[right];
                assert(candidates[m] == after[right]);
            }
        } else if left >= before.len() {
            if right < before.len() {
                assert(fewer.contains(before[right]));
                let m = choose|m: int| 0 <= m < fewer.len() && fewer[m] == before[right];
                assert(candidates[m] == after[right]);
                if k < fewer.len() {
                    assert(fewer[k] == after[left]);
                    assert(before.contains(fewer[k]));
                }
            } else {
                assert(candidates[k] != after[right]);
            }
        }
    }
}

/// A profile that is not configured is told to be missing; where one that is
/// configured is at most three edits away, the first of the nearest is suggested.
pub proof fn law_missing_profile(requested: Seq<char>, profiles: Seq<Seq<char>>)
    requires
        !profiles.contains(requested),
    ensures
        ({
            let message = "AWS profile '"@ + requested + "' was not found"@;
            if exists|i: int|
                0 <= i < profiles.len() && distance(requested, #[trigger] profiles[i]) <= 3 {
                exists|near: Seq<char>|
                    {
                        &&& existence(requested, profiles) == Err::<(), _>(
                            message + #[trigger] ("; did you mean '"@ + near + "'?"@),
                        )
                        &&& profiles.contains(near)
                        &&& distance(requested, near) <= 3
                        &&& forall|i: int|
                            0 <= i < profiles.len() ==> distance(requested, near) <= distance(
                                requested,
                                #[trigger] profiles[i],
                            )
                        &&& exists|i: int|
                            0 <= i < profiles.len() && #[trigger] profiles[i] == near && forall|
                                j: int,
                            |
                                0 <= j < i ==> distance(requested, near) < distance(
                                    requested,
                                    #[trigger] profiles[j],
                                )
                    }
            } else {
                existence(requested, profiles) == Err::<(), _>(message)
            }
        }),
{
    law_suggestion(requested, profiles);
    reveal_strlit("");
    let message = "AWS profile '"@ + requested + "' was not found"@;
    match closest_of(requested, profiles) {
        Some(near) => {
            let i = choose|index: int| is_closest(requested, profiles, index);
            assert(is_closest(requested, profiles, i));
            assert(profiles[i] == near);
            assert(distance(requested, profiles[i]) <= 3);
            assert(existence(requested, profiles) == Err::<(), _>(
                message + ("; did you mean '"@ + near + "'?"@),
            ));
        },
        None => {
            assert(message + ""@ =~= message);
        },
    }
}

/// The configured profiles come in the order of their names.
pub proof fn law_names_in_order(names: Seq<Seq<char>>, left: int, right: int)
    requires
        0 <= left < right < sorted(names).len(),
    ensures
        precedes(sorted(names)[left], sorted(names)[right]),
{
    law_sorted(names);
}

} // verus!
