//! How far apart two names are, and which configured name is nearest to a
//! misspelt one.
use crate::text::{characters, slice_of, texts};
use vstd::prelude::*;

verus! {

pub open spec fn least(left: nat, right: nat) -> nat {
    if left <= right {
        left
    } else {
        right
    }
}

/// The smallest number of characters to insert, delete or replace that turns
/// one text into the other.
pub open spec fn distance(left: Seq<char>, right: Seq<char>) -> nat
    decreases left.len() + right.len(),
{
    if left.len() == 0 {
        right.len()
    } else if right.len() == 0 {
        left.len()
    } else {
        let replaced: nat = if left.last() == right.last() {
            0
        } else {
            1
        };
        least(
            least(
                distance(left, right.drop_last()) + 1,
                distance(left.drop_last(), right) + 1,
            ),
            distance(left.drop_last(), right.drop_last()) + replaced,
        )
    }
}

/// The greatest distance at which a name is still suggested.
pub const NEARBY: usize = 3;

/// The profile at the index is the one to suggest: near enough, as near as any
/// other, and the first such.
pub open spec fn is_closest(requested: Seq<char>, profiles: Seq<Seq<char>>, index: int) -> bool {
    &&& 0 <= index < profiles.len()
    &&& distance(requested, profiles[index]) <= NEARBY
    &&& forall|j: int|
        0 <= j < profiles.len() ==> distance(requested, profiles[index]) <= distance(
            requested,
            #[trigger] profiles[j],
        )
    &&& forall|j: int|
        0 <= j < index ==> distance(requested, profiles[index]) < distance(
            requested,
            #[trigger] profiles[j],
        )
}

/// The profile to suggest, if one is near enough.
pub open spec fn closest_of(requested: Seq<char>, profiles: Seq<Seq<char>>) -> Option<Seq<char>> {
    if exists|index: int| is_closest(requested, profiles, index) {
        Some(profiles[choose|index: int| is_closest(requested, profiles, index)])
    } else {
        None
    }
}

/// At most one profile is the one to suggest.
pub proof fn law_closest_unique(
    requested: Seq<char>,
    profiles: Seq<Seq<char>>,
    left: int,
    right: int,
)
    requires
        is_closest(requested, profiles, left),
        is_closest(requested, profiles, right),
    ensures
        left == right,
{
    if left < right {
        assert(distance(requested, profiles[right]) < distance(requested, profiles[left]));
    } else if right < left {
        assert(distance(requested, profiles[left]) < distance(requested, profiles[right]));
    }
}

/// A profile is suggested exactly where some profile is near enough, and none
/// is nearer than the one suggested.
pub proof fn law_suggestion(requested: Seq<char>, profiles: Seq<Seq<char>>)
    ensures
        match closest_of(requested, profiles) {
            Some(profile) => {
                &&& profiles.contains(profile)
                &&& distance(requested, profile) <= NEARBY
                &&& forall|j: int|
                    0 <= j < profiles.len() ==> distance(requested, profile) <= distance(
                        requested,
                        #[trigger] profiles[j],
                    )
            },
            None => forall|j: int|
                0 <= j < profiles.len() ==> distance(requested, #[trigger] profiles[j]) > NEARBY,
        },
{
    if closest_of(requested, profiles) is None {
        assert forall|j: int| 0 <= j < profiles.len() implies distance(
            requested,
            #[trigger] profiles[j],
        ) > NEARBY by {
            if distance(requested, profiles[j]) <= NEARBY {
                lemma_nearest(requested, profiles, j);
            }
        }
    }
}

/// Where one profile is near enough, there is one to suggest.
proof fn lemma_nearest(requested: Seq<char>, profiles: Seq<Seq<char>>, near: int)
    requires
        0 <= near < profiles.len(),
        distance(requested, profiles[near]) <= NEARBY,
    ensures
        exists|index: int| is_closest(requested, profiles, index),
    decreases distance(requested, profiles[near]), near,
{
    if !is_closest(requested, profiles, near) {
        if exists|j: int|
            0 <= j < profiles.len() && distance(requested, #[trigger] profiles[j]) < distance(
                requested,
                profiles[near],
            ) {
            let j = choose|j: int|
                0 <= j < profiles.len() && distance(requested, #[trigger] profiles[j]) < distance(
                    requested,
                    profiles[near],
                );
            lemma_nearest(requested, profiles, j);
        } else {
            let j = choose|j: int|
                0 <= j < near && distance(requested, #[trigger] profiles[j]) <= distance(
                    requested,
                    profiles[near],
                );
            lemma_nearest(requested, profiles, j);
        }
    }
}

/// The distance is at most the length of the longer text and at least the
/// difference of the lengths.
pub proof fn law_distance_bounds(left: Seq<char>, right: Seq<char>)
    ensures
        distance(left, right) <= left.len() || distance(left, right) <= right.len(),
        left.len() <= right.len() + distance(left, right),
        right.len() <= left.len() + distance(left, right),
    decreases left.len() + right.len(),
{
    if left.len() > 0 && right.len() > 0 {
        law_distance_bounds(left, right.drop_last());
        law_distance_bounds(left.drop_last(), right);
        law_distance_bounds(left.drop_last(), right.drop_last());
    }
}

/// The distance is the same in both directions.
pub proof fn law_distance_symmetric(left: Seq<char>, right: Seq<char>)
    ensures
        distance(left, right) == distance(right, left),
    decreases left.len() + right.len(),
{
    if left.len() > 0 && right.len() > 0 {
        law_distance_symmetric(left, right.drop_last());
        law_distance_symmetric(left.drop_last(), right);
        law_distance_symmetric(left.drop_last(), right.drop_last());
    }
}

/// The distance is zero exactly between a text and itself.
pub proof fn law_distance_zero(left: Seq<char>, right: Seq<char>)
    ensures
        distance(left, right) == 0 <==> left == right,
    decreases left.len() + right.len(),
{
    if left.len() > 0 && right.len() > 0 {
        law_distance_zero(left.drop_last(), right.drop_last());
        assert(left =~= left.drop_last().push(left.last()));
        assert(right =~= right.drop_last().push(right.last()));
    } else {
        assert(left.len() == right.len() ==> left =~= right);
    }
}

/// One more character changes a distance by at most one.
proof fn lemma_step(left: Seq<char>, right: Seq<char>)
    ensures
        left.len() > 0 ==> distance(left.drop_last(), right) <= distance(left, right) + 1,
        left.len() > 0 ==> distance(left, right) <= distance(left.drop_last(), right) + 1,
        right.len() > 0 ==> distance(left, right.drop_last()) <= distance(left, right) + 1,
        right.len() > 0 ==> distance(left, right) <= distance(left, right.drop_last()) + 1,
    decreases left.len() + right.len(),
{
    if left.len() > 0 && right.len() > 0 {
        lemma_step(left.drop_last(), right);
        lemma_step(left, right.drop_last());
        lemma_step(left.drop_last(), right.drop_last());
    }
}

/// A way over a third text is never shorter.
pub proof fn law_distance_triangle(left: Seq<char>, middle: Seq<char>, right: Seq<char>)
    ensures
        distance(left, right) <= distance(left, middle) + distance(middle, right),
    decreases left.len() + middle.len() + right.len(),
{
    law_distance_bounds(left, middle);
    law_distance_bounds(middle, right);
    if left.len() > 0 && right.len() > 0 && middle.len() > 0 {
        lemma_step(left, right);
        law_distance_triangle(left.drop_last(), middle, right);
        law_distance_triangle(left, middle, right.drop_last());
        law_distance_triangle(left, middle.drop_last(), right);
        law_distance_triangle(left, middle.drop_last(), right.drop_last());
        law_distance_triangle(left.drop_last(), middle.drop_last(), right);
        law_distance_triangle(left.drop_last(), middle.drop_last(), right.drop_last());
    } else {
        law_distance_bounds(left, right);
    }
}

/// The smallest number of characters to insert, delete or replace that turns
/// one text into the other.
pub fn edit_distance(left: &str, right: &str) -> (result: usize)
    ensures
        result == distance(left@, right@),
{
    let rows = characters(left);
    let columns = characters(right);
    let mut previous: Vec<usize> = Vec::new();
    for j in 0..columns.len()
        invariant
            previous@.len() == j,
            forall|k: int| 0 <= k < j ==> previous@[k] == k,
    {
        previous.push(j);
    }
    previous.push(columns.len());
    assert forall|k: int| 0 <= k <= columns@.len() implies previous@[k] == distance(
        rows@.take(0),
        #[trigger] columns@.take(k),
    ) by {}
    for i in 0..rows.len()
        invariant
            previous@.len() == columns@.len() + 1,
            forall|k: int|
                0 <= k <= columns@.len() ==> previous@[k] == distance(
                    rows@.take(i as int),
                    #[trigger] columns@.take(k),
                ),
    {
        let ghost above = rows@.take(i as int);
        let ghost here = rows@.take(i + 1);
        assert(here.drop_last() =~= above);
        let mut current: Vec<usize> = Vec::new();
        current.push(i + 1);
        assert(columns@.take(0).len() == 0);
        for j in 0..columns.len()
            invariant
                i < rows@.len(),
                i < usize::MAX,
                above == rows@.take(i as int),
                here == rows@.take(i + 1),
                here.drop_last() == above,
                previous@.len() == columns@.len() + 1,
                forall|k: int|
                    0 <= k <= columns@.len() ==> previous@[k] == distance(
                        above,
                        #[trigger] columns@.take(k),
                    ),
                current@.len() == j + 1,
                forall|k: int|
                    0 <= k <= j ==> current@[k] == distance(here, #[trigger] columns@.take(k)),
        {
            let ghost shorter = columns@.take(j as int);
            let ghost longer = columns@.take(j + 1);
            assert(longer.drop_last() =~= shorter);
            let diagonal = previous[j];
            let over = previous[j + 1];
            let side = current[j];
            assert(diagonal == distance(above, shorter));
            assert(over == distance(above, longer));
            assert(side == distance(here, shorter));
            proof {
                law_distance_bounds(here, longer);
            }
            assert(distance(here, longer) <= i + 1 || distance(here, longer) <= j + 1);
            assert(rows@[i as int] == here.last() && columns@[j as int] == longer.last());
            assert(here.last() != longer.last() && diagonal <= side && diagonal <= over
                ==> distance(here, longer) == diagonal + 1);
            let nearer: usize = if side <= over {
                side
            } else {
                over
            };
            let value: usize = if rows[i] == columns[j] {
                if diagonal <= nearer {
                    diagonal
                } else {
                    nearer + 1
                }
            } else if diagonal <= nearer {
                diagonal + 1
            } else {
                nearer + 1
            };
            assert(value == distance(here, longer));
            current.push(value);
        }
        previous = current;
    }
    assert(rows@.take(rows@.len() as int) =~= left@);
    assert(columns@.take(columns@.len() as int) =~= right@);
    previous[columns.len()]
}

/// The configured name to suggest for one that is not configured.
pub fn closest_profile<'a>(requested: &str, profiles: &'a [String]) -> (result: Option<&'a str>)
    ensures
        slice_of(result) == closest_of(requested@, texts(profiles@)),
{
    let ghost names = texts(profiles@);
    let mut best: Option<usize> = None;
    let mut least_so_far: usize = NEARBY;
    for i in 0..profiles.len()
        invariant
            names == texts(profiles@),
            least_so_far <= NEARBY,
            match best {
                Some(index) => {
                    &&& index < i
                    &&& distance(requested@, names[index as int]) == least_so_far
                    &&& forall|j: int|
                        0 <= j < i ==> least_so_far <= distance(requested@, #[trigger] names[j])
                    &&& forall|j: int|
                        0 <= j < index ==> least_so_far < distance(requested@, #[trigger] names[j])
                },
                None => {
                    &&& least_so_far == NEARBY
                    &&& forall|j: int|
                        0 <= j < i ==> NEARBY < distance(requested@, #[trigger] names[j])
                },
            },
    {
        let apart = edit_distance(requested, profiles[i].as_str());
        assert(apart == distance(requested@, names[i as int]));
        if apart < least_so_far || (apart == least_so_far && best.is_none()) {
            best = Some(i);
            least_so_far = apart;
        }
    }
    match best {
        Some(index) => {
            assert(is_closest(requested@, names, index as int));
            assert(profiles@[index as int]@ == names[index as int]);
            proof {
                law_closest_unique(
                    requested@,
                    names,
                    index as int,
                    choose|i: int| is_closest(requested@, names, i),
                );
            }
            Some(profiles[index].as_str())
        },
        None => None,
    }
}

/// One text comes from the other by one edit: a character is deleted, inserted or
/// replaced.
pub open spec fn is_edit(left: Seq<char>, right: Seq<char>) -> bool {
    exists|before: Seq<char>, after: Seq<char>, old_one: Seq<char>, new_one: Seq<char>| #[trigger]
        edits(left, right, before, after, old_one, new_one)
}

/// At most one character stands in the place of at most one, between what stays.
pub open spec fn edits(
    left: Seq<char>,
    right: Seq<char>,
    before: Seq<char>,
    after: Seq<char>,
    old_one: Seq<char>,
    new_one: Seq<char>,
) -> bool {
    &&& old_one.len() <= 1
    &&& new_one.len() <= 1
    &&& left == before + old_one + after
    &&& right == before + new_one + after
}

proof fn lemma_same_end(left: Seq<char>, right: Seq<char>, last: char)
    ensures
        distance(left.push(last), right.push(last)) <= distance(left, right),
{
    assert(left.push(last).drop_last() =~= left);
    assert(right.push(last).drop_last() =~= right);
}

/// One edit away is at a distance of at most one.
pub proof fn law_edit_is_near(
    before: Seq<char>,
    after: Seq<char>,
    old_one: Seq<char>,
    new_one: Seq<char>,
)
    requires
        old_one.len() <= 1,
        new_one.len() <= 1,
    ensures
        distance(before + old_one + after, before + new_one + after) <= 1,
    decreases after.len(),
{
    let left = before + old_one + after;
    let right = before + new_one + after;
    law_distance_zero(before, before);
    law_distance_zero(left, right);
    if after.len() > 0 {
        let fewer = after.drop_last();
        law_edit_is_near(before, fewer, old_one, new_one);
        lemma_same_end(before + old_one + fewer, before + new_one + fewer, after.last());
        assert(left =~= (before + old_one + fewer).push(after.last()));
        assert(right =~= (before + new_one + fewer).push(after.last()));
    } else if old_one.len() == 0 && new_one.len() == 0 {
        assert(left =~= right);
    } else {
        if old_one.len() == 0 {
            assert(left =~= before);
        } else {
            assert(left.drop_last() =~= before);
        }
        if new_one.len() == 0 {
            assert(right =~= before);
        } else {
            assert(right.drop_last() =~= before);
        }
    }
}

/// A text that is some distance away is reached by so many edits: one of them comes
/// nearer by one.
pub proof fn law_distance_reached(left: Seq<char>, right: Seq<char>)
    requires
        left != right,
    ensures
        exists|middle: Seq<char>| #[trigger]
            is_edit(left, middle) && distance(middle, right) + 1 == distance(left, right),
    decreases left.len() + right.len(),
{
    let none = Seq::<char>::empty();
    if left.len() == 0 {
        if right.len() == 0 {
            assert(left =~= right);
        }
        let middle = seq![right.last()];
        assert(edits(left, middle, none, none, none, middle)) by {
            assert(left =~= none + none + none);
            assert(middle =~= none + middle + none);
        }
        assert(is_edit(left, middle));
        law_distance_bounds(middle, right);
        assert(middle.drop_last() =~= none);
        assert(distance(none, right.drop_last()) == right.len() - 1);
        assert(distance(middle, right) <= right.len() - 1);
        assert(distance(left, right) == right.len());
        assert(distance(middle, right) + 1 == distance(left, right));
    } else if right.len() == 0 {
        let middle = left.drop_last();
        lemma_dropped(left);
        assert(is_edit(left, middle));
        assert(distance(middle, right) + 1 == distance(left, right));
    } else {
        let first = left.drop_last();
        let other = right.drop_last();
        let far = distance(left, right);
        if distance(first, right) + 1 == far {
            lemma_dropped(left);
            assert(is_edit(left, first));
        } else if distance(left, other) + 1 == far {
            let middle = left.push(right.last());
            assert(edits(left, middle, left, none, none, seq![right.last()])) by {
                assert(left =~= left + none + none);
                assert(middle =~= left + seq![right.last()] + none);
            }
            assert(is_edit(left, middle));
            lemma_same_end(left, other, right.last());
            assert(other.push(right.last()) =~= right);
            lemma_near(left, middle, right);
            assert(distance(middle, right) + 1 == far);
        } else if left.last() != right.last() {
            let middle = first.push(right.last());
            assert(edits(left, middle, first, none, seq![left.last()], seq![right.last()])) by {
                assert(left =~= first + seq![left.last()] + none);
                assert(middle =~= first + seq![right.last()] + none);
            }
            assert(is_edit(left, middle));
            lemma_same_end(first, other, right.last());
            assert(other.push(right.last()) =~= right);
            lemma_near(left, middle, right);
            assert(distance(middle, right) + 1 == far);
        } else {
            assert(first.push(left.last()) =~= left);
            assert(other.push(right.last()) =~= right);
            law_distance_reached(first, other);
            let nearer = choose|nearer: Seq<char>| #[trigger]
                is_edit(first, nearer) && distance(nearer, other) + 1 == distance(first, other);
            let (before, after, old_one, new_one) = choose|
                before: Seq<char>,
                after: Seq<char>,
                old_one: Seq<char>,
                new_one: Seq<char>,
            | #[trigger] edits(first, nearer, before, after, old_one, new_one);
            let middle = nearer.push(left.last());
            let longer = after.push(left.last());
            assert(edits(left, middle, before, longer, old_one, new_one)) by {
                assert(left =~= before + old_one + longer);
                assert(middle =~= before + new_one + longer);
            }
            assert(is_edit(left, middle));
            lemma_same_end(nearer, other, left.last());
            lemma_near(left, middle, right);
            assert(distance(middle, right) + 1 == far);
        }
    }
}

proof fn lemma_dropped(text: Seq<char>)
    requires
        text.len() > 0,
    ensures
        is_edit(text, text.drop_last()),
{
    let none = Seq::<char>::empty();
    let less = text.drop_last();
    assert(text =~= less + seq![text.last()] + none);
    assert(less =~= less + none + none);
    assert(edits(text, less, less, none, seq![text.last()], none));
}

proof fn lemma_near(left: Seq<char>, middle: Seq<char>, right: Seq<char>)
    requires
        is_edit(left, middle),
    ensures
        distance(left, right) <= distance(middle, right) + 1,
{
    let (before, after, old_one, new_one) = choose|
        before: Seq<char>,
        after: Seq<char>,
        old_one: Seq<char>,
        new_one: Seq<char>,
    | #[trigger] edits(left, middle, before, after, old_one, new_one);
    law_edit_is_near(before, after, old_one, new_one);
    law_distance_triangle(left, middle, right);
}

} // verus!
