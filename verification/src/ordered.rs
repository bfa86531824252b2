//! Sets of texts, kept as ascending lists.
use crate::text::{
    comes_before, law_order_irreflexive, law_order_total, law_order_transitive, precedes, same,
    texts,
};
use vstd::prelude::*;

verus! {

/// Each text of the list comes before those that follow it.
pub open spec fn ascending(list: Seq<Seq<char>>) -> bool {
    forall|i: int, j: int| 0 <= i < j < list.len() ==> precedes(#[trigger] list[i], #[trigger] list[j])
}

/// The list holds what the other one holds, each text once, in order.
pub open spec fn sorted_set(list: Seq<Seq<char>>, of: Seq<Seq<char>>) -> bool {
    &&& ascending(list)
    &&& forall|text: Seq<char>| list.contains(text) <==> of.contains(text)
}

/// The texts of a list, each once, in ascending order.
pub open spec fn sorted(of: Seq<Seq<char>>) -> Seq<Seq<char>> {
    choose|list: Seq<Seq<char>>| sorted_set(list, of)
}

/// Puts a text at its place, unless the list holds it already.
fn insert(set: &mut Vec<String>, item: String)
    requires
        ascending(texts(old(set)@)),
    ensures
        ascending(texts(final(set)@)),
        forall|text: Seq<char>|
            texts(final(set)@).contains(text) <==> texts(old(set)@).contains(text) || text == item@,
{
    let ghost before = texts(set@);
    let mut place: usize = 0;
    while place < set.len() && comes_before(set[place].as_str(), item.as_str())
        invariant
            place <= set@.len(),
            texts(set@) == before,
            forall|j: int| 0 <= j < place ==> precedes(#[trigger] before[j], item@),
        decreases set@.len() - place,
    {
        assert(before[place as int] == set@[place as int]@);
        place += 1;
    }
    if place < set.len() && same(set[place].as_str(), item.as_str()) {
        assert(before[place as int] == item@);
        return ;
    }
    let ghost name = item@;
    set.insert(place, item);
    let ghost after = texts(set@);
    assert(after =~= before.insert(place as int, name));
    proof {
        if place < before.len() {
            law_order_total(before[place as int], name);
        }
        assert forall|i: int, j: int| 0 <= i < j < after.len() implies precedes(
            #[trigger] after[i],
            #[trigger] after[j],
        ) by {
            if i == place {
                if j - 1 > place {
                    law_order_transitive(name, before[place as int], before[j - 1]);
                }
            } else if j == place {
            } else {
                let left = if i < place { i } else { i - 1 };
                let right = if j < place { j } else { j - 1 };
                assert(precedes(before[left], before[right]));
            }
        }
        assert forall|text: Seq<char>|
            after.contains(text) <==> before.contains(text) || text == name by {
            if before.contains(text) {
                let i = choose|i: int| 0 <= i < before.len() && before[i] == text;
                assert(after[if i < place { i } else { i + 1 }] == text);
            }
            if text == name {
                assert(after[place as int] == text);
            }
            if after.contains(text) && text != name {
                let i = choose|i: int| 0 <= i < after.len() && after[i] == text;
                assert(before[if i < place { i } else { i - 1 }] == text);
            }
        }
    }
}

/// The texts of a list, each once, in ascending order.
pub fn collect(items: Vec<String>) -> (result: Vec<String>)
    ensures
        texts(result@) == sorted(texts(items@)),
        sorted_set(texts(result@), texts(items@)),
{
    let mut result: Vec<String> = Vec::new();
    for i in 0..items.len()
        invariant
            sorted_set(texts(result@), texts(items@).take(i as int)),
    {
        let ghost done = texts(items@).take(i as int);
        let ghost more = texts(items@).take(i + 1);
        let ghost name = items@[i as int]@;
        insert(&mut result, items[i].clone());
        assert(more =~= done.push(name));
        assert forall|text: Seq<char>|
            more.contains(text) <==> done.contains(text) || text == name by {
            if done.contains(text) {
                let k = choose|k: int| 0 <= k < done.len() && done[k] == text;
                assert(more[k] == text);
            }
            assert(more[i as int] == name);
        }
    }
    assert(texts(items@).take(items@.len() as int) =~= texts(items@));
    proof {
        lemma_sorted(texts(result@), texts(items@));
    }
    result
}

/// The list that holds each text once and in order is the only such list.
pub proof fn lemma_sorted(list: Seq<Seq<char>>, of: Seq<Seq<char>>)
    requires
        sorted_set(list, of),
    ensures
        sorted(of) == list,
{
    law_sorted_set_unique(sorted(of), list);
}

proof fn lemma_insertion(list: Seq<Seq<char>>, item: Seq<char>) -> (result: Seq<Seq<char>>)
    requires
        ascending(list),
    ensures
        ascending(result),
        forall|text: Seq<char>| #[trigger]
            result.contains(text) <==> list.contains(text) || text == item,
    decreases list.len(),
{
    if list.len() == 0 {
        let result = seq![item];
        assert(result[0] == item);
        result
    } else if list[0] == item {
        list
    } else if precedes(item, list[0]) {
        let result = seq![item] + list;
        assert forall|i: int, j: int| 0 <= i < j < result.len() implies precedes(
            #[trigger] result[i],
            #[trigger] result[j],
        ) by {
            if i == 0 {
                if j > 1 {
                    law_order_transitive(item, list[0], list[j - 1]);
                }
            } else {
                assert(precedes(list[i - 1], list[j - 1]));
            }
        }
        assert forall|text: Seq<char>| #[trigger]
            result.contains(text) <==> list.contains(text) || text == item by {
            if list.contains(text) {
                let k = choose|k: int| 0 <= k < list.len() && list[k] == text;
                assert(result[k + 1] == text);
            }
            assert(result[0] == item);
        }
        result
    } else {
        let first = list[0];
        let rest = list.drop_first();
        law_order_total(first, item);
        let more = lemma_insertion(rest, item);
        let result = seq![first] + more;
        assert forall|i: int, j: int| 0 <= i < j < result.len() implies precedes(
            #[trigger] result[i],
            #[trigger] result[j],
        ) by {
            if i == 0 {
                assert(more.contains(more[j - 1]));
                if more[j - 1] != item {
                    let k = choose|k: int| 0 <= k < rest.len() && rest[k] == more[j - 1];
                    assert(precedes(list[0], list[k + 1]));
                }
            } else {
                assert(precedes(more[i - 1], more[j - 1]));
            }
        }
        assert forall|text: Seq<char>| #[trigger]
            result.contains(text) <==> list.contains(text) || text == item by {
            if list.contains(text) && text != first {
                let k = choose|k: int| 0 <= k < list.len() && list[k] == text;
                assert(rest[k - 1] == text);
                assert(rest.contains(text));
            }
            if more.contains(text) {
                let k = choose|k: int| 0 <= k < more.len() && more[k] == text;
                assert(result[k + 1] == text);
            }
            assert(result[0] == first);
            if result.contains(text) && text != first {
                let k = choose|k: int| 0 <= k < result.len() && result[k] == text;
                assert(more[k - 1] == text);
                assert(more.contains(text));
                if text != item {
                    let m = choose|m: int| 0 <= m < rest.len() && rest[m] == text;
                    assert(list[m + 1] == text);
                }
            }
        }
        result
    }
}

proof fn lemma_exists(of: Seq<Seq<char>>)
    ensures
        exists|list: Seq<Seq<char>>| sorted_set(list, of),
    decreases of.len(),
{
    if of.len() == 0 {
        assert(sorted_set(of, of));
    } else {
        let fewer = of.drop_last();
        lemma_exists(fewer);
        let list = choose|list: Seq<Seq<char>>| sorted_set(list, fewer);
        let more = lemma_insertion(list, of.last());
        assert forall|text: Seq<char>| more.contains(text) <==> of.contains(text) by {
            if of.contains(text) {
                let k = choose|k: int| 0 <= k < of.len() && of[k] == text;
                if k < fewer.len() {
                    assert(fewer[k] == text);
                    assert(fewer.contains(text));
                }
            }
            if fewer.contains(text) {
                let k = choose|k: int| 0 <= k < fewer.len() && fewer[k] == text;
                assert(of[k] == text);
            }
            assert(of[of.len() - 1] == of.last());
        }
        assert(sorted_set(more, of));
    }
}

/// A sorted list holds what the list it comes from holds, each text once, in
/// order.
pub proof fn law_sorted(of: Seq<Seq<char>>)
    ensures
        sorted_set(sorted(of), of),
        sorted(of).no_duplicates(),
{
    lemma_exists(of);
    law_ascending_distinct(sorted(of));
}

/// An ascending list holds no text twice.
pub proof fn law_ascending_distinct(list: Seq<Seq<char>>)
    requires
        ascending(list),
    ensures
        list.no_duplicates(),
{
    assert forall|i: int, j: int| 0 <= i < list.len() && 0 <= j < list.len() && i != j implies list[i]
        != list[j] by {
        law_order_irreflexive(list[i]);
        if i < j {
            assert(precedes(list[i], list[j]));
        } else {
            assert(precedes(list[j], list[i]));
        }
    }
}

/// What a set holds determines its list: two ascending lists of the same texts
/// are the same list.
pub proof fn law_sorted_set_unique(left: Seq<Seq<char>>, right: Seq<Seq<char>>)
    requires
        ascending(left),
        ascending(right),
        forall|text: Seq<char>| left.contains(text) <==> right.contains(text),
    ensures
        left == right,
    decreases left.len(),
{
    if left.len() == 0 {
        if right.len() > 0 {
            assert(right.contains(right[0]));
            assert(left.contains(right[0]));
        }
        assert(left =~= right);
    } else {
        let last = left.last();
        assert(left.contains(last));
        assert(right.contains(last));
        let at = choose|k: int| 0 <= k < right.len() && right[k] == last;
        if at < right.len() - 1 {
            assert(right.contains(right.last()));
            assert(left.contains(right.last()));
            let k = choose|k: int| 0 <= k < left.len() && left[k] == right.last();
            assert(precedes(right[at], right[right.len() - 1]));
            if k < left.len() - 1 {
                assert(precedes(left[k], left[left.len() - 1]));
                law_order_transitive(last, right.last(), last);
            }
            law_order_irreflexive(last);
        }
        assert(right.last() == last);
        let shorter_left = left.drop_last();
        let shorter_right = right.drop_last();
        assert forall|text: Seq<char>| shorter_left.contains(text) implies shorter_right.contains(
            text,
        ) by {
            let k = choose|k: int| 0 <= k < shorter_left.len() && shorter_left[k] == text;
            assert(left[k] == text);
            assert(left.contains(text));
            assert(precedes(left[k], left[left.len() - 1]));
            law_order_irreflexive(last);
            let m = choose|m: int| 0 <= m < right.len() && right[m] == text;
            assert(m < right.len() - 1);
            assert(shorter_right[m] == text);
        }
        assert forall|text: Seq<char>| shorter_right.contains(text) implies shorter_left.contains(
            text,
        ) by {
            let k = choose|k: int| 0 <= k < shorter_right.len() && shorter_right[k] == text;
            assert(right[k] == text);
            assert(right.contains(text));
            assert(precedes(right[k], right[right.len() - 1]));
            law_order_irreflexive(last);
            let m = choose|m: int| 0 <= m < left.len() && left[m] == text;
            assert(m < left.len() - 1);
            assert(shorter_left[m] == text);
        }
        law_sorted_set_unique(shorter_left, shorter_right);
        assert(left =~= shorter_left.push(last));
        assert(right =~= shorter_right.push(last));
    }
}

} // verus!
