//! Association lists keyed by name, and the finite map that one stands for.
//!
//! Namespaces and entry-point tables are stored as lists in which no name
//! occurs twice; their contracts speak of the map.

use vstd::prelude::*;

verus! {

/// No name occurs twice in `list`.
pub open spec fn distinct_names<V>(list: Seq<(Seq<char>, V)>) -> bool {
    forall|i: int, j: int| 0 <= i < j < list.len() ==> (#[trigger] list[i]).0 != (#[trigger] list[j]).0
}

/// `name` occurs in `list`.
pub open spec fn has_name<V>(list: Seq<(Seq<char>, V)>, name: Seq<char>) -> bool {
    exists|i: int| 0 <= i < list.len() && (#[trigger] list[i]).0 == name
}

/// A place at which `name` occurs in `list`.
pub open spec fn place_of<V>(list: Seq<(Seq<char>, V)>, name: Seq<char>) -> int {
    choose|i: int| 0 <= i < list.len() && (#[trigger] list[i]).0 == name
}

/// The map from each name in `list` to what stands beside it.
pub open spec fn as_map<V>(list: Seq<(Seq<char>, V)>) -> Map<Seq<char>, V> {
    Map::new(|name: Seq<char>| has_name(list, name), |name: Seq<char>| list[place_of(list, name)].1)
}

/// The map of the empty list is empty.
pub proof fn lemma_empty<V>(list: Seq<(Seq<char>, V)>)
    requires
        list.len() == 0,
    ensures
        as_map(list) == Map::<Seq<char>, V>::empty(),
        distinct_names(list),
{
}

/// What stands at place `i` is what the map gives for the name at `i`.
pub proof fn lemma_found<V>(list: Seq<(Seq<char>, V)>, i: int)
    requires
        distinct_names(list),
        0 <= i < list.len(),
    ensures
        as_map(list).contains_key(list[i].0),
        as_map(list)[list[i].0] == list[i].1,
{
    let name = list[i].0;
    let j = place_of(list, name);
    if j < i {
    } else if i < j {
    }
}

/// A name that stands at no place is not in the map.
pub proof fn lemma_absent<V>(list: Seq<(Seq<char>, V)>, name: Seq<char>)
    requires
        forall|i: int| 0 <= i < list.len() ==> (#[trigger] list[i]).0 != name,
    ensures
        !as_map(list).contains_key(name),
{
}

/// Appending a new name inserts it into the map.
pub proof fn lemma_push<V>(list: Seq<(Seq<char>, V)>, name: Seq<char>, value: V)
    requires
        distinct_names(list),
        !as_map(list).contains_key(name),
    ensures
        distinct_names(list.push((name, value))),
        as_map(list.push((name, value))) == as_map(list).insert(name, value),
{
    let longer = list.push((name, value));
    assert forall|other: Seq<char>| #[trigger]
        as_map(longer).contains_key(other) <==> as_map(list).insert(name, value).contains_key(
            other,
        ) by {
        if other == name {
            assert(longer[list.len() as int].0 == name);
        } else if has_name(list, other) {
            assert(longer[place_of(list, other)] == list[place_of(list, other)]);
        }
    }
    assert forall|other: Seq<char>| as_map(longer).contains_key(other) implies #[trigger] as_map(
        longer,
    )[other] == as_map(list).insert(name, value)[other] by {
        let i = place_of(longer, other);
        lemma_found(longer, i);
        if i < list.len() {
            lemma_found(list, i);
        }
    }
}

/// Replacing what stands beside the name at place `i` updates the map there.
pub proof fn lemma_update<V>(list: Seq<(Seq<char>, V)>, i: int, value: V)
    requires
        distinct_names(list),
        0 <= i < list.len(),
    ensures
        distinct_names(list.update(i, (list[i].0, value))),
        as_map(list.update(i, (list[i].0, value))) == as_map(list).insert(list[i].0, value),
{
    let name = list[i].0;
    let changed = list.update(i, (name, value));
    assert forall|other: Seq<char>| #[trigger]
        as_map(changed).contains_key(other) <==> as_map(list).insert(name, value).contains_key(
            other,
        ) by {
        if other == name {
            assert(changed[i].0 == name);
        } else if has_name(list, other) {
            assert(changed[place_of(list, other)].0 == other);
        }
    }
    assert forall|other: Seq<char>| as_map(changed).contains_key(other) implies #[trigger] as_map(
        changed,
    )[other] == as_map(list).insert(name, value)[other] by {
        let a = place_of(changed, other);
        lemma_found(changed, a);
        if a != i {
            lemma_found(list, a);
        }
    }
}

} // verus!
