//! Lists of named entries, the form a parameter table takes here: a value
//! is found by the first entry of its name, and setting a name replaces
//! that entry or appends a new one.

use vstd::prelude::*;
use crate::text::str_eq;

verus! {

/// The value of the first entry named `key`.
pub open spec fn lookup<V>(entries: Seq<(String, V)>, key: Seq<char>) -> Option<V>
    decreases entries.len(),
{
    if entries.len() == 0 {
        None
    } else if entries[0].0@ == key {
        Some(entries[0].1)
    } else {
        lookup(entries.drop_first(), key)
    }
}

/// The value of the first entry named `key`.
pub fn lookup_entry<'a, V>(entries: &'a Vec<(String, V)>, key: &str) -> (r: Option<&'a V>)
    ensures
        match r {
            Some(v) => lookup(entries@, key@) == Some(*v),
            None => lookup(entries@, key@) is None,
        },
{
    let mut i: usize = 0;
    assert(entries@.skip(0) =~= entries@);
    while i < entries.len()
        invariant
            i <= entries.len(),
            lookup(entries@, key@) == lookup(entries@.skip(i as int), key@),
        decreases entries.len() - i,
    {
        assert(entries@.skip(i as int)[0] == entries@[i as int]);
        assert(entries@.skip(i as int).drop_first() =~= entries@.skip(i as int + 1));
        if str_eq(entries[i].0.as_str(), key) {
            return Some(&entries[i].1);
        }
        i = i + 1;
    }
    None
}

/// With no entry named `key`, nothing is found under it.
proof fn lemma_lookup_absent<V>(entries: Seq<(String, V)>, key: Seq<char>)
    requires
        forall|j: int| 0 <= j < entries.len() ==> (#[trigger] entries[j]).0@ != key,
    ensures
        lookup(entries, key) is None,
    decreases entries.len(),
{
    if entries.len() > 0 {
        assert forall|j: int| 0 <= j < entries.drop_first().len() implies (
        #[trigger] entries.drop_first()[j]).0@ != key by {
            assert(entries.drop_first()[j] == entries[j + 1]);
        }
        lemma_lookup_absent(entries.drop_first(), key);
    }
}

/// Replacing the first entry named `key` changes what is found under
/// `key` and nothing else.
proof fn lemma_lookup_replace<V>(entries: Seq<(String, V)>, i: int, key: String, value: V, k: Seq<char>)
    requires
        0 <= i < entries.len(),
        entries[i].0@ == key@,
        forall|j: int| 0 <= j < i ==> (#[trigger] entries[j]).0@ != key@,
    ensures
        lookup(entries.update(i, (key, value)), k) == if k == key@ {
            Some(value)
        } else {
            lookup(entries, k)
        },
    decreases i,
{
    let u = entries.update(i, (key, value));
    if i > 0 {
        assert(u.drop_first() =~= entries.drop_first().update(i - 1, (key, value)));
        assert forall|j: int| 0 <= j < i - 1 implies (#[trigger] entries.drop_first()[j]).0@ != key@ by {
            assert(entries.drop_first()[j] == entries[j + 1]);
        }
        assert(entries[0].0@ != key@);
        lemma_lookup_replace(entries.drop_first(), i - 1, key, value, k);
    } else {
        assert(u.drop_first() =~= entries.drop_first());
    }
}

/// The first entry named `key` is what is found under it.
proof fn lemma_lookup_first<V>(entries: Seq<(String, V)>, i: int, key: Seq<char>)
    requires
        0 <= i < entries.len(),
        entries[i].0@ == key,
        forall|j: int| 0 <= j < i ==> (#[trigger] entries[j]).0@ != key,
    ensures
        lookup(entries, key) == Some(entries[i].1),
    decreases i,
{
    if i > 0 {
        assert forall|j: int| 0 <= j < i - 1 implies (#[trigger] entries.drop_first()[j]).0@ != key by {
            assert(entries.drop_first()[j] == entries[j + 1]);
        }
        assert(entries[0].0@ != key);
        lemma_lookup_first(entries.drop_first(), i - 1, key);
    }
}

/// Appending an entry under a new name changes what is found under that
/// name and nothing else.
proof fn lemma_lookup_append<V>(entries: Seq<(String, V)>, key: String, value: V, k: Seq<char>)
    requires
        forall|j: int| 0 <= j < entries.len() ==> (#[trigger] entries[j]).0@ != key@,
    ensures
        lookup(entries.push((key, value)), k) == if k == key@ {
            Some(value)
        } else {
            lookup(entries, k)
        },
    decreases entries.len(),
{
    if entries.len() == 0 {
        assert(entries.push((key, value)).drop_first() =~= Seq::<(String, V)>::empty());
    } else {
        assert(entries.push((key, value)).drop_first() =~= entries.drop_first().push((key, value)));
        assert forall|j: int| 0 <= j < entries.drop_first().len() implies (
        #[trigger] entries.drop_first()[j]).0@ != key@ by {
            assert(entries.drop_first()[j] == entries[j + 1]);
        }
        lemma_lookup_append(entries.drop_first(), key, value, k);
    }
}

/// Sets `key` to `value`: the first entry of that name is replaced, or a
/// new entry appended when there is none.
pub fn set_entry<V>(entries: &mut Vec<(String, V)>, key: String, value: V)
    ensures
        forall|k: Seq<char>| #[trigger]
            lookup(final(entries)@, k) == if k == key@ {
                Some(value)
            } else {
                lookup(old(entries)@, k)
            },
        final(entries)@.len() == old(entries)@.len() + if lookup(old(entries)@, key@) is None {
            1int
        } else {
            0int
        },
{
    let ghost start = entries@;
    let mut i: usize = 0;
    while i < entries.len()
        invariant
            i <= entries.len(),
            entries@ == start,
            start == old(entries)@,
            forall|j: int| 0 <= j < i ==> (#[trigger] entries@[j]).0@ != key@,
        decreases entries.len() - i,
    {
        if str_eq(entries[i].0.as_str(), key.as_str()) {
            proof {
                assert forall|k: Seq<char>| #[trigger]
                    lookup(start.update(i as int, (key, value)), k) == if k == key@ {
                        Some(value)
                    } else {
                        lookup(start, k)
                    } by {
                    lemma_lookup_replace(start, i as int, key, value, k);
                }
                lemma_lookup_first(start, i as int, key@);
            }
            entries.set(i, (key, value));
            return;
        }
        i = i + 1;
    }
    proof {
        assert forall|k: Seq<char>| #[trigger]
            lookup(start.push((key, value)), k) == if k == key@ {
                Some(value)
            } else {
                lookup(start, k)
            } by {
            lemma_lookup_append(start, key, value, k);
        }
        lemma_lookup_absent(start, key@);
    }
    entries.push((key, value));
}

} // verus!
