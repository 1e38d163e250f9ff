//! String-keyed association lists with unique keys, used where the
//! surrounding tooling would reach for a map: labels, annotations and
//! configuration values.

use vstd::prelude::*;

use crate::util::str_eq;

verus! {

/// The value stored under a key, by the first (and, with unique keys, only)
/// matching entry.
pub open spec fn kv_get<V>(s: Seq<(String, V)>, k: Seq<char>) -> Option<V>
    decreases s.len(),
{
    if s.len() == 0 {
        None
    } else if s[0].0@ == k {
        Some(s[0].1)
    } else {
        kv_get(s.drop_first(), k)
    }
}

/// No key occurs twice.
pub open spec fn kv_unique<V>(s: Seq<(String, V)>) -> bool {
    forall|i: int, j: int| 0 <= i < j < s.len() ==> (#[trigger] s[i]).0@ != (#[trigger] s[j]).0@
}

/// A pushed entry with a fresh key is found, and the other keys keep their
/// values.
proof fn lemma_kv_get_push<V>(s: Seq<(String, V)>, e: (String, V), k: Seq<char>)
    requires
        forall|i: int| 0 <= i < s.len() ==> (#[trigger] s[i]).0@ != e.0@,
    ensures
        kv_get(s.push(e), e.0@) == Some(e.1),
        k != e.0@ ==> kv_get(s.push(e), k) == kv_get(s, k),
    decreases s.len(),
{
    if s.len() == 0 {
        reveal_with_fuel(kv_get, 3);
        assert(s.push(e)[0] == e);
        assert(s.push(e).len() == 1);
        assert(s.push(e).drop_first() =~= Seq::<(String, V)>::empty());
    } else {
        assert(s.push(e)[0] == s[0]);
        assert(s.push(e).drop_first() =~= s.drop_first().push(e));
        assert(forall|i: int|
            0 <= i < s.drop_first().len() ==> (#[trigger] s.drop_first()[i]).0@ != e.0@) by {
            assert(forall|i: int|
                0 <= i < s.drop_first().len() ==> s.drop_first()[i] == s[i + 1]);
        }
        lemma_kv_get_push(s.drop_first(), e, k);
        assert(s[0].0@ != e.0@);
    }
}

/// An updated entry is found under its key, and the other keys keep their
/// values.
proof fn lemma_kv_get_update<V>(s: Seq<(String, V)>, i: int, e: (String, V), k: Seq<char>)
    requires
        0 <= i < s.len(),
        s[i].0@ == e.0@,
        kv_unique(s),
    ensures
        kv_get(s.update(i, e), e.0@) == Some(e.1),
        k != e.0@ ==> kv_get(s.update(i, e), k) == kv_get(s, k),
    decreases s.len(),
{
    let t = s.update(i, e);
    if i == 0 {
        assert(t[0] == e);
        assert(t.drop_first() =~= s.drop_first());
    } else {
        assert(t[0] == s[0]);
        assert(s[0].0@ != s[i].0@);
        assert(t.drop_first() =~= s.drop_first().update(i - 1, e));
        assert(kv_unique(s.drop_first())) by {
            assert(forall|a: int|
                0 <= a < s.drop_first().len() ==> s.drop_first()[a] == s[a + 1]);
        }
        assert(s.drop_first()[i - 1].0@ == e.0@);
        lemma_kv_get_update(s.drop_first(), i - 1, e, k);
    }
}

/// Look a key up.
pub fn kv_find<V>(list: &Vec<(String, V)>, key: &str) -> (r: Option<usize>)
    ensures
        match r {
            Some(i) => i < list@.len() && list@[i as int].0@ == key@ && forall|j: int|
                0 <= j < i ==> (#[trigger] list@[j]).0@ != key@,
            None => forall|j: int| 0 <= j < list@.len() ==> (#[trigger] list@[j]).0@ != key@,
        },
{
    let mut i: usize = 0;
    while i < list.len()
        invariant
            i <= list@.len(),
            forall|j: int| 0 <= j < i ==> (#[trigger] list@[j]).0@ != key@,
        decreases list@.len() - i,
    {
        if str_eq(list[i].0.as_str(), key) {
            return Some(i);
        }
        i += 1;
    }
    None
}

/// The first index holding a key determines what `kv_get` yields.
proof fn lemma_kv_get_at<V>(s: Seq<(String, V)>, i: int)
    requires
        0 <= i < s.len(),
        forall|j: int| 0 <= j < i ==> (#[trigger] s[j]).0@ != s[i].0@,
    ensures
        kv_get(s, s[i].0@) == Some(s[i].1),
    decreases i,
{
    if i > 0 {
        assert(s.drop_first()[i - 1] == s[i]);
        assert(forall|j: int|
            0 <= j < i - 1 ==> (#[trigger] s.drop_first()[j]).0@ != s.drop_first()[i - 1].0@) by {
            assert(forall|j: int| 0 <= j < i - 1 ==> s.drop_first()[j] == s[j + 1]);
        }
        lemma_kv_get_at(s.drop_first(), i - 1);
    }
}

/// A key held by no entry yields nothing.
proof fn lemma_kv_get_absent<V>(s: Seq<(String, V)>, k: Seq<char>)
    requires
        forall|j: int| 0 <= j < s.len() ==> (#[trigger] s[j]).0@ != k,
    ensures
        kv_get(s, k) is None,
    decreases s.len(),
{
    if s.len() > 0 {
        assert(forall|j: int|
            0 <= j < s.drop_first().len() ==> (#[trigger] s.drop_first()[j]).0@ != k) by {
            assert(forall|j: int| 0 <= j < s.drop_first().len() ==> s.drop_first()[j] == s[j + 1]);
        }
        lemma_kv_get_absent(s.drop_first(), k);
    }
}

/// Look up the value stored under a key.
pub fn kv_lookup<'a, V>(list: &'a Vec<(String, V)>, key: &str) -> (r: Option<&'a V>)
    ensures
        match r {
            Some(v) => kv_get(list@, key@) matches Some(sv) && *v == sv,
            None => kv_get(list@, key@) is None,
        },
{
    match kv_find(list, key) {
        Some(i) => {
            proof {
                lemma_kv_get_at(list@, i as int);
            }
            Some(&list[i].1)
        },
        None => {
            proof {
                lemma_kv_get_absent(list@, key@);
            }
            None
        },
    }
}

/// Insert or replace: the key now holds the value, every other key keeps
/// its value, keys stay unique, and the list grows only when the key was
/// absent.
pub fn kv_insert<V>(list: &mut Vec<(String, V)>, key: &str, value: V)
    requires
        kv_unique(old(list)@),
    ensures
        kv_unique(final(list)@),
        kv_get(final(list)@, key@) matches Some(v) && v == value,
        forall|k2: Seq<char>| k2 != key@ ==> kv_get(final(list)@, k2) == kv_get(old(list)@, k2),
        final(list)@.len() == old(list)@.len() + (if kv_get(old(list)@, key@) is Some {
            0int
        } else {
            1int
        }),
{
    let found = kv_find(list, key);
    match found {
        Some(i) => {
            let ghost old_list = list@;
            list.set(i, (String::from_str(key), value));
            proof {
                let e = list@[i as int];
                assert(e.0@ == key@ && e.1 == value);
                assert(list@ == old_list.update(i as int, e));
                assert(old_list[i as int].0@ == e.0@);
                lemma_kv_get_update(old_list, i as int, e, key@);
                assert forall|k2: Seq<char>| k2 != key@ implies kv_get(list@, k2) == kv_get(
                    old_list,
                    k2,
                ) by {
                    lemma_kv_get_update(old_list, i as int, e, k2);
                }
                assert forall|a: int, b: int| 0 <= a < b < list@.len() implies (
                #[trigger] list@[a]).0@ != (#[trigger] list@[b]).0@ by {
                    if a != i && b != i {
                        assert(list@[a] == old_list[a]);
                        assert(list@[b] == old_list[b]);
                    } else if a == i {
                        assert(list@[b] == old_list[b]);
                        assert(old_list[a].0@ != old_list[b].0@);
                    } else {
                        assert(list@[a] == old_list[a]);
                        assert(old_list[a].0@ != old_list[b].0@);
                    }
                }
                lemma_kv_get_at(old_list, i as int);
            }
        },
        None => {
            let ghost old_list = list@;
            list.push((String::from_str(key), value));
            proof {
                let e = list@.last();
                assert(e.0@ == key@ && e.1 == value);
                assert(list@ == old_list.push(e));
                lemma_kv_get_push(old_list, e, key@);
                assert forall|k2: Seq<char>| k2 != key@ implies kv_get(list@, k2) == kv_get(
                    old_list,
                    k2,
                ) by {
                    lemma_kv_get_push(old_list, e, k2);
                }
                assert forall|a: int, b: int| 0 <= a < b < list@.len() implies (
                #[trigger] list@[a]).0@ != (#[trigger] list@[b]).0@ by {
                    if b < list@.len() - 1 {
                        assert(list@[a] == old_list[a]);
                        assert(list@[b] == old_list[b]);
                    } else {
                        assert(list@[a] == old_list[a]);
                    }
                }
                lemma_kv_get_absent(old_list, key@);
            }
        },
    }
}

} // verus!

verus! {

/// Two association lists with the same keys in the same places hold the
/// same keys, whatever their values.
pub proof fn lemma_kv_same_keys<V, W>(a: Seq<(String, V)>, b: Seq<(String, W)>, k: Seq<char>)
    requires
        a.len() == b.len(),
        forall|i: int| 0 <= i < a.len() ==> (#[trigger] a[i]).0@ == b[i].0@,
    ensures
        kv_get(a, k) is Some <==> kv_get(b, k) is Some,
    decreases a.len(),
{
    if a.len() > 0 {
        assert(a[0].0@ == b[0].0@);
        if a[0].0@ == k {
        } else {
            assert(forall|i: int|
                0 <= i < a.drop_first().len() ==> (#[trigger] a.drop_first()[i]) == a[i + 1]);
            assert(forall|i: int|
                0 <= i < b.drop_first().len() ==> (#[trigger] b.drop_first()[i]) == b[i + 1]);
            lemma_kv_same_keys(a.drop_first(), b.drop_first(), k);
        }
    }
}

} // verus!
