//! Keyed collections: vectors of records identified by a textual key
//! (an address or a symbol), kept free of duplicate keys.
use vstd::prelude::*;

verus! {

/// A record identified by a key.
pub trait Keyed {
    /// The key type of executable code.
    type Key;

    /// The mathematical value of a key.
    type KeyView;

    spec fn key_view(&self) -> Self::KeyView;

    spec fn view_of_key(k: &Self::Key) -> Self::KeyView;

    fn has_key_of(&self, k: &Self::Key) -> (b: bool)
        ensures
            b == (self.key_view() == Self::view_of_key(k)),
    ;

    /// A key equal to this record's key.
    fn key_copy(&self) -> (k: Self::Key)
        ensures
            Self::view_of_key(&k) == self.key_view(),
    ;
}

/// No two records share a key.
pub open spec fn keys_unique<T: Keyed>(s: Seq<T>) -> bool {
    forall|i: int, j: int|
        0 <= i < s.len() && 0 <= j < s.len() && i != j ==> #[trigger] s[i].key_view()
            != #[trigger] s[j].key_view()
}

/// Some record carries key `k`.
pub open spec fn has_key<T: Keyed>(s: Seq<T>, k: T::KeyView) -> bool {
    exists|i: int| 0 <= i < s.len() && #[trigger] s[i].key_view() == k
}

/// The record carrying key `k`, if any (unique when keys are unique).
pub open spec fn lookup<T: Keyed>(s: Seq<T>, k: T::KeyView) -> Option<T> {
    if has_key(s, k) {
        Some(s[choose|i: int| 0 <= i < s.len() && #[trigger] s[i].key_view() == k])
    } else {
        None
    }
}

pub proof fn lemma_lookup_at<T: Keyed>(s: Seq<T>, i: int)
    requires
        keys_unique(s),
        0 <= i < s.len(),
    ensures
        lookup(s, s[i].key_view()) == Some(s[i]),
{
    let k = s[i].key_view();
    assert(has_key(s, k));
    let j = choose|j: int| 0 <= j < s.len() && #[trigger] s[j].key_view() == k;
    assert(j == i);
}

pub proof fn lemma_lookup_push<T: Keyed>(s: Seq<T>, item: T)
    requires
        keys_unique(s),
        !has_key(s, item.key_view()),
    ensures
        keys_unique(s.push(item)),
        forall|k: T::KeyView|
            #[trigger] lookup(s.push(item), k) == (if k == item.key_view() {
                Some(item)
            } else {
                lookup(s, k)
            }),
{
    let t = s.push(item);
    assert forall|i: int, j: int|
        0 <= i < t.len() && 0 <= j < t.len() && i != j implies #[trigger] t[i].key_view()
        != #[trigger] t[j].key_view() by {
        if i < s.len() && j < s.len() {
            assert(t[i] == s[i] && t[j] == s[j]);
        } else if i == s.len() {
            assert(t[j] == s[j]);
        } else {
            assert(t[i] == s[i]);
        }
    }
    assert forall|k: T::KeyView|
        #[trigger] lookup(t, k) == (if k == item.key_view() {
            Some(item)
        } else {
            lookup(s, k)
        }) by {
        if k == item.key_view() {
            lemma_lookup_at(t, s.len() as int);
        } else if has_key(s, k) {
            let i = choose|i: int| 0 <= i < s.len() && #[trigger] s[i].key_view() == k;
            lemma_lookup_at(s, i);
            assert(t[i] == s[i]);
            lemma_lookup_at(t, i);
        } else {
            assert(!has_key(t, k)) by {
                if has_key(t, k) {
                    let i = choose|i: int| 0 <= i < t.len() && #[trigger] t[i].key_view() == k;
                    assert(i < s.len());
                    assert(s[i] == t[i]);
                }
            }
        }
    }
}

pub proof fn lemma_lookup_update<T: Keyed>(s: Seq<T>, i: int, item: T)
    requires
        keys_unique(s),
        0 <= i < s.len(),
        item.key_view() == s[i].key_view(),
    ensures
        keys_unique(s.update(i, item)),
        forall|k: T::KeyView|
            #[trigger] lookup(s.update(i, item), k) == (if k == item.key_view() {
                Some(item)
            } else {
                lookup(s, k)
            }),
{
    let t = s.update(i, item);
    assert forall|a: int, b: int|
        0 <= a < t.len() && 0 <= b < t.len() && a != b implies #[trigger] t[a].key_view()
        != #[trigger] t[b].key_view() by {
        assert(s[a].key_view() == t[a].key_view());
        assert(s[b].key_view() == t[b].key_view());
    }
    assert forall|k: T::KeyView|
        #[trigger] lookup(t, k) == (if k == item.key_view() {
            Some(item)
        } else {
            lookup(s, k)
        }) by {
        if k == item.key_view() {
            lemma_lookup_at(t, i);
        } else if has_key(s, k) {
            let j = choose|j: int| 0 <= j < s.len() && #[trigger] s[j].key_view() == k;
            lemma_lookup_at(s, j);
            assert(j != i);
            assert(t[j] == s[j]);
            lemma_lookup_at(t, j);
        } else {
            assert(!has_key(t, k)) by {
                if has_key(t, k) {
                    let j = choose|j: int| 0 <= j < t.len() && #[trigger] t[j].key_view() == k;
                    assert(s[j].key_view() == t[j].key_view());
                }
            }
        }
    }
}

/// The records as a map from key to record.
pub open spec fn map_of<T: Keyed>(s: Seq<T>) -> Map<T::KeyView, T> {
    Map::new(|k: T::KeyView| has_key(s, k), |k: T::KeyView| lookup(s, k)->Some_0)
}

pub proof fn lemma_map_of_lookup<T: Keyed>(s: Seq<T>, k: T::KeyView)
    ensures
        map_of(s).contains_key(k) == lookup(s, k).is_some(),
        lookup(s, k).is_some() ==> map_of(s)[k] == lookup(s, k)->Some_0,
{
}

/// The record found under `k` carries `k`.
pub proof fn lemma_lookup_key<T: Keyed>(s: Seq<T>, k: T::KeyView)
    ensures
        lookup(s, k) matches Some(t) ==> t.key_view() == k,
{
}

/// The first record carrying key `k`, if any.
pub open spec fn first_of<T: Keyed>(s: Seq<T>, k: T::KeyView) -> Option<T>
    decreases s.len(),
{
    if s.len() == 0 {
        None
    } else if s[0].key_view() == k {
        Some(s[0])
    } else {
        first_of(s.drop_first(), k)
    }
}

pub proof fn lemma_first_of<T: Keyed>(s: Seq<T>, k: T::KeyView, i: int)
    requires
        0 <= i < s.len(),
        s[i].key_view() == k,
        forall|j: int| 0 <= j < i ==> #[trigger] s[j].key_view() != k,
    ensures
        first_of(s, k) == Some(s[i]),
    decreases i,
{
    if i > 0 {
        assert(s[0].key_view() != k);
        lemma_first_of(s.drop_first(), k, i - 1);
    }
}

pub proof fn lemma_first_of_none<T: Keyed>(s: Seq<T>, k: T::KeyView)
    requires
        !has_key(s, k),
    ensures
        first_of(s, k) is None,
    decreases s.len(),
{
    if s.len() > 0 {
        assert(s[0].key_view() != k);
        assert(!has_key(s.drop_first(), k)) by {
            if has_key(s.drop_first(), k) {
                let j = choose|j: int| 0 <= j < s.drop_first().len() && #[trigger] s.drop_first()[j].key_view() == k;
                assert(s[j + 1].key_view() == k);
            }
        }
        lemma_first_of_none(s.drop_first(), k);
    }
}

/// Position of the record carrying key `k`.
pub fn find_key<T: Keyed>(v: &Vec<T>, k: &T::Key) -> (r: Option<usize>)
    ensures
        match r {
            Some(i) => i < v@.len() && v@[i as int].key_view() == T::view_of_key(k) && forall|j: int|
                0 <= j < i ==> #[trigger] v@[j].key_view() != T::view_of_key(k),
            None => !has_key(v@, T::view_of_key(k)),
        },
{
    let mut i: usize = 0;
    while i < v.len()
        invariant
            i <= v@.len(),
            forall|j: int| 0 <= j < i ==> #[trigger] v@[j].key_view() != T::view_of_key(k),
        decreases v@.len() - i,
    {
        if v[i].has_key_of(k) {
            return Some(i);
        }
        i = i + 1;
    }
    None
}

/// Inserts `item`, replacing the record with the same key if there is one.
pub fn upsert<T: Keyed>(v: &mut Vec<T>, item: T)
    requires
        keys_unique(old(v)@),
    ensures
        keys_unique(final(v)@),
        forall|k: T::KeyView|
            #[trigger] lookup(final(v)@, k) == (if k == item.key_view() {
                Some(item)
            } else {
                lookup(old(v)@, k)
            }),
        map_of(final(v)@) == map_of(old(v)@).insert(item.key_view(), item),
{
    let ghost old_v = v@;
    let ghost key = item.key_view();
    let k = item.key_copy();
    let found = find_key(v, &k);
    match found {
        Some(i) => {
            proof {
                lemma_lookup_update(v@, i as int, item);
            }
            v.set(i, item);
        },
        None => {
            proof {
                lemma_lookup_push(v@, item);
            }
            v.push(item);
        },
    }
    assert(map_of(v@) =~= map_of(old_v).insert(key, item)) by {
        assert forall|k: T::KeyView| #[trigger] map_of(v@).contains_key(k) == map_of(old_v).insert(key, item).contains_key(k) by {
            assert(lookup(v@, k) == (if k == key { Some(item) } else { lookup(old_v, k) }));
        }
        assert forall|k: T::KeyView| map_of(v@).contains_key(k) implies #[trigger] map_of(v@)[k] == map_of(old_v).insert(key, item)[k] by {
            assert(lookup(v@, k) == (if k == key { Some(item) } else { lookup(old_v, k) }));
        }
    }
}

/// Removes the record carrying key `k`, if any.
pub fn remove_key<T: Keyed>(v: &mut Vec<T>, k: &T::Key)
    requires
        keys_unique(old(v)@),
    ensures
        keys_unique(final(v)@),
        map_of(final(v)@) == map_of(old(v)@).remove(T::view_of_key(k)),
{
    let ghost key = T::view_of_key(k);
    let ghost old_v = v@;
    match find_key(v, k) {
        Some(i) => {
            v.remove(i);
            proof {
                let s = v@;
                assert(s =~= old_v.subrange(0, i as int) + old_v.subrange(i + 1, old_v.len() as int));
                assert forall|a: int, b: int|
                    0 <= a < s.len() && 0 <= b < s.len() && a != b implies #[trigger] s[a].key_view()
                    != #[trigger] s[b].key_view() by {
                    let a0 = if a < i { a } else { a + 1 };
                    let b0 = if b < i { b } else { b + 1 };
                    assert(s[a] == old_v[a0]);
                    assert(s[b] == old_v[b0]);
                }
                assert forall|kk: T::KeyView| #[trigger] lookup(s, kk) == (if kk == key {
                    None
                } else {
                    lookup(old_v, kk)
                }) by {
                    if has_key(s, kk) {
                        let a = choose|a: int| 0 <= a < s.len() && #[trigger] s[a].key_view() == kk;
                        let a0 = if a < i { a } else { a + 1 };
                        assert(s[a] == old_v[a0]);
                        lemma_lookup_at(s, a);
                        lemma_lookup_at(old_v, a0);
                        assert(kk != key);
                    } else if kk != key && has_key(old_v, kk) {
                        let a0 = choose|a: int| 0 <= a < old_v.len() && #[trigger] old_v[a].key_view() == kk;
                        assert(a0 != i);
                        let a = if a0 < i { a0 } else { a0 - 1 };
                        assert(s[a] == old_v[a0]);
                    }
                }
                assert(map_of(s) =~= map_of(old_v).remove(key)) by {
                    assert forall|kk: T::KeyView| #[trigger] map_of(s).contains_key(kk) == map_of(old_v).remove(key).contains_key(kk) by {
                        assert(lookup(s, kk) == (if kk == key { None } else { lookup(old_v, kk) }));
                    }
                    assert forall|kk: T::KeyView| map_of(s).contains_key(kk) implies #[trigger] map_of(s)[kk] == map_of(old_v).remove(key)[kk] by {
                        assert(lookup(s, kk) == (if kk == key { None } else { lookup(old_v, kk) }));
                    }
                }
            }
        },
        None => {
            proof {
                assert(map_of(v@) =~= map_of(old_v).remove(key));
            }
        },
    }
}

} // verus!
