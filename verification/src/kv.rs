//! An association list of string keys and string values, with the insert
//! semantics shared by HTTP header maps and the document merger: inserting an
//! existing key overwrites its value in place, inserting a new key appends it.

use vstd::prelude::*;
use crate::text::str_eq;

verus! {

/// One key-value pair.
#[derive(Debug)]
pub struct Entry {
    pub key: String,
    pub value: String,
}

/// Does some entry carry this key?
pub open spec fn has_key(entries: Seq<Entry>, k: Seq<char>) -> bool {
    exists|i: int| #![trigger entries[i]] 0 <= i < entries.len() && entries[i].key@ == k
}

/// The value of the first entry with key `k`, if any.
pub open spec fn lookup(entries: Seq<Entry>, k: Seq<char>) -> Option<Seq<char>>
    decreases entries.len(),
{
    if entries.len() == 0 {
        None
    } else if entries[0].key@ == k {
        Some(entries[0].value@)
    } else {
        lookup(entries.drop_first(), k)
    }
}

/// No two entries carry the same key.
pub open spec fn unique_keys(entries: Seq<Entry>) -> bool {
    forall|i: int, j: int|
        #![trigger entries[i], entries[j]]
        0 <= i < j < entries.len() ==> entries[i].key@ != entries[j].key@
}

/// `lookup` finds a value exactly when some entry carries the key.
pub proof fn lemma_lookup_has_key(entries: Seq<Entry>, k: Seq<char>)
    ensures
        lookup(entries, k) is Some <==> has_key(entries, k),
    decreases entries.len(),
{
    if entries.len() > 0 {
        lemma_lookup_has_key(entries.drop_first(), k);
        let rest = entries.drop_first();
        if entries[0].key@ == k {
        } else {
            if has_key(entries, k) {
                let i = choose|i: int|
                    #![trigger entries[i]]
                    0 <= i < entries.len() && entries[i].key@ == k;
                assert(rest[i - 1] == entries[i]);
            }
            if has_key(rest, k) {
                let i = choose|i: int| #![trigger rest[i]] 0 <= i < rest.len() && rest[i].key@ == k;
                assert(entries[i + 1] == rest[i]);
            }
        }
    }
}

/// Replacing the entry at the first position that carries `e`'s key changes
/// the lookup of that key alone.
proof fn lemma_lookup_update(s: Seq<Entry>, i: int, e: Entry, k: Seq<char>)
    requires
        0 <= i < s.len(),
        s[i].key@ == e.key@,
        forall|j: int| #![trigger s[j]] 0 <= j < i ==> s[j].key@ != e.key@,
    ensures
        lookup(s.update(i, e), k) == (if k == e.key@ {
            Some(e.value@)
        } else {
            lookup(s, k)
        }),
    decreases s.len(),
{
    let t = s.update(i, e);
    if i == 0 {
        assert(t[0] == e);
        if k != e.key@ {
            assert(s[0].key@ == e.key@);
            assert(t.drop_first() =~= s.drop_first());
        }
    } else {
        assert(t[0] == s[0]);
        assert(s[0].key@ != e.key@);
        if s[0].key@ == k {
        } else {
            assert(t.drop_first() =~= s.drop_first().update(i - 1, e));
            assert(forall|j: int|
                #![trigger s.drop_first()[j]]
                0 <= j < i - 1 ==> s.drop_first()[j] == s[j + 1]);
            lemma_lookup_update(s.drop_first(), i - 1, e, k);
        }
    }
}

/// Appending an entry leaves every present key's lookup unchanged and gives
/// the appended key its value when it was absent.
proof fn lemma_lookup_push(s: Seq<Entry>, e: Entry, k: Seq<char>)
    ensures
        lookup(s.push(e), k) == (if lookup(s, k) is Some {
            lookup(s, k)
        } else if e.key@ == k {
            Some(e.value@)
        } else {
            None
        }),
    decreases s.len(),
{
    let t = s.push(e);
    if s.len() == 0 {
        assert(t[0] == e);
        assert(t.drop_first() =~= Seq::<Entry>::empty());
        if e.key@ == k {
            assert(lookup(t, k) == Some(e.value@));
        } else {
            assert(lookup(t, k) == lookup(t.drop_first(), k));
            assert(lookup(t.drop_first(), k) is None);
        }
        assert(lookup(s, k) is None);
    } else {
        assert(t[0] == s[0]);
        assert(t.drop_first() =~= s.drop_first().push(e));
        lemma_lookup_push(s.drop_first(), e, k);
        if s[0].key@ == k {
            assert(lookup(t, k) == Some(s[0].value@));
            assert(lookup(s, k) == Some(s[0].value@));
        } else {
            assert(lookup(t, k) == lookup(s.drop_first().push(e), k));
            assert(lookup(s, k) == lookup(s.drop_first(), k));
        }
    }
}

/// What inserting `key -> value` with replacement does to an association
/// list: the key now looks up to the value, every other key is untouched,
/// uniqueness of keys is preserved, the length grows exactly when the key was
/// absent, and existing entries keep their positions and keys.
pub open spec fn inserted(
    pre: Seq<Entry>,
    key: Seq<char>,
    value: Seq<char>,
    post: Seq<Entry>,
) -> bool {
    &&& lookup(post, key) == Some(value)
    &&& (forall|k: Seq<char>|
        #![trigger lookup(post, k)]
        k != key ==> lookup(post, k) == lookup(pre, k))
    &&& (unique_keys(pre) ==> unique_keys(post))
    &&& post.len() == pre.len() + (if has_key(pre, key) {
        0int
    } else {
        1int
    })
    &&& (forall|i: int| #![trigger post[i]] 0 <= i < pre.len() ==> post[i].key@ == pre[i].key@)
}

/// Insert with replacement: the first entry with this key gets the new value
/// in place; when the key is absent, a new entry is appended.
pub fn insert_or_replace(entries: &mut Vec<Entry>, key: String, value: String)
    ensures
        inserted(old(entries)@, key@, value@, final(entries)@),
{
    let ghost orig = entries@;
    let ghost gkey = key@;
    let ghost gvalue = value@;
    let mut i: usize = 0;
    while i < entries.len()
        invariant
            i <= orig.len(),
            entries@ == orig,
            orig == old(entries)@,
            key@ == gkey,
            value@ == gvalue,
            forall|j: int| #![trigger orig[j]] 0 <= j < i ==> orig[j].key@ != key@,
        decreases orig.len() - i,
    {
        if str_eq(entries[i].key.as_str(), key.as_str()) {
            let e = Entry { key, value };
            let ghost ev = e;
            proof {
                assert(orig[i as int].key@ == ev.key@);
            }
            entries[i] = e;
            proof {
                assert(entries@ == orig.update(i as int, ev));
                assert forall|k: Seq<char>|
                    lookup(entries@, k) == (if k == ev.key@ {
                        Some(ev.value@)
                    } else {
                        lookup(orig, k)
                    }) by {
                    lemma_lookup_update(orig, i as int, ev, k);
                }
                assert(has_key(orig, ev.key@));
                assert(forall|j: int|
                    #![trigger entries@[j]]
                    0 <= j < orig.len() ==> entries@[j].key@ == orig[j].key@);
                if unique_keys(orig) {
                    assert forall|a: int, b: int|
                        #![trigger entries@[a], entries@[b]]
                        0 <= a < b < entries@.len() implies entries@[a].key@
                        != entries@[b].key@ by {
                        assert(orig[a].key@ != orig[b].key@);
                    }
                }
                assert(inserted(orig, gkey, gvalue, entries@));
            }
            return;
        }
        i += 1;
    }
    let e = Entry { key, value };
    let ghost ev = e;
    entries.push(e);
    proof {
        assert(entries@ == orig.push(ev));
        assert forall|k: Seq<char>|
            lookup(orig.push(ev), k) == (if lookup(orig, k) is Some {
                lookup(orig, k)
            } else if ev.key@ == k {
                Some(ev.value@)
            } else {
                None
            }) by {
            lemma_lookup_push(orig, ev, k);
        }
        assert(!has_key(orig, ev.key@));
        lemma_lookup_has_key(orig, ev.key@);
        assert(forall|j: int| #![trigger orig[j]] 0 <= j < orig.len() ==> entries@[j] == orig[j]);
        if unique_keys(orig) {
            assert forall|a: int, b: int|
                #![trigger entries@[a], entries@[b]]
                0 <= a < b < entries@.len() implies entries@[a].key@ != entries@[b].key@ by {
                if b < orig.len() {
                    assert(entries@[a] == orig[a] && entries@[b] == orig[b]);
                } else {
                    assert(entries@[a] == orig[a] && entries@[b] == ev);
                }
            }
        }
        assert(inserted(orig, gkey, gvalue, entries@));
    }
}

/// A reference to the value of the first entry with this key, if any.
pub fn find_entry<'a>(entries: &'a Vec<Entry>, key: &str) -> (r: Option<&'a String>)
    ensures
        match r {
            Some(v) => lookup(entries@, key@) == Some(v@),
            None => lookup(entries@, key@) is None,
        },
{
    let mut i: usize = 0;
    proof {
        assert(entries@.skip(0) =~= entries@);
    }
    while i < entries.len()
        invariant
            i <= entries@.len(),
            lookup(entries@, key@) == lookup(entries@.skip(i as int), key@),
        decreases entries@.len() - i,
    {
        let e = &entries[i];
        proof {
            assert(entries@.skip(i as int)[0] == entries@[i as int]);
        }
        if str_eq(e.key.as_str(), key) {
            return Some(&e.value);
        }
        proof {
            assert(entries@.skip(i as int).drop_first() =~= entries@.skip(i as int + 1));
        }
        i += 1;
    }
    proof {
        assert(entries@.skip(i as int) =~= Seq::<Entry>::empty());
    }
    None
}

} // verus!
