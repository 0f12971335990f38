//! A mapping keyed by strings, with each key held at most once, that keeps
//! its entries in the order their keys were first inserted.

use vstd::prelude::*;

verus! {

/// Whether no two entries of `s` have the same key.
pub open spec fn keys_unique<T>(s: Seq<(String, T)>) -> bool {
    forall|i: int, j: int|
        0 <= i < s.len() && 0 <= j < s.len() && i != j ==> (#[trigger] s[i]).0@ != (#[trigger] s[j]).0@
}

/// Whether some entry of `s` has key `k`.
pub open spec fn has_key<T>(s: Seq<(String, T)>, k: Seq<char>) -> bool {
    exists|i: int| 0 <= i < s.len() && (#[trigger] s[i]).0@ == k
}

/// `s` with `k` bound to `v`: the entry with that key is replaced in place,
/// or a new entry goes at the end.
pub open spec fn inserted<T>(s: Seq<(String, T)>, k: String, v: T) -> Seq<(String, T)> {
    if has_key(s, k@) {
        let i = choose|i: int| 0 <= i < s.len() && (#[trigger] s[i]).0@ == k@;
        s.update(i, (k, v))
    } else {
        s.push((k, v))
    }
}

/// A mapping from strings to `T`.
#[derive(Debug, PartialEq)]
pub struct StringMap<T> {
    entries: Vec<(String, T)>,
}

impl<T> View for StringMap<T> {
    type V = Seq<(String, T)>;

    /// The entries, in the order their keys were first inserted.
    closed spec fn view(&self) -> Seq<(String, T)> {
        self.entries@
    }
}

impl<T> StringMap<T> {
    #[verifier::type_invariant]
    spec fn unique(self) -> bool {
        keys_unique(self.entries@)
    }

    /// The empty mapping.
    pub fn new() -> (r: StringMap<T>)
        ensures
            r@ == Seq::<(String, T)>::empty(),
    {
        StringMap { entries: Vec::new() }
    }

    /// Binds `key` to `value`, replacing the value it had.
    pub fn insert(&mut self, key: String, value: T)
        ensures
            final(self)@ == inserted(old(self)@, key, value),
            keys_unique(final(self)@),
    {
        proof { use_type_invariant(&*self); }
        let mut entries: Vec<(String, T)> = Vec::new();
        std::mem::swap(&mut entries, &mut self.entries);
        let ghost s = entries@;
        assert(s == old(self)@);
        let mut i: usize = 0;
        while i < entries.len()
            invariant
                entries@ == s,
                s == old(self)@,
                keys_unique(s),
                i <= s.len(),
                forall|j: int| 0 <= j < i ==> (#[trigger] s[j]).0@ != key@,
            decreases entries.len() - i,
        {
            if entries[i].0 == key {
                assert(has_key(s, key@));
                let ghost c = choose|c: int| 0 <= c < s.len() && (#[trigger] s[c]).0@ == key@;
                assert(c == i);
                let ghost kv = (key, value);
                entries.set(i, (key, value));
                assert(entries@ == s.update(c, kv));
                assert(inserted(s, kv.0, kv.1) == s.update(c, kv));
                assert(keys_unique(entries@)) by {
                    assert forall|a: int, b: int|
                        0 <= a < entries@.len() && 0 <= b < entries@.len() && a != b implies
                        (#[trigger] entries@[a]).0@ != (#[trigger] entries@[b]).0@ by {
                        assert(s[a].0@ != s[b].0@);
                    }
                }
                self.entries = entries;
                return;
            }
            i = i + 1;
        }
        assert(!has_key(s, key@));
        entries.push((key, value));
        assert(keys_unique(entries@)) by {
            assert forall|a: int, b: int|
                0 <= a < entries@.len() && 0 <= b < entries@.len() && a != b implies
                (#[trigger] entries@[a]).0@ != (#[trigger] entries@[b]).0@ by {
                if a < s.len() && b < s.len() {
                    assert(s[a].0@ != s[b].0@);
                } else if a < s.len() {
                    assert(s[a].0@ != key@);
                } else {
                    assert(s[b].0@ != key@);
                }
            }
        }
        self.entries = entries;
    }

    /// The value bound to `key`, if any.
    pub fn get(&self, key: &str) -> (r: Option<&T>)
        ensures
            match r {
                Some(x) => exists|i: int| 0 <= i < self@.len() && (#[trigger] self@[i]).0@ == key@ && self@[i].1 == *x,
                None => !has_key(self@, key@),
            },
    {
        let k = key.to_owned();
        let mut i: usize = 0;
        while i < self.entries.len()
            invariant
                i <= self.entries@.len(),
                k@ == key@,
                forall|j: int| 0 <= j < i ==> (#[trigger] self.entries@[j]).0@ != key@,
            decreases self.entries.len() - i,
        {
            if self.entries[i].0 == k {
                assert(self@[i as int].0@ == key@);
                return Some(&self.entries[i].1);
            }
            i = i + 1;
        }
        None
    }

    /// The number of entries.
    pub fn len(&self) -> (r: usize)
        ensures
            r == self@.len(),
    {
        self.entries.len()
    }

    /// The entries, in the order their keys were first inserted; each key
    /// occurs once.
    pub fn entries(&self) -> (r: &Vec<(String, T)>)
        ensures
            r@ == self@,
            keys_unique(r@),
    {
        proof { use_type_invariant(self); }
        &self.entries
    }
}

} // verus!
