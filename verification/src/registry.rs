//! A small keyed registry. It keeps at most one entry per key (later
//! registrations replace the value, as a hash map would) and remembers the
//! order of first registration.
//!
//! Its contracts speak through `eq_spec`, the specification of `==` on the
//! key type, and so say something exactly where that specification is
//! known to be obeyed.

use vstd::prelude::*;
use vstd::std_specs::cmp::PartialEqSpec;
use vstd::std_specs::convert::IntoSpec;
use core::hash::Hash;

verus! {

/// Holds whether two keys compare equal under the key type's `==`.
pub open spec fn spec_key_eq<K: PartialEq>(a: K, b: K) -> bool {
    a.eq_spec(&b)
}

/// What registering `k -> v` over `pre` leaves behind: the first entry
/// whose key equals `k` keeps its stored key and takes the new value, and
/// where no entry matches, the pair is appended.
pub open spec fn spec_registered<K: PartialEq, V>(
    pre: Seq<(K, V)>,
    post: Seq<(K, V)>,
    k: K,
    v: V,
) -> bool {
    if exists|i: int| 0 <= i < pre.len() && spec_key_eq((#[trigger] pre[i]).0, k) {
        exists|i: int| 0 <= i < pre.len() && spec_key_eq((#[trigger] pre[i]).0, k) && post
            == pre.update(i, (pre[i].0, v))
    } else {
        post == pre.push((k, v))
    }
}

/// The registry: an association list with pairwise-distinct keys.
pub struct GenRegistry<K: Hash + Eq + Sync, V> {
    register: Vec<(K, V)>,
}

impl<K: Hash + Eq + Sync, V> View for GenRegistry<K, V> {
    type V = Seq<(K, V)>;

    closed spec fn view(&self) -> Seq<(K, V)> {
        self.register@
    }
}

impl<K: Hash + Eq + Sync, V> GenRegistry<K, V> {
    /// No two entries hold keys that compare equal, wherever `==` on the
    /// key type obeys its specification.
    pub open spec fn wf(&self) -> bool {
        K::obeys_eq_spec() ==> forall|i: int, j: int|
            0 <= i < j < self@.len() ==> !spec_key_eq((#[trigger] self@[i]).0, (#[trigger] self@[j]).0)
    }

    /// Whether some entry's key compares equal to `k`.
    pub open spec fn spec_has_key(&self, k: K) -> bool {
        exists|i: int| 0 <= i < self@.len() && spec_key_eq((#[trigger] self@[i]).0, k)
    }

    pub fn new() -> (r: GenRegistry<K, V>)
        ensures
            r@.len() == 0,
            r.wf(),
    {
        GenRegistry { register: Vec::new() }
    }

    /// Registers `k -> v`, replacing the value of an already-registered
    /// equal key.
    pub fn register(&mut self, k: K, v: V)
        requires
            old(self).wf(),
        ensures
            final(self).wf(),
            K::obeys_eq_spec() ==> spec_registered(old(self)@, final(self)@, k, v),
    {
        let n = self.register.len();
        let mut i: usize = 0;
        while i < n
            invariant
                old(self).wf(),
                *self == *old(self),
                n == old(self)@.len(),
                i <= n,
                K::obeys_eq_spec() ==> forall|j: int|
                    0 <= j < i ==> !spec_key_eq((#[trigger] old(self)@[j]).0, k),
            decreases n - i,
        {
            if self.register[i].0 == k {
                let (stored_key, _) = self.register.remove(i);
                self.register.insert(i, (stored_key, v));
                proof {
                    if K::obeys_eq_spec() {
                        assert(spec_key_eq(old(self)@[i as int].0, k));
                        assert(self@ =~= old(self)@.update(i as int, (old(self)@[i as int].0, v)));
                    }
                }
                return ;
            }
            i = i + 1;
        }
        self.register.push((k, v));
        proof {
            if K::obeys_eq_spec() {
                assert(forall|j: int|
                    0 <= j < old(self)@.len() ==> !spec_key_eq((#[trigger] old(self)@[j]).0, k));
            }
        }
    }

    /// Removes the entry whose key compares equal to `k`, if one is
    /// registered.
    pub fn unregister(&mut self, k: K)
        requires
            old(self).wf(),
        ensures
            final(self).wf(),
            K::obeys_eq_spec() ==> {
                if old(self).spec_has_key(k) {
                    exists|i: int| 0 <= i < old(self)@.len() && spec_key_eq(
                        (#[trigger] old(self)@[i]).0,
                        k,
                    ) && final(self)@ == old(self)@.remove(i)
                } else {
                    final(self)@ == old(self)@
                }
            },
    {
        let n = self.register.len();
        let mut i: usize = 0;
        while i < n
            invariant
                old(self).wf(),
                *self == *old(self),
                n == old(self)@.len(),
                i <= n,
                K::obeys_eq_spec() ==> forall|j: int|
                    0 <= j < i ==> !spec_key_eq((#[trigger] old(self)@[j]).0, k),
            decreases n - i,
        {
            if self.register[i].0 == k {
                self.register.remove(i);
                proof {
                    if K::obeys_eq_spec() {
                        assert(spec_key_eq(old(self)@[i as int].0, k));
                        assert forall|a: int, b: int|
                            0 <= a < b < self@.len() implies !spec_key_eq(
                            (self@[a]).0,
                            (self@[b]).0,
                        ) by {
                            let oa: int = if a < i as int { a } else { a + 1 };
                            let ob: int = if b < i as int { b } else { b + 1 };
                            assert(self@[a] == old(self)@[oa]);
                            assert(self@[b] == old(self)@[ob]);
                        }
                    }
                }
                return ;
            }
            i = i + 1;
        }
    }

    /// Looks up the value registered under a key equal to `k`.
    pub fn get_by_key(&self, k: K) -> (r: Option<&V>)
        ensures
            K::obeys_eq_spec() ==> match r {
                Some(v) => exists|i: int| 0 <= i < self@.len() && spec_key_eq(
                    (#[trigger] self@[i]).0,
                    k,
                ) && self@[i].1 == *v,
                None => !self.spec_has_key(k),
            },
    {
        let n = self.register.len();
        let mut i: usize = 0;
        while i < n
            invariant
                n == self@.len(),
                i <= n,
                K::obeys_eq_spec() ==> forall|j: int|
                    0 <= j < i ==> !spec_key_eq((#[trigger] self@[j]).0, k),
            decreases n - i,
        {
            if self.register[i].0 == k {
                proof {
                    if K::obeys_eq_spec() {
                        assert(spec_key_eq(self@[i as int].0, k));
                    }
                }
                return Some(&self.register[i].1);
            }
            i = i + 1;
        }
        None
    }

    /// Every registered key, in registration order.
    pub fn registered_keys(&self) -> (r: Vec<&K>)
        ensures
            r@.len() == self@.len(),
            forall|i: int| 0 <= i < r@.len() ==> *(#[trigger] r@[i]) == self@[i].0,
    {
        let n = self.register.len();
        let mut keys: Vec<&K> = Vec::new();
        let mut i: usize = 0;
        while i < n
            invariant
                n == self.register@.len(),
                i <= n,
                keys@.len() == i,
                forall|j: int| 0 <= j < i ==> *(#[trigger] keys@[j]) == self.register@[j].0,
            decreases n - i,
        {
            keys.push(&self.register[i].0);
            i = i + 1;
        }
        keys
    }

    /// Every entry, in registration order.
    pub fn entries(&self) -> (r: Vec<(&K, &V)>)
        ensures
            r@.len() == self@.len(),
            forall|i: int|
                0 <= i < r@.len() ==> *(#[trigger] r@[i]).0 == self@[i].0 && *r@[i].1 == self@[i].1,
    {
        let n = self.register.len();
        let mut pairs: Vec<(&K, &V)> = Vec::new();
        let mut i: usize = 0;
        while i < n
            invariant
                n == self.register@.len(),
                i <= n,
                pairs@.len() == i,
                forall|j: int|
                    0 <= j < i ==> *(#[trigger] pairs@[j]).0 == self.register@[j].0 && *pairs@[j].1
                        == self.register@[j].1,
            decreases n - i,
        {
            pairs.push((&self.register[i].0, &self.register[i].1));
            i = i + 1;
        }
        pairs
    }

    /// Registers `k`, converting the value into the stored type first.
    pub fn register_into<L: Into<V>>(&mut self, k: K, v: L)
        requires
            old(self).wf(),
        ensures
            final(self).wf(),
            K::obeys_eq_spec() && L::obeys_into_spec() ==> spec_registered(
                old(self)@,
                final(self)@,
                k,
                v.into_spec(),
            ),
    {
        let converted: V = v.into();
        self.register(k, converted);
    }
}

} // verus!
