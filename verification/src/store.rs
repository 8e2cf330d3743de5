//! Key-value stores backing the engine's state.
//!
//! Each store is an association list with first-match lookup; `set`
//! replaces the first matching entry or appends a fresh one, so lookup
//! behaves exactly like a map. Contracts are stated over `spec_get`.

use vstd::prelude::*;

verus! {

/// Byte-for-byte equality of two fixed-width keys.
fn key_eq<const N: usize>(a: &[u8; N], b: &[u8; N]) -> (r: bool)
    ensures
        r == (a@ == b@),
{
    broadcast use vstd::array::group_array_axioms;

    let mut i: usize = 0;
    while i < N
        invariant
            0 <= i <= N,
            forall|j: int| 0 <= j < i ==> a@[j] == b@[j],
        decreases N - i,
    {
        if a[i] != b[i] {
            return false;
        }
        i += 1;
    }
    proof {
        assert(a@ =~= b@);
    }
    true
}

/// A store over fixed-width byte keys holding copyable values.
pub struct KvMap<const N: usize, V> {
    pairs: Vec<([u8; N], V)>,
}

impl<const N: usize, V: Copy> KvMap<N, V> {
    /// First-match association over a sequence of entries.
    pub closed spec fn assoc(s: Seq<([u8; N], V)>, k: Seq<u8>) -> Option<V>
        decreases s.len(),
    {
        if s.len() == 0 {
            None
        } else if s[0].0@ == k {
            Some(s[0].1)
        } else {
            Self::assoc(s.drop_first(), k)
        }
    }

    /// The value this store associates with key `k`, if any.
    pub closed spec fn spec_get(self, k: Seq<u8>) -> Option<V> {
        Self::assoc(self.pairs@, k)
    }

    /// Whether key `k` is present.
    pub open spec fn contains(self, k: Seq<u8>) -> bool {
        self.spec_get(k) is Some
    }

    proof fn lemma_assoc_skip(s: Seq<([u8; N], V)>, i: int, k: Seq<u8>)
        requires
            0 <= i <= s.len(),
            forall|j: int| 0 <= j < i ==> s[j].0@ != k,
        ensures
            Self::assoc(s, k) == Self::assoc(s.skip(i), k),
        decreases i,
    {
        if i == 0 {
            assert(s.skip(0) =~= s);
        } else {
            assert(s[0].0@ != k);
            assert(s.drop_first().skip(i - 1) =~= s.skip(i));
            Self::lemma_assoc_skip(s.drop_first(), i - 1, k);
        }
    }

    proof fn lemma_assoc_update(s: Seq<([u8; N], V)>, i: int, k: [u8; N], v: V)
        requires
            0 <= i < s.len(),
            s[i].0@ == k@,
            forall|j: int| 0 <= j < i ==> s[j].0@ != k@,
        ensures
            Self::assoc(s.update(i, (k, v)), k@) == Some(v),
            forall|k2: Seq<u8>|
                k2 != k@ ==> Self::assoc(s.update(i, (k, v)), k2) == Self::assoc(s, k2),
        decreases i,
    {
        let t = s.update(i, (k, v));
        if i == 0 {
            assert(t[0] == (k, v));
            assert(t.drop_first() =~= s.drop_first());
            assert forall|k2: Seq<u8>| k2 != k@ implies Self::assoc(t, k2) == Self::assoc(
                s,
                k2,
            ) by {
                if s[0].0@ == k2 {
                } else {
                }
            }
        } else {
            assert(t[0] == s[0]);
            assert(t.drop_first() =~= s.drop_first().update(i - 1, (k, v)));
            Self::lemma_assoc_update(s.drop_first(), i - 1, k, v);
            assert forall|k2: Seq<u8>| k2 != k@ implies Self::assoc(t, k2) == Self::assoc(
                s,
                k2,
            ) by {
                if s[0].0@ != k2 {
                    assert(Self::assoc(s.drop_first().update(i - 1, (k, v)), k2) == Self::assoc(
                        s.drop_first(),
                        k2,
                    ));
                    assert(Self::assoc(t.drop_first(), k2) == Self::assoc(
                        s.drop_first().update(i - 1, (k, v)),
                        k2,
                    ));
                }
            }
        }
    }

    proof fn lemma_assoc_push(s: Seq<([u8; N], V)>, k: [u8; N], v: V)
        requires
            forall|j: int| 0 <= j < s.len() ==> s[j].0@ != k@,
        ensures
            Self::assoc(s.push((k, v)), k@) == Some(v),
            forall|k2: Seq<u8>|
                k2 != k@ ==> Self::assoc(s.push((k, v)), k2) == Self::assoc(s, k2),
        decreases s.len(),
    {
        let t = s.push((k, v));
        if s.len() == 0 {
            assert(t[0] == (k, v));
            assert(t.drop_first() =~= Seq::<([u8; N], V)>::empty());
            assert forall|k2: Seq<u8>| k2 != k@ implies Self::assoc(t, k2) == Self::assoc(
                s,
                k2,
            ) by {
                assert(Self::assoc(t.drop_first(), k2) is None);
            }
        } else {
            assert(t[0] == s[0]);
            assert(t.drop_first() =~= s.drop_first().push((k, v)));
            Self::lemma_assoc_push(s.drop_first(), k, v);
            assert forall|k2: Seq<u8>| k2 != k@ implies Self::assoc(t, k2) == Self::assoc(
                s,
                k2,
            ) by {
                if s[0].0@ != k2 {
                    assert(Self::assoc(s.drop_first().push((k, v)), k2) == Self::assoc(
                        s.drop_first(),
                        k2,
                    ));
                    assert(Self::assoc(t.drop_first(), k2) == Self::assoc(
                        s.drop_first().push((k, v)),
                        k2,
                    ));
                }
            }
        }
    }

    /// An empty store.
    pub fn new() -> (r: Self)
        ensures
            forall|k: Seq<u8>| r.spec_get(k) is None,
    {
        KvMap { pairs: Vec::new() }
    }

    /// Look the key up.
    pub fn get(&self, k: &[u8; N]) -> (r: Option<V>)
        ensures
            r == self.spec_get(k@),
    {
        let n = self.pairs.len();
        let mut i: usize = 0;
        while i < n
            invariant
                0 <= i <= n,
                n == self.pairs@.len(),
                forall|j: int| 0 <= j < i ==> self.pairs@[j].0@ != k@,
            decreases n - i,
        {
            if key_eq(&self.pairs[i].0, k) {
                proof {
                    Self::lemma_assoc_skip(self.pairs@, i as int, k@);
                    assert(self.pairs@.skip(i as int)[0] == self.pairs@[i as int]);
                }
                return Some(self.pairs[i].1);
            }
            i += 1;
        }
        proof {
            Self::lemma_assoc_skip(self.pairs@, n as int, k@);
            assert(self.pairs@.skip(n as int).len() == 0);
        }
        None
    }

    /// Whether the key is present.
    pub fn has(&self, k: &[u8; N]) -> (r: bool)
        ensures
            r == self.contains(k@),
    {
        self.get(k).is_some()
    }

    /// Associate `v` with `k`, replacing any earlier association.
    pub fn set(&mut self, k: [u8; N], v: V)
        ensures
            final(self).spec_get(k@) == Some(v),
            forall|k2: Seq<u8>|
                k2 != k@ ==> final(self).spec_get(k2) == old(self).spec_get(k2),
    {
        let n = self.pairs.len();
        let mut i: usize = 0;
        while i < n
            invariant
                0 <= i <= n,
                n == self.pairs@.len(),
                self.pairs@ == old(self).pairs@,
                forall|j: int| 0 <= j < i ==> self.pairs@[j].0@ != k@,
            decreases n - i,
        {
            if key_eq(&self.pairs[i].0, &k) {
                proof {
                    Self::lemma_assoc_update(self.pairs@, i as int, k, v);
                }
                self.pairs[i] = (k, v);
                return ;
            }
            i += 1;
        }
        proof {
            Self::lemma_assoc_push(self.pairs@, k, v);
        }
        self.pairs.push((k, v));
    }
}

/// Registry of chain names, keyed by numeric chain id.
pub struct ChainNameMap {
    pairs: Vec<(u64, String)>,
}

impl ChainNameMap {
    /// First-match association over a sequence of entries.
    pub closed spec fn assoc(s: Seq<(u64, String)>, k: u64) -> Option<Seq<char>>
        decreases s.len(),
    {
        if s.len() == 0 {
            None
        } else if s[0].0 == k {
            Some(s[0].1@)
        } else {
            Self::assoc(s.drop_first(), k)
        }
    }

    /// The name this registry associates with chain id `k`, if any.
    pub closed spec fn spec_get(self, k: u64) -> Option<Seq<char>> {
        Self::assoc(self.pairs@, k)
    }

    proof fn lemma_assoc_skip(s: Seq<(u64, String)>, i: int, k: u64)
        requires
            0 <= i <= s.len(),
            forall|j: int| 0 <= j < i ==> s[j].0 != k,
        ensures
            Self::assoc(s, k) == Self::assoc(s.skip(i), k),
        decreases i,
    {
        if i == 0 {
            assert(s.skip(0) =~= s);
        } else {
            assert(s.drop_first().skip(i - 1) =~= s.skip(i));
            Self::lemma_assoc_skip(s.drop_first(), i - 1, k);
        }
    }

    proof fn lemma_assoc_update(s: Seq<(u64, String)>, i: int, k: u64, v: String)
        requires
            0 <= i < s.len(),
            s[i].0 == k,
            forall|j: int| 0 <= j < i ==> s[j].0 != k,
        ensures
            Self::assoc(s.update(i, (k, v)), k) == Some(v@),
            forall|k2: u64| k2 != k ==> Self::assoc(s.update(i, (k, v)), k2) == Self::assoc(s, k2),
        decreases i,
    {
        let t = s.update(i, (k, v));
        if i == 0 {
            assert(t[0] == (k, v));
            assert(t.drop_first() =~= s.drop_first());
        } else {
            assert(t[0] == s[0]);
            assert(t.drop_first() =~= s.drop_first().update(i - 1, (k, v)));
            Self::lemma_assoc_update(s.drop_first(), i - 1, k, v);
            assert forall|k2: u64| k2 != k implies Self::assoc(t, k2) == Self::assoc(s, k2) by {
                if s[0].0 != k2 {
                    assert(Self::assoc(s.drop_first().update(i - 1, (k, v)), k2) == Self::assoc(
                        s.drop_first(),
                        k2,
                    ));
                    assert(Self::assoc(t.drop_first(), k2) == Self::assoc(
                        s.drop_first().update(i - 1, (k, v)),
                        k2,
                    ));
                }
            }
        }
    }

    proof fn lemma_assoc_push(s: Seq<(u64, String)>, k: u64, v: String)
        requires
            forall|j: int| 0 <= j < s.len() ==> s[j].0 != k,
        ensures
            Self::assoc(s.push((k, v)), k) == Some(v@),
            forall|k2: u64| k2 != k ==> Self::assoc(s.push((k, v)), k2) == Self::assoc(s, k2),
        decreases s.len(),
    {
        let t = s.push((k, v));
        if s.len() == 0 {
            assert(t[0] == (k, v));
            assert(t.drop_first() =~= Seq::<(u64, String)>::empty());
            assert forall|k2: u64| k2 != k implies Self::assoc(t, k2) == Self::assoc(s, k2) by {
                assert(Self::assoc(t.drop_first(), k2) is None);
            }
        } else {
            assert(t[0] == s[0]);
            assert(t.drop_first() =~= s.drop_first().push((k, v)));
            Self::lemma_assoc_push(s.drop_first(), k, v);
            assert forall|k2: u64| k2 != k implies Self::assoc(t, k2) == Self::assoc(s, k2) by {
                if s[0].0 != k2 {
                    assert(Self::assoc(s.drop_first().push((k, v)), k2) == Self::assoc(
                        s.drop_first(),
                        k2,
                    ));
                    assert(Self::assoc(t.drop_first(), k2) == Self::assoc(
                        s.drop_first().push((k, v)),
                        k2,
                    ));
                }
            }
        }
    }

    /// An empty registry.
    pub fn new() -> (r: Self)
        ensures
            forall|k: u64| r.spec_get(k) is None,
    {
        ChainNameMap { pairs: Vec::new() }
    }

    /// Look the chain id up.
    pub fn get(&self, k: u64) -> (r: Option<String>)
        ensures
            match r {
                Some(name) => self.spec_get(k) == Some(name@),
                None => self.spec_get(k) is None,
            },
    {
        let n = self.pairs.len();
        let mut i: usize = 0;
        while i < n
            invariant
                0 <= i <= n,
                n == self.pairs@.len(),
                forall|j: int| 0 <= j < i ==> self.pairs@[j].0 != k,
            decreases n - i,
        {
            if self.pairs[i].0 == k {
                proof {
                    Self::lemma_assoc_skip(self.pairs@, i as int, k);
                    assert(self.pairs@.skip(i as int)[0] == self.pairs@[i as int]);
                }
                return Some(self.pairs[i].1.clone());
            }
            i += 1;
        }
        proof {
            Self::lemma_assoc_skip(self.pairs@, n as int, k);
            assert(self.pairs@.skip(n as int).len() == 0);
        }
        None
    }

    /// Register a name for a chain id, replacing any earlier one.
    pub fn set(&mut self, k: u64, v: String)
        ensures
            final(self).spec_get(k) == Some(v@),
            forall|k2: u64| k2 != k ==> final(self).spec_get(k2) == old(self).spec_get(k2),
    {
        let n = self.pairs.len();
        let mut i: usize = 0;
        while i < n
            invariant
                0 <= i <= n,
                n == self.pairs@.len(),
                self.pairs@ == old(self).pairs@,
                forall|j: int| 0 <= j < i ==> self.pairs@[j].0 != k,
            decreases n - i,
        {
            if self.pairs[i].0 == k {
                proof {
                    Self::lemma_assoc_update(self.pairs@, i as int, k, v);
                }
                self.pairs[i] = (k, v);
                return ;
            }
            i += 1;
        }
        proof {
            Self::lemma_assoc_push(self.pairs@, k, v);
        }
        self.pairs.push((k, v));
    }
}

/// Registry of trusted remote contracts, keyed by chain name.
pub struct TrustedMap {
    pairs: Vec<(String, String)>,
}

impl TrustedMap {
    /// First-match association over a sequence of entries.
    pub closed spec fn assoc(s: Seq<(String, String)>, k: Seq<char>) -> Option<Seq<char>>
        decreases s.len(),
    {
        if s.len() == 0 {
            None
        } else if s[0].0@ == k {
            Some(s[0].1@)
        } else {
            Self::assoc(s.drop_first(), k)
        }
    }

    /// The contract this registry associates with chain name `k`, if any.
    pub closed spec fn spec_get(self, k: Seq<char>) -> Option<Seq<char>> {
        Self::assoc(self.pairs@, k)
    }

    proof fn lemma_assoc_skip(s: Seq<(String, String)>, i: int, k: Seq<char>)
        requires
            0 <= i <= s.len(),
            forall|j: int| 0 <= j < i ==> s[j].0@ != k,
        ensures
            Self::assoc(s, k) == Self::assoc(s.skip(i), k),
        decreases i,
    {
        if i == 0 {
            assert(s.skip(0) =~= s);
        } else {
            assert(s.drop_first().skip(i - 1) =~= s.skip(i));
            Self::lemma_assoc_skip(s.drop_first(), i - 1, k);
        }
    }

    proof fn lemma_assoc_update(s: Seq<(String, String)>, i: int, k: String, v: String)
        requires
            0 <= i < s.len(),
            s[i].0@ == k@,
            forall|j: int| 0 <= j < i ==> s[j].0@ != k@,
        ensures
            Self::assoc(s.update(i, (k, v)), k@) == Some(v@),
            forall|k2: Seq<char>|
                k2 != k@ ==> Self::assoc(s.update(i, (k, v)), k2) == Self::assoc(s, k2),
        decreases i,
    {
        let t = s.update(i, (k, v));
        if i == 0 {
            assert(t[0] == (k, v));
            assert(t.drop_first() =~= s.drop_first());
        } else {
            assert(t[0] == s[0]);
            assert(t.drop_first() =~= s.drop_first().update(i - 1, (k, v)));
            Self::lemma_assoc_update(s.drop_first(), i - 1, k, v);
            assert forall|k2: Seq<char>| k2 != k@ implies Self::assoc(t, k2) == Self::assoc(
                s,
                k2,
            ) by {
                if s[0].0@ != k2 {
                    assert(Self::assoc(s.drop_first().update(i - 1, (k, v)), k2) == Self::assoc(
                        s.drop_first(),
                        k2,
                    ));
                    assert(Self::assoc(t.drop_first(), k2) == Self::assoc(
                        s.drop_first().update(i - 1, (k, v)),
                        k2,
                    ));
                }
            }
        }
    }

    proof fn lemma_assoc_push(s: Seq<(String, String)>, k: String, v: String)
        requires
            forall|j: int| 0 <= j < s.len() ==> s[j].0@ != k@,
        ensures
            Self::assoc(s.push((k, v)), k@) == Some(v@),
            forall|k2: Seq<char>|
                k2 != k@ ==> Self::assoc(s.push((k, v)), k2) == Self::assoc(s, k2),
        decreases s.len(),
    {
        let t = s.push((k, v));
        if s.len() == 0 {
            assert(t[0] == (k, v));
            assert(t.drop_first() =~= Seq::<(String, String)>::empty());
            assert forall|k2: Seq<char>| k2 != k@ implies Self::assoc(t, k2) == Self::assoc(
                s,
                k2,
            ) by {
                assert(Self::assoc(t.drop_first(), k2) is None);
            }
        } else {
            assert(t[0] == s[0]);
            assert(t.drop_first() =~= s.drop_first().push((k, v)));
            Self::lemma_assoc_push(s.drop_first(), k, v);
            assert forall|k2: Seq<char>| k2 != k@ implies Self::assoc(t, k2) == Self::assoc(
                s,
                k2,
            ) by {
                if s[0].0@ != k2 {
                    assert(Self::assoc(s.drop_first().push((k, v)), k2) == Self::assoc(
                        s.drop_first(),
                        k2,
                    ));
                    assert(Self::assoc(t.drop_first(), k2) == Self::assoc(
                        s.drop_first().push((k, v)),
                        k2,
                    ));
                }
            }
        }
    }

    /// An empty registry.
    pub fn new() -> (r: Self)
        ensures
            forall|k: Seq<char>| r.spec_get(k) is None,
    {
        TrustedMap { pairs: Vec::new() }
    }

    /// Look the chain name up.
    pub fn get(&self, k: &String) -> (r: Option<String>)
        ensures
            match r {
                Some(contract) => self.spec_get(k@) == Some(contract@),
                None => self.spec_get(k@) is None,
            },
    {
        let n = self.pairs.len();
        let mut i: usize = 0;
        while i < n
            invariant
                0 <= i <= n,
                n == self.pairs@.len(),
                forall|j: int| 0 <= j < i ==> self.pairs@[j].0@ != k@,
            decreases n - i,
        {
            if self.pairs[i].0 == *k {
                proof {
                    Self::lemma_assoc_skip(self.pairs@, i as int, k@);
                    assert(self.pairs@.skip(i as int)[0] == self.pairs@[i as int]);
                }
                return Some(self.pairs[i].1.clone());
            }
            i += 1;
        }
        proof {
            Self::lemma_assoc_skip(self.pairs@, n as int, k@);
            assert(self.pairs@.skip(n as int).len() == 0);
        }
        None
    }

    /// Register a trusted contract for a chain name, replacing any earlier
    /// one.
    pub fn set(&mut self, k: String, v: String)
        ensures
            final(self).spec_get(k@) == Some(v@),
            forall|k2: Seq<char>|
                k2 != k@ ==> final(self).spec_get(k2) == old(self).spec_get(k2),
    {
        let n = self.pairs.len();
        let mut i: usize = 0;
        while i < n
            invariant
                0 <= i <= n,
                n == self.pairs@.len(),
                self.pairs@ == old(self).pairs@,
                forall|j: int| 0 <= j < i ==> self.pairs@[j].0@ != k@,
            decreases n - i,
        {
            if self.pairs[i].0 == k {
                proof {
                    Self::lemma_assoc_update(self.pairs@, i as int, k, v);
                }
                self.pairs[i] = (k, v);
                return ;
            }
            i += 1;
        }
        proof {
            Self::lemma_assoc_push(self.pairs@, k, v);
        }
        self.pairs.push((k, v));
    }
}

} // verus!
