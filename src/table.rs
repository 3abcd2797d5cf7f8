//! A small association table with unique keys, viewed as a `Map`.

use vstd::prelude::*;

verus! {

/// A key that can be compared and copied with the meaning given by its view.
pub trait TableKey: View + Sized {
    fn same_key(&self, other: &Self) -> (r: bool)
        ensures
            r == (self@ == other@),
    ;

    fn copy_key(&self) -> (r: Self)
        ensures
            r@ == self@,
    ;
}

impl TableKey for String {
    fn same_key(&self, other: &Self) -> (r: bool) {
        self.eq(other)
    }

    fn copy_key(&self) -> (r: Self) {
        self.clone()
    }
}

/// Byte-wise equality of two byte strings.
pub fn same_bytes(a: &Vec<u8>, b: &Vec<u8>) -> (r: bool)
    ensures
        r == (a@ == b@),
{
    if a.len() != b.len() {
        return false;
    }
    let n = a.len();
    let mut i: usize = 0;
    while i < n
        invariant
            n == a@.len(),
            n == b@.len(),
            i <= n,
            forall|j: int| 0 <= j < i ==> a@[j] == b@[j],
        decreases n - i,
    {
        if a[i] != b[i] {
            return false;
        }
        i = i + 1;
    }
    assert(a@ =~= b@);
    true
}

impl TableKey for Vec<u8> {
    fn same_key(&self, other: &Self) -> (r: bool) {
        same_bytes(self, other)
    }

    fn copy_key(&self) -> (r: Self) {
        let r = self.clone();
        assert(r@ =~= self@);
        r
    }
}

impl TableKey for (String, String) {
    fn same_key(&self, other: &Self) -> (r: bool) {
        self.0.eq(&other.0) && self.1.eq(&other.1)
    }

    fn copy_key(&self) -> (r: Self) {
        (self.0.clone(), self.1.clone())
    }
}

/// A value with a field-wise merge and an empty element.
pub trait Mergeable: View + Sized {
    /// The value obtained by merging `b` into `a`.
    spec fn merged(a: Self::V, b: Self::V) -> Self::V;

    /// The view of a freshly created, empty value.
    spec fn blank() -> Self::V;

    fn empty() -> (r: Self)
        ensures
            r@ == Self::blank(),
    ;

    fn merge_from(&mut self, other: &Self)
        ensures
            final(self)@ == Self::merged(old(self)@, other@),
    ;

    fn duplicate(&self) -> (r: Self)
        ensures
            r@ == self@,
    ;
}

/// The value stored under `k` in `m`, or the empty value when there is none.
pub open spec fn value_or_blank<K, V: Mergeable>(m: Map<K, V::V>, k: K) -> V::V {
    if m.contains_key(k) {
        m[k]
    } else {
        V::blank()
    }
}

/// Key-wise merge of `b` into `a`: keys of `b` are merged into the value held
/// by `a` (or into the empty value), keys only in `a` are kept.
pub open spec fn merge_maps<K, V: Mergeable>(a: Map<K, V::V>, b: Map<K, V::V>) -> Map<K, V::V> {
    Map::new(
        |k: K| a.contains_key(k) || b.contains_key(k),
        |k: K|
            if b.contains_key(k) {
                V::merged(value_or_blank::<K, V>(a, k), b[k])
            } else {
                a[k]
            },
    )
}

/// `m` with `v` merged into the value stored under `k`.
pub open spec fn merge_entry<K, V: Mergeable>(m: Map<K, V::V>, k: K, v: V::V) -> Map<K, V::V> {
    m.insert(k, V::merged(value_or_blank::<K, V>(m, k), v))
}

pub open spec fn keys_unique<K: View, V>(s: Seq<(K, V)>) -> bool {
    forall|i: int, j: int| 0 <= i < j < s.len() ==> s[i].0@ != s[j].0@
}

pub open spec fn has_key_at<K: View, V>(s: Seq<(K, V)>, k: K::V, i: int) -> bool {
    0 <= i < s.len() && s[i].0@ == k
}

/// The map that a sequence of entries with unique keys stands for.
pub open spec fn entries_view<K: View, V: View>(s: Seq<(K, V)>) -> Map<K::V, V::V> {
    Map::new(
        |k: K::V| exists|i: int| has_key_at(s, k, i),
        |k: K::V| s[choose|i: int| has_key_at(s, k, i)].1@,
    )
}

proof fn lemma_entry<K: View, V: View>(s: Seq<(K, V)>, i: int)
    requires
        keys_unique(s),
        0 <= i < s.len(),
    ensures
        entries_view(s).contains_key(s[i].0@),
        entries_view(s)[s[i].0@] == s[i].1@,
{
    let k = s[i].0@;
    assert(has_key_at(s, k, i));
    let j = choose|j: int| has_key_at(s, k, j);
    assert(has_key_at(s, k, j));
    if j < i {
        assert(s[j].0@ != s[i].0@);
    } else if i < j {
        assert(s[i].0@ != s[j].0@);
    }
}

proof fn lemma_update<K: View, V: View>(s: Seq<(K, V)>, i: int, e: (K, V))
    requires
        keys_unique(s),
        0 <= i < s.len(),
        e.0@ == s[i].0@,
    ensures
        keys_unique(s.update(i, e)),
        entries_view(s.update(i, e)) == entries_view(s).insert(e.0@, e.1@),
{
    let t = s.update(i, e);
    assert(keys_unique(t)) by {
        assert forall|a: int, b: int| 0 <= a < b < t.len() implies t[a].0@ != t[b].0@ by {
            assert(s[a].0@ != s[b].0@);
        }
    }
    let old_m = entries_view(s);
    let new_m = entries_view(t);
    let want = old_m.insert(e.0@, e.1@);
    assert forall|k: K::V| #[trigger] new_m.contains_key(k) == want.contains_key(k) by {
        if new_m.contains_key(k) {
            let j = choose|j: int| has_key_at(t, k, j);
            if j != i {
                assert(has_key_at(s, k, j));
            }
        }
        if old_m.contains_key(k) {
            let j = choose|j: int| has_key_at(s, k, j);
            assert(has_key_at(t, k, j));
        }
        if k == e.0@ {
            assert(has_key_at(t, k, i));
        }
    }
    assert forall|k: K::V| #[trigger] new_m.contains_key(k) implies new_m[k] == want[k] by {
        let j = choose|j: int| has_key_at(t, k, j);
        lemma_entry(t, j);
        if j != i {
            assert(has_key_at(s, k, j));
            lemma_entry(s, j);
        }
    }
    assert(new_m =~= want);
}

proof fn lemma_push<K: View, V: View>(s: Seq<(K, V)>, e: (K, V))
    requires
        keys_unique(s),
        !entries_view(s).contains_key(e.0@),
    ensures
        keys_unique(s.push(e)),
        entries_view(s.push(e)) == entries_view(s).insert(e.0@, e.1@),
{
    let t = s.push(e);
    assert(keys_unique(t)) by {
        assert forall|a: int, b: int| 0 <= a < b < t.len() implies t[a].0@ != t[b].0@ by {
            if b == s.len() {
                assert(has_key_at(s, s[a].0@, a));
            }
        }
    }
    let old_m = entries_view(s);
    let new_m = entries_view(t);
    let want = old_m.insert(e.0@, e.1@);
    assert forall|k: K::V| #[trigger] new_m.contains_key(k) == want.contains_key(k) by {
        if new_m.contains_key(k) {
            let j = choose|j: int| has_key_at(t, k, j);
            if j < s.len() {
                assert(has_key_at(s, k, j));
            }
        }
        if old_m.contains_key(k) {
            let j = choose|j: int| has_key_at(s, k, j);
            assert(has_key_at(t, k, j));
        }
        if k == e.0@ {
            assert(has_key_at(t, k, s.len() as int));
        }
    }
    assert forall|k: K::V| #[trigger] new_m.contains_key(k) implies new_m[k] == want[k] by {
        let j = choose|j: int| has_key_at(t, k, j);
        lemma_entry(t, j);
        if j < s.len() {
            assert(has_key_at(s, k, j));
            lemma_entry(s, j);
        }
    }
    assert(new_m =~= want);
}

proof fn lemma_remove<K: View, V: View>(s: Seq<(K, V)>, i: int)
    requires
        keys_unique(s),
        0 <= i < s.len(),
    ensures
        keys_unique(s.remove(i)),
        entries_view(s.remove(i)) == entries_view(s).remove(s[i].0@),
{
    let t = s.remove(i);
    assert forall|j: int| 0 <= j < t.len() implies #[trigger] t[j] == (if j < i { s[j] } else { s[j + 1] }) by {}
    assert(keys_unique(t)) by {
        assert forall|a: int, b: int| 0 <= a < b < t.len() implies t[a].0@ != t[b].0@ by {
            let sa = if a < i { a } else { a + 1 };
            let sb = if b < i { b } else { b + 1 };
            assert(t[a] == s[sa] && t[b] == s[sb]);
            assert(s[sa].0@ != s[sb].0@);
        }
    }
    let ki = s[i].0@;
    let old_m = entries_view(s);
    let new_m = entries_view(t);
    let want = old_m.remove(ki);
    assert forall|k: K::V| #[trigger] new_m.contains_key(k) == want.contains_key(k) by {
        if new_m.contains_key(k) {
            let j = choose|j: int| has_key_at(t, k, j);
            let sj = if j < i { j } else { j + 1 };
            assert(t[j] == s[sj]);
            assert(has_key_at(s, k, sj));
            assert(s[sj].0@ != ki);
        }
        if want.contains_key(k) {
            let j = choose|j: int| has_key_at(s, k, j);
            if j < i {
                assert(t[j] == s[j]);
                assert(has_key_at(t, k, j));
            } else {
                assert(j != i);
                assert(t[j - 1] == s[j]);
                assert(has_key_at(t, k, j - 1));
            }
        }
    }
    assert forall|k: K::V| #[trigger] new_m.contains_key(k) implies new_m[k] == want[k] by {
        let j = choose|j: int| has_key_at(t, k, j);
        lemma_entry(t, j);
        let sj = if j < i { j } else { j + 1 };
        assert(t[j] == s[sj]);
        lemma_entry(s, sj);
    }
    assert(new_m =~= want);
}

/// An association table whose keys are unique by their view.
#[derive(Debug)]
pub struct Table<K: TableKey, V: View> {
    entries: Vec<(K, V)>,
}

impl<K: TableKey, V: View> View for Table<K, V> {
    type V = Map<K::V, V::V>;

    closed spec fn view(&self) -> Map<K::V, V::V> {
        entries_view(self.entries@)
    }
}

impl<K: TableKey, V: View> Table<K, V> {
    #[verifier::type_invariant]
    spec fn unique(&self) -> bool {
        keys_unique(self.entries@)
    }

    /// Number of entries.
    pub closed spec fn count(&self) -> nat {
        self.entries@.len()
    }

    /// The key of the entry at position `i`.
    pub closed spec fn key_at(&self, i: int) -> K::V {
        self.entries@[i].0@
    }

    /// The set of keys held at positions below `n`.
    pub open spec fn keys_below(&self, n: int) -> Set<K::V> {
        Set::new(|k: K::V| exists|i: int| 0 <= i < n && self.key_at(i) == k)
    }

    pub fn new() -> (r: Self)
        ensures
            r@ == Map::<K::V, V::V>::empty(),
            r.count() == 0,
    {
        let r = Table { entries: Vec::new() };
        assert(r@ =~= Map::<K::V, V::V>::empty());
        r
    }

    /// Number of entries; every key of the view sits at exactly one position.
    pub fn size(&self) -> (r: usize)
        ensures
            r == self.count(),
            forall|k: K::V|
                self@.contains_key(k) <==> exists|i: int| 0 <= i < self.count() && self.key_at(i) == k,
            forall|i: int, j: int|
                0 <= i < j < self.count() ==> self.key_at(i) != self.key_at(j),
            self.keys_below(self.count() as int) == self@.dom(),
    {
        proof {
            use_type_invariant(self);
            assert forall|k: K::V|
                self@.contains_key(k) <==> exists|i: int| 0 <= i < self.count() && self.key_at(i) == k by {
                if self@.contains_key(k) {
                    let i = choose|i: int| has_key_at(self.entries@, k, i);
                    assert(0 <= i < self.count() && self.key_at(i) == k);
                }
                if exists|i: int| 0 <= i < self.count() && self.key_at(i) == k {
                    let i = choose|i: int| 0 <= i < self.count() && self.key_at(i) == k;
                    assert(has_key_at(self.entries@, k, i));
                }
            }
            assert(self.keys_below(self.count() as int) =~= self@.dom());
        }
        self.entries.len()
    }

    /// The entry at position `i`.
    pub fn at(&self, i: usize) -> (r: (&K, &V))
        requires
            i < self.count(),
        ensures
            r.0@ == self.key_at(i as int),
            self@.contains_key(r.0@),
            self@[r.0@] == r.1@,
    {
        proof {
            use_type_invariant(self);
            lemma_entry(self.entries@, i as int);
        }
        let e = &self.entries[i];
        (&e.0, &e.1)
    }

    fn find(&self, k: &K) -> (r: Option<usize>)
        ensures
            match r {
                Some(i) => i < self.entries@.len() && self.entries@[i as int].0@ == k@,
                None => !self@.contains_key(k@),
            },
    {
        let n = self.entries.len();
        let mut i: usize = 0;
        while i < n
            invariant
                n == self.entries@.len(),
                i <= n,
                forall|j: int| 0 <= j < i ==> self.entries@[j].0@ != k@,
            decreases n - i,
        {
            if self.entries[i].0.same_key(k) {
                return Some(i);
            }
            i = i + 1;
        }
        proof {
            if self@.contains_key(k@) {
                let j = choose|j: int| has_key_at(self.entries@, k@, j);
                assert(self.entries@[j].0@ != k@);
            }
        }
        None
    }

    pub fn contains(&self, k: &K) -> (r: bool)
        ensures
            r == self@.contains_key(k@),
    {
        proof {
            use_type_invariant(self);
        }
        match self.find(k) {
            Some(i) => {
                proof {
                    lemma_entry(self.entries@, i as int);
                }
                true
            },
            None => false,
        }
    }

    pub fn get(&self, k: &K) -> (r: Option<&V>)
        ensures
            match r {
                Some(v) => self@.contains_key(k@) && v@ == self@[k@],
                None => !self@.contains_key(k@),
            },
    {
        proof {
            use_type_invariant(self);
        }
        match self.find(k) {
            Some(i) => {
                proof {
                    lemma_entry(self.entries@, i as int);
                }
                Some(&self.entries[i].1)
            },
            None => None,
        }
    }

    /// Drops the entry under `k`, if any.
    pub fn remove(&mut self, k: &K)
        ensures
            final(self)@ == old(self)@.remove(k@),
    {
        proof {
            use_type_invariant(&*self);
        }
        match self.find(k) {
            Some(i) => {
                let mut entries: Vec<(K, V)> = Vec::new();
                std::mem::swap(&mut entries, &mut self.entries);
                proof {
                    lemma_remove(entries@, i as int);
                }
                entries.remove(i);
                self.entries = entries;
            },
            None => {
                assert(old(self)@.remove(k@) =~= old(self)@);
            },
        }
    }

    /// Stores `v` under `k`, replacing what was there.
    pub fn insert(&mut self, k: K, v: V)
        ensures
            final(self)@ == old(self)@.insert(k@, v@),
    {
        proof {
            use_type_invariant(&*self);
        }
        let found = self.find(&k);
        let mut entries: Vec<(K, V)> = Vec::new();
        std::mem::swap(&mut entries, &mut self.entries);
        let ghost s = entries@;
        match found {
            Some(i) => {
                proof {
                    lemma_update(s, i as int, (k, v));
                }
                entries.set(i, (k, v));
            },
            None => {
                proof {
                    lemma_push(s, (k, v));
                }
                entries.push((k, v));
            },
        }
        self.entries = entries;
    }
}

/// `merge_maps` restricted to the keys of `b` that lie in `ks`.
pub open spec fn merge_keys<K, V: Mergeable>(a: Map<K, V::V>, b: Map<K, V::V>, ks: Set<K>) -> Map<
    K,
    V::V,
> {
    Map::new(
        |k: K| a.contains_key(k) || ks.contains(k),
        |k: K|
            if ks.contains(k) {
                V::merged(value_or_blank::<K, V>(a, k), b[k])
            } else {
                a[k]
            },
    )
}

impl<K: TableKey, V: Mergeable> Table<K, V> {
    /// A copy of this table.
    pub fn duplicate(&self) -> (r: Self)
        ensures
            r@ == self@,
    {
        let n = self.size();
        let mut r: Self = Table::new();
        let mut i: usize = 0;
        while i < n
            invariant
                n == self.count(),
                i <= n,
                forall|p: int, q: int| 0 <= p < q < self.count() ==> self.key_at(p) != self.key_at(q),
                self.keys_below(n as int) == self@.dom(),
                r@ == self@.restrict(self.keys_below(i as int)),
            decreases n - i,
        {
            let (k, v) = self.at(i);
            r.insert(k.copy_key(), v.duplicate());
            proof {
                assert(self.keys_below(i + 1) =~= self.keys_below(i as int).insert(k@));
                assert(r@ =~= self@.restrict(self.keys_below(i + 1)));
            }
            i = i + 1;
        }
        assert(r@ =~= self@);
        r
    }

    /// Merges `other` into this table key by key: a key of `other` is merged
    /// into the value held here, or into the empty value when there is none.
    pub fn merge_from(&mut self, other: &Self)
        ensures
            final(self)@ == merge_maps::<K::V, V>(old(self)@, other@),
    {
        let ghost a = self@;
        let ghost b = other@;
        let n = other.size();
        let mut i: usize = 0;
        assert(merge_keys::<K::V, V>(a, b, other.keys_below(0)) =~= a);
        while i < n
            invariant
                n == other.count(),
                i <= n,
                b == other@,
                forall|p: int, q: int| 0 <= p < q < other.count() ==> other.key_at(p) != other.key_at(q),
                other.keys_below(n as int) == b.dom(),
                self@ == merge_keys::<K::V, V>(a, b, other.keys_below(i as int)),
            decreases n - i,
        {
            let (k, v) = other.at(i);
            let ghost before = self@;
            let ghost ks = other.keys_below(i as int);
            let ghost ki = k@;
            assert(!ks.contains(ki));
            let mut nv = match self.get(k) {
                Some(cur) => cur.duplicate(),
                None => V::empty(),
            };
            assert(nv@ == value_or_blank::<K::V, V>(a, ki));
            nv.merge_from(v);
            self.insert(k.copy_key(), nv);
            proof {
                let ks2 = other.keys_below(i + 1);
                assert(ks2 =~= ks.insert(ki));
                assert(self@ =~= merge_keys::<K::V, V>(a, b, ks2));
            }
            i = i + 1;
        }
        assert(self@ =~= merge_maps::<K::V, V>(a, b));
    }
}

} // verus!
