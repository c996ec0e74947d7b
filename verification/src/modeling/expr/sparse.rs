//! Sparse coefficient vectors in canonical form: one entry per key, the
//! entries in ascending order of their keys.

use vstd::prelude::*;

verus! {

/// A key of a sparse vector. Keys are totally ordered by their rank.
pub trait TermKey: Copy {
    /// The position of the key in the order of all keys.
    spec fn rank(self) -> int;

    /// Different keys have different ranks.
    proof fn lemma_rank_injective(a: Self, b: Self)
        requires
            a.rank() == b.rank(),
        ensures
            a == b,
    ;

    /// Whether `self` comes strictly before `other`.
    fn precedes(&self, other: &Self) -> (before: bool)
        ensures
            before == (self.rank() < other.rank()),
    ;
}

impl TermKey for usize {
    open spec fn rank(self) -> int {
        self as int
    }

    proof fn lemma_rank_injective(a: Self, b: Self) {
    }

    fn precedes(&self, other: &Self) -> (before: bool) {
        *self < *other
    }
}

/// An unordered pair of variable indices, held with the smaller index first.
#[derive(Clone, Copy, Debug, PartialEq, Eq, Structural)]
pub struct IndexPair {
    pub low: usize,
    pub high: usize,
}

impl IndexPair {
    /// The pair of `i` and `j`, whichever way round they are given.
    pub fn new(i: usize, j: usize) -> (pair: IndexPair)
        ensures
            pair == Self::spec_new(i, j),
    {
        if i <= j {
            IndexPair { low: i, high: j }
        } else {
            IndexPair { low: j, high: i }
        }
    }

    pub open spec fn spec_new(i: usize, j: usize) -> IndexPair {
        if i <= j {
            IndexPair { low: i, high: j }
        } else {
            IndexPair { low: j, high: i }
        }
    }
}

impl TermKey for IndexPair {
    /// Pairs are ordered by their smaller index, then by their larger one.
    open spec fn rank(self) -> int {
        self.low as int * 0x1_0000_0000_0000_0000 + self.high as int
    }

    proof fn lemma_rank_injective(a: Self, b: Self) {
    }

    fn precedes(&self, other: &Self) -> (before: bool) {
        self.low < other.low || (self.low == other.low && self.high < other.high)
    }
}

/// Whether a value is in the range of a stored coefficient.
pub open spec fn fits(v: int) -> bool {
    i64::MIN <= v <= i64::MAX
}

/// The entries stand in strictly ascending order of their keys.
pub open spec fn sorted<K: TermKey>(s: Seq<(K, i64)>) -> bool {
    forall|i: int, j: int|
        0 <= i < j < s.len() ==> (#[trigger] s[i]).0.rank() < (#[trigger] s[j]).0.rank()
}

/// The map from each key of `s` to its coefficient.
pub open spec fn terms_map<K: TermKey>(s: Seq<(K, i64)>) -> Map<K, i64>
    decreases s.len(),
{
    if s.len() == 0 {
        Map::empty()
    } else {
        terms_map(s.drop_last()).insert(s.last().0, s.last().1)
    }
}

/// The coefficient of `k` in `m`: zero where `m` has no entry for `k`.
pub open spec fn map_coeff<K>(m: Map<K, i64>, k: K) -> int {
    if m.contains_key(k) {
        m[k] as int
    } else {
        0
    }
}

/// The sum or, with `negate`, the difference of two coefficients.
pub open spec fn combined(x: int, y: int, negate: bool) -> int {
    if negate {
        x - y
    } else {
        x + y
    }
}

pub proof fn lemma_terms_map_push<K: TermKey>(s: Seq<(K, i64)>, x: (K, i64))
    ensures
        terms_map(s.push(x)) == terms_map(s).insert(x.0, x.1),
{
    assert(s.push(x).drop_last() =~= s);
}

pub proof fn lemma_terms_map_take<K: TermKey>(s: Seq<(K, i64)>, n: int)
    requires
        0 <= n < s.len(),
    ensures
        terms_map(s.take(n + 1)) == terms_map(s.take(n)).insert(s[n].0, s[n].1),
{
    assert(s.take(n + 1) =~= s.take(n).push(s[n]));
    lemma_terms_map_push(s.take(n), s[n]);
}

/// Whether some entry of `s` stands under the key `k`.
pub open spec fn has_key<K>(s: Seq<(K, i64)>, k: K) -> bool {
    exists|i: int| 0 <= i < s.len() && (#[trigger] s[i]).0 == k
}

/// The keys of the map are the keys of the entries.
pub proof fn lemma_terms_map_dom<K: TermKey>(s: Seq<(K, i64)>, k: K)
    ensures
        terms_map(s).contains_key(k) <==> has_key(s, k),
    decreases s.len(),
{
    if s.len() > 0 {
        let p = s.drop_last();
        let last = s.len() - 1;
        lemma_terms_map_dom(p, k);
        if has_key(p, k) {
            let i = choose|i: int| 0 <= i < p.len() && (#[trigger] p[i]).0 == k;
            assert(s[i] == p[i]);
        }
        if has_key(s, k) {
            let i = choose|i: int| 0 <= i < s.len() && (#[trigger] s[i]).0 == k;
            if i < last {
                assert(p[i] == s[i]);
            }
        }
        if k == s.last().0 {
            assert(s[last].0 == k);
        }
    }
}

/// In sorted entries each key maps to the coefficient that stands with it.
pub proof fn lemma_terms_map_at<K: TermKey>(s: Seq<(K, i64)>, i: int)
    requires
        sorted(s),
        0 <= i < s.len(),
    ensures
        terms_map(s).contains_key(s[i].0),
        terms_map(s)[s[i].0] == s[i].1,
    decreases s.len(),
{
    if i < s.len() - 1 {
        let p = s.drop_last();
        assert(sorted(p)) by {
            assert forall|a: int, b: int| 0 <= a < b < p.len() implies (#[trigger] p[a]).0.rank()
                < (#[trigger] p[b]).0.rank() by {
                assert(s[a].0.rank() < s[b].0.rank());
            }
        }
        lemma_terms_map_at(p, i);
        assert(s[i].0.rank() < s[s.len() - 1].0.rank());
        assert(p[i] == s[i]);
    }
}

/// A key whose rank no entry has is not a key of the map.
pub proof fn lemma_terms_map_absent<K: TermKey>(s: Seq<(K, i64)>, k: K)
    requires
        forall|i: int| 0 <= i < s.len() ==> (#[trigger] s[i]).0.rank() != k.rank(),
    ensures
        !terms_map(s).contains_key(k),
{
    lemma_terms_map_dom(s, k);
}

/// The combined coefficient of `k` in two maps.
pub open spec fn combined_at<K>(a: Map<K, i64>, b: Map<K, i64>, negate: bool, k: K) -> int {
    combined(map_coeff(a, k), map_coeff(b, k), negate)
}

/// Every combined coefficient of the two maps can be stored.
pub open spec fn combine_fits<K>(a: Map<K, i64>, b: Map<K, i64>, negate: bool) -> bool {
    forall|k: K| fits(#[trigger] combined_at(a, b, negate, k))
}

/// The coefficient of `k` in `a`, multiplied by `factor`.
pub open spec fn scaled_at<K>(a: Map<K, i64>, factor: i64, k: K) -> int {
    map_coeff(a, k) * factor
}

/// Every scaled coefficient of the map can be stored.
pub open spec fn scale_fits<K>(a: Map<K, i64>, factor: i64) -> bool {
    forall|k: K| fits(#[trigger] scaled_at(a, factor, k))
}

/// A sparse vector of coefficients: at most one entry per key, the entries
/// in ascending order of their keys. A key without an entry has the
/// coefficient zero; an entry may hold zero too.
#[derive(Clone, Debug)]
pub struct SparseTerms<K: TermKey> {
    entries: Vec<(K, i64)>,
}

impl<K: TermKey> SparseTerms<K> {
    /// The entries in the order in which they are stored.
    pub closed spec fn entries(&self) -> Seq<(K, i64)> {
        self.entries@
    }

    /// The canonical form: strictly ascending keys, so no key occurs twice.
    pub open spec fn wf(&self) -> bool {
        sorted(self.entries())
    }

    /// The entries as a map from key to coefficient.
    pub open spec fn terms(&self) -> Map<K, i64> {
        terms_map(self.entries())
    }

    /// The coefficient of `k`, zero where there is no entry.
    pub open spec fn coeff(&self, k: K) -> int {
        map_coeff(self.terms(), k)
    }

    /// The vector without entries.
    pub fn new() -> (empty: Self)
        ensures
            empty.entries() == Seq::<(K, i64)>::empty(),
            empty.wf(),
    {
        SparseTerms { entries: Vec::new() }
    }

    /// The vector with the one entry `key`, `value`.
    pub fn singleton(key: K, value: i64) -> (one: Self)
        ensures
            one.entries() == seq![(key, value)],
            one.wf(),
            one.terms() == Map::<K, i64>::empty().insert(key, value),
    {
        let mut entries: Vec<(K, i64)> = Vec::new();
        entries.push((key, value));
        proof {
            assert(entries@ =~= seq![(key, value)]);
            lemma_terms_map_push(Seq::<(K, i64)>::empty(), (key, value));
            assert(Seq::<(K, i64)>::empty().push((key, value)) =~= entries@);
        }
        SparseTerms { entries }
    }

    /// Appends an entry whose key comes after every key of the vector.
    pub fn push(&mut self, key: K, value: i64)
        requires
            old(self).wf(),
            old(self).entries().len() > 0 ==> old(self).entries().last().0.rank() < key.rank(),
        ensures
            final(self).wf(),
            final(self).entries() == old(self).entries().push((key, value)),
            final(self).terms() == old(self).terms().insert(key, value),
    {
        proof {
            lemma_terms_map_push(self.entries@, (key, value));
            let before = self.entries@;
            let after = before.push((key, value));
            assert forall|s: int, t: int| 0 <= s < t < after.len() implies (#[trigger] after[s]).0.rank()
                < (#[trigger] after[t]).0.rank() by {
                if t < before.len() {
                    assert(before[s].0.rank() < before[t].0.rank());
                } else if s < before.len() - 1 {
                    assert(before[s].0.rank() < before[before.len() - 1].0.rank());
                }
            }
        }
        self.entries.push((key, value));
    }

    /// The number of entries.
    pub fn len(&self) -> (n: usize)
        ensures
            n == self.entries().len(),
    {
        self.entries.len()
    }

    /// The entry at position `i`.
    pub fn entry(&self, i: usize) -> (e: (K, i64))
        requires
            i < self.entries().len(),
        ensures
            e == self.entries()[i as int],
    {
        self.entries[i]
    }

    /// Merges two vectors key by key: the sum of the coefficients, or with
    /// `negate` their difference. A key of either operand is a key of the
    /// result, also where the coefficients cancel. There is no result where
    /// a combined coefficient cannot be stored.
    pub fn combine(&self, rhs: &Self, negate: bool) -> (result: Option<Self>)
        requires
            self.wf(),
            rhs.wf(),
        ensures
            result.is_some() <==> combine_fits(self.terms(), rhs.terms(), negate),
            result matches Some(r) ==> {
                &&& r.wf()
                &&& r.terms().dom() == self.terms().dom().union(rhs.terms().dom())
                &&& forall|k: K|
                    r.coeff(k) == #[trigger] combined_at(self.terms(), rhs.terms(), negate, k)
                &&& r.entries().len() <= self.entries().len() + rhs.entries().len()
            },
    {
        let ghost a = self.entries@;
        let ghost b = rhs.entries@;
        let ghost am = terms_map(a);
        let ghost bm = terms_map(b);
        let n = self.entries.len();
        let m = rhs.entries.len();
        let mut out: Vec<(K, i64)> = Vec::new();
        let mut i: usize = 0;
        let mut j: usize = 0;
        proof {
            assert(a.take(0) =~= Seq::<(K, i64)>::empty());
            assert(b.take(0) =~= Seq::<(K, i64)>::empty());
        }
        while i < n || j < m
            invariant
                a == self.entries@,
                b == rhs.entries@,
                am == terms_map(a),
                bm == terms_map(b),
                n == a.len(),
                m == b.len(),
                sorted(a),
                sorted(b),
                i <= n,
                j <= m,
                out@.len() <= i + j,
                sorted(out@),
                forall|t: int|
                    0 <= t < out@.len() && i < n ==> (#[trigger] out@[t]).0.rank() < a[i as int].0.rank(),
                forall|t: int|
                    0 <= t < out@.len() && j < m ==> (#[trigger] out@[t]).0.rank() < b[j as int].0.rank(),
                forall|q: int| 0 <= q < j && i < n ==> (#[trigger] b[q]).0.rank() < a[i as int].0.rank(),
                forall|p: int| 0 <= p < i && j < m ==> (#[trigger] a[p]).0.rank() < b[j as int].0.rank(),
                terms_map(out@).dom() =~= terms_map(a.take(i as int)).dom().union(
                    terms_map(b.take(j as int)).dom(),
                ),
                forall|k: K| #[trigger]
                    terms_map(out@).contains_key(k) ==> map_coeff(terms_map(out@), k) == combined_at(
                        am,
                        bm,
                        negate,
                        k,
                    ),
            decreases (n - i) + (m - j),
        {
            let mut from_a: bool = true;
            let mut from_b: bool = true;
            if j >= m {
                from_b = false;
            } else if i >= n {
                from_a = false;
            } else {
                let ka = self.entries[i].0;
                let kb = rhs.entries[j].0;
                if ka.precedes(&kb) {
                    from_b = false;
                } else if kb.precedes(&ka) {
                    from_a = false;
                } else {
                    proof {
                        K::lemma_rank_injective(ka, kb);
                    }
                }
            }
            let key = if from_a {
                self.entries[i].0
            } else {
                rhs.entries[j].0
            };
            let x: i64 = if from_a {
                self.entries[i].1
            } else {
                0
            };
            let y: i64 = if from_b {
                rhs.entries[j].1
            } else {
                0
            };
            proof {
                if from_a {
                    lemma_terms_map_at(a, i as int);
                } else {
                    assert forall|p: int| 0 <= p < a.len() implies (#[trigger] a[p]).0.rank()
                        != key.rank() by {
                        if p >= i {
                            assert(i < n);
                            if p > i {
                                assert(a[i as int].0.rank() < a[p].0.rank());
                            }
                        }
                    }
                    lemma_terms_map_absent(a, key);
                }
                if from_b {
                    lemma_terms_map_at(b, j as int);
                } else {
                    assert forall|q: int| 0 <= q < b.len() implies (#[trigger] b[q]).0.rank()
                        != key.rank() by {
                        if q >= j {
                            assert(j < m);
                            if q > j {
                                assert(b[j as int].0.rank() < b[q].0.rank());
                            }
                        }
                    }
                    lemma_terms_map_absent(b, key);
                }
                assert(map_coeff(am, key) == x);
                assert(map_coeff(bm, key) == y);
            }
            let v = if negate {
                x.checked_sub(y)
            } else {
                x.checked_add(y)
            };
            match v {
                None => {
                    proof {
                        assert(!fits(combined_at(am, bm, negate, key)));
                    }
                    return None;
                },
                Some(val) => {
                    proof {
                        lemma_terms_map_push(out@, (key, val));
                        if from_a {
                            lemma_terms_map_take(a, i as int);
                        }
                        if from_b {
                            lemma_terms_map_take(b, j as int);
                        }
                    }
                    let ghost before = out@;
                    out.push((key, val));
                    proof {
                        assert(out@ == before.push((key, val)));
                        assert forall|s: int, t: int| 0 <= s < t < out@.len() implies (
                        #[trigger] out@[s]).0.rank() < (#[trigger] out@[t]).0.rank() by {
                            if t < before.len() {
                                assert(before[s].0.rank() < before[t].0.rank());
                            } else {
                                assert(before[s].0.rank() < key.rank());
                            }
                        }
                    }
                    if from_a {
                        i += 1;
                    }
                    if from_b {
                        j += 1;
                    }
                },
            }
        }
        proof {
            assert(a.take(n as int) =~= a);
            assert(b.take(m as int) =~= b);
            let om = terms_map(out@);
            assert forall|k: K| map_coeff(om, k) == #[trigger] combined_at(am, bm, negate, k) by {
                if !om.contains_key(k) {
                    assert(!am.dom().contains(k));
                    assert(!bm.dom().contains(k));
                }
            }
            assert forall|k: K| fits(#[trigger] combined_at(am, bm, negate, k)) by {
                assert(map_coeff(om, k) == combined_at(am, bm, negate, k));
            }
        }
        Some(SparseTerms { entries: out })
    }

    /// Multiplies every coefficient by `factor`. The keys stay as they are.
    /// There is no result where a product cannot be stored.
    pub fn scale(&self, factor: i64) -> (result: Option<Self>)
        requires
            self.wf(),
        ensures
            result.is_some() <==> scale_fits(self.terms(), factor),
            result matches Some(r) ==> {
                &&& r.wf()
                &&& r.terms().dom() == self.terms().dom()
                &&& forall|k: K| r.coeff(k) == #[trigger] scaled_at(self.terms(), factor, k)
                &&& r.entries().len() == self.entries().len()
            },
    {
        let ghost a = self.entries@;
        let ghost am = terms_map(a);
        let n = self.entries.len();
        let mut out: Vec<(K, i64)> = Vec::new();
        let mut i: usize = 0;
        while i < n
            invariant
                a == self.entries@,
                am == terms_map(a),
                n == a.len(),
                sorted(a),
                i <= n,
                out@.len() == i,
                forall|t: int|
                    0 <= t < i ==> (#[trigger] out@[t]).0 == a[t].0 && out@[t].1 == a[t].1 * factor,
            decreases n - i,
        {
            let e = self.entries[i];
            match e.1.checked_mul(factor) {
                None => {
                    proof {
                        lemma_terms_map_at(a, i as int);
                        assert(!fits(scaled_at(am, factor, e.0)));
                    }
                    return None;
                },
                Some(val) => {
                    out.push((e.0, val));
                },
            }
            i += 1;
        }
        proof {
            lemma_scaled_entries(a, out@, factor);
            assert forall|k: K| fits(#[trigger] scaled_at(am, factor, k)) by {
                assert(map_coeff(terms_map(out@), k) == scaled_at(am, factor, k));
            }
        }
        Some(SparseTerms { entries: out })
    }
}

/// Entries that agree key by key, each coefficient of `b` being that of `a`
/// times `factor`, give maps that agree in the same way.
pub proof fn lemma_scaled_entries<K: TermKey>(a: Seq<(K, i64)>, b: Seq<(K, i64)>, factor: i64)
    requires
        sorted(a),
        a.len() == b.len(),
        forall|t: int|
            0 <= t < a.len() ==> (#[trigger] b[t]).0 == a[t].0 && b[t].1 == a[t].1 * factor,
    ensures
        sorted(b),
        terms_map(b).dom() == terms_map(a).dom(),
        forall|k: K| map_coeff(terms_map(b), k) == #[trigger] scaled_at(terms_map(a), factor, k),
{
    assert forall|s: int, t: int| 0 <= s < t < b.len() implies (#[trigger] b[s]).0.rank() < (
    #[trigger] b[t]).0.rank() by {
        assert(a[s].0.rank() < a[t].0.rank());
    }
    assert forall|k: K|
        terms_map(b).contains_key(k) == terms_map(a).contains_key(k) && map_coeff(
            terms_map(b),
            k,
        ) == #[trigger] scaled_at(terms_map(a), factor, k) by {
        lemma_terms_map_dom(a, k);
        lemma_terms_map_dom(b, k);
        if has_key(a, k) {
            let t = choose|t: int| 0 <= t < a.len() && (#[trigger] a[t]).0 == k;
            assert(b[t].0 == k);
            lemma_terms_map_at(a, t);
            lemma_terms_map_at(b, t);
        }
        if has_key(b, k) {
            let t = choose|t: int| 0 <= t < b.len() && (#[trigger] b[t]).0 == k;
            assert(a[t].0 == k);
        }
    }
    assert forall|k: K| terms_map(b).dom().contains(k) == terms_map(a).dom().contains(k) by {
        assert(map_coeff(terms_map(b), k) == scaled_at(terms_map(a), factor, k));
    }
    assert(terms_map(b).dom() =~= terms_map(a).dom());
}


/// Dropping the last of sorted entries removes its key from the map.
pub proof fn lemma_terms_map_drop_last<K: TermKey>(s: Seq<(K, i64)>)
    requires
        sorted(s),
        s.len() > 0,
    ensures
        sorted(s.drop_last()),
        terms_map(s.drop_last()) == terms_map(s).remove(s.last().0),
{
    let p = s.drop_last();
    assert forall|a: int, b: int| 0 <= a < b < p.len() implies (#[trigger] p[a]).0.rank() < (
    #[trigger] p[b]).0.rank() by {
        assert(s[a].0.rank() < s[b].0.rank());
    }
    assert forall|i: int| 0 <= i < p.len() implies (#[trigger] p[i]).0.rank()
        != s.last().0.rank() by {
        assert(s[i].0.rank() < s[s.len() - 1].0.rank());
    }
    lemma_terms_map_absent(p, s.last().0);
    assert(terms_map(p) =~= terms_map(s).remove(s.last().0));
}

/// The last key of sorted entries is the greatest key of the map.
pub proof fn lemma_last_is_greatest<K: TermKey>(s: Seq<(K, i64)>, k: K)
    requires
        sorted(s),
        terms_map(s).contains_key(k),
    ensures
        s.len() > 0,
        k.rank() <= s.last().0.rank(),
{
    lemma_terms_map_dom(s, k);
    let i = choose|i: int| 0 <= i < s.len() && (#[trigger] s[i]).0 == k;
    if i < s.len() - 1 {
        assert(s[i].0.rank() < s[s.len() - 1].0.rank());
    }
}

/// The canonical form is unique: sorted entries with the same map are the
/// same entries.
pub proof fn lemma_canonical_unique<K: TermKey>(s: Seq<(K, i64)>, t: Seq<(K, i64)>)
    requires
        sorted(s),
        sorted(t),
        terms_map(s) == terms_map(t),
    ensures
        s == t,
    decreases s.len(),
{
    if s.len() == 0 {
        if t.len() > 0 {
            lemma_terms_map_at(t, 0);
        }
        assert(s =~= t);
    } else {
        lemma_terms_map_at(s, s.len() - 1);
        lemma_last_is_greatest(t, s.last().0);
        lemma_terms_map_at(t, t.len() - 1);
        lemma_last_is_greatest(s, t.last().0);
        K::lemma_rank_injective(s.last().0, t.last().0);
        lemma_terms_map_drop_last(s);
        lemma_terms_map_drop_last(t);
        lemma_canonical_unique(s.drop_last(), t.drop_last());
        assert(s =~= s.drop_last().push(s.last()));
        assert(t =~= t.drop_last().push(t.last()));
    }
}

} // verus!
