//! A map from names to values that keeps its entries ordered by name, so that
//! walking it visits names in the same order as a `BTreeMap<String, _>` does.
use vstd::prelude::*;

verus! {

/// Strict lexicographic order on character sequences, comparing code points.
/// UTF-8 preserves code-point order, so this is the order of `String`'s `Ord`.
pub open spec fn name_lt(a: Seq<char>, b: Seq<char>) -> bool
    decreases a.len(),
{
    if a.len() == 0 {
        b.len() > 0
    } else if b.len() == 0 {
        false
    } else if a[0] != b[0] {
        (a[0] as int) < (b[0] as int)
    } else {
        name_lt(a.drop_first(), b.drop_first())
    }
}

pub proof fn lemma_name_lt_irreflexive(a: Seq<char>)
    ensures
        !name_lt(a, a),
    decreases a.len(),
{
    if a.len() > 0 {
        lemma_name_lt_irreflexive(a.drop_first());
    }
}

pub proof fn lemma_name_lt_trichotomy(a: Seq<char>, b: Seq<char>)
    ensures
        a == b || name_lt(a, b) || name_lt(b, a),
        !(name_lt(a, b) && name_lt(b, a)),
    decreases a.len(),
{
    if a.len() > 0 && b.len() > 0 {
        if a[0] == b[0] {
            lemma_name_lt_trichotomy(a.drop_first(), b.drop_first());
            if a.drop_first() == b.drop_first() {
                assert(a =~= seq![a[0]] + a.drop_first());
                assert(b =~= seq![b[0]] + b.drop_first());
            }
        }
    } else if a.len() == 0 && b.len() == 0 {
        assert(a =~= b);
    }
}

pub proof fn lemma_name_lt_transitive(a: Seq<char>, b: Seq<char>, c: Seq<char>)
    requires
        name_lt(a, b),
        name_lt(b, c),
    ensures
        name_lt(a, c),
    decreases a.len(),
{
    if a.len() > 0 && b.len() > 0 && c.len() > 0 {
        if a[0] == b[0] && b[0] == c[0] {
            lemma_name_lt_transitive(a.drop_first(), b.drop_first(), c.drop_first());
        }
    }
}

/// Entries ordered strictly by name, so each name occurs once.
pub open spec fn sorted_names<V>(s: Seq<(Seq<char>, V)>) -> bool {
    forall|i: int, j: int| 0 <= i < j < s.len() ==> name_lt(#[trigger] s[i].0, #[trigger] s[j].0)
}

/// The names of the entries, in order.
pub open spec fn names_of<V>(s: Seq<(Seq<char>, V)>) -> Seq<Seq<char>> {
    s.map_values(|e: (Seq<char>, V)| e.0)
}

/// The index of the first entry named `k` at or after `i`.
pub open spec fn find_from<V>(s: Seq<(Seq<char>, V)>, k: Seq<char>, i: int) -> Option<int>
    decreases s.len() - i,
{
    if i < 0 || i >= s.len() {
        None
    } else if s[i].0 == k {
        Some(i)
    } else {
        find_from(s, k, i + 1)
    }
}

/// The index of the entry named `k`.
pub open spec fn find<V>(s: Seq<(Seq<char>, V)>, k: Seq<char>) -> Option<int> {
    find_from(s, k, 0)
}

/// The value stored under `k`.
pub open spec fn lookup<V>(s: Seq<(Seq<char>, V)>, k: Seq<char>) -> Option<V> {
    match find(s, k) {
        Some(i) => Some(s[i].1),
        None => None,
    }
}

pub open spec fn has_name<V>(s: Seq<(Seq<char>, V)>, k: Seq<char>) -> bool {
    find(s, k) is Some
}

/// The entries after storing `v` under `k`: an entry with that name is
/// replaced in place, otherwise a new entry goes before the first larger name.
pub open spec fn insert_sorted<V>(s: Seq<(Seq<char>, V)>, k: Seq<char>, v: V) -> Seq<
    (Seq<char>, V),
>
    decreases s.len(),
{
    if s.len() == 0 {
        seq![(k, v)]
    } else if name_lt(s[0].0, k) {
        seq![s[0]] + insert_sorted(s.drop_first(), k, v)
    } else if s[0].0 == k {
        seq![(k, v)] + s.drop_first()
    } else {
        seq![(k, v)] + s
    }
}

/// The entries after dropping the entry named `k`, if there is one.
pub open spec fn remove_name<V>(s: Seq<(Seq<char>, V)>, k: Seq<char>) -> Seq<(Seq<char>, V)> {
    match find(s, k) {
        Some(i) => s.remove(i),
        None => s,
    }
}

pub proof fn lemma_find_from_found<V>(s: Seq<(Seq<char>, V)>, k: Seq<char>, i: int)
    ensures
        find_from(s, k, i) matches Some(j) ==> i <= j < s.len() && s[j].0 == k,
    decreases s.len() - i,
{
    if 0 <= i < s.len() && s[i].0 != k {
        lemma_find_from_found(s, k, i + 1);
    }
}

proof fn lemma_find_from_absent<V>(s: Seq<(Seq<char>, V)>, k: Seq<char>, i: int)
    requires
        0 <= i <= s.len(),
        forall|j: int| i <= j < s.len() ==> s[j].0 != k,
    ensures
        find_from(s, k, i) is None,
    decreases s.len() - i,
{
    if i < s.len() {
        lemma_find_from_absent(s, k, i + 1);
    }
}

proof fn lemma_find_from_shift<V>(s: Seq<(Seq<char>, V)>, k: Seq<char>, i: int, j: int)
    requires
        0 <= i <= j <= s.len(),
        forall|m: int| i <= m < j ==> s[m].0 != k,
    ensures
        find_from(s, k, i) == find_from(s, k, j),
    decreases j - i,
{
    if i < j {
        lemma_find_from_shift(s, k, i + 1, j);
    }
}

/// A name after every stored name goes at the end.
pub proof fn lemma_insert_sorted_greatest<V>(s: Seq<(Seq<char>, V)>, k: Seq<char>, v: V)
    requires
        forall|i: int| 0 <= i < s.len() ==> name_lt(#[trigger] s[i].0, k),
    ensures
        insert_sorted(s, k, v) == s.push((k, v)),
    decreases s.len(),
{
    if s.len() > 0 {
        assert(name_lt(s[0].0, k));
        let t = s.drop_first();
        assert forall|i: int| 0 <= i < t.len() implies name_lt(#[trigger] t[i].0, k) by {
            assert(t[i] == s[i + 1]);
        }
        lemma_insert_sorted_greatest(t, k, v);
        assert(seq![s[0]] + t.push((k, v)) =~= s.push((k, v)));
    } else {
        assert(seq![(k, v)] =~= s.push((k, v)));
    }
}

/// A name after the last stored name goes at the end, and keeps the entries sorted.
pub proof fn lemma_insert_after_last<V>(s: Seq<(Seq<char>, V)>, k: Seq<char>, v: V)
    requires
        sorted_names(s),
        s.len() > 0 ==> name_lt(s.last().0, k),
    ensures
        insert_sorted(s, k, v) == s.push((k, v)),
        sorted_names(s.push((k, v))),
{
    assert forall|i: int| 0 <= i < s.len() implies name_lt(#[trigger] s[i].0, k) by {
        if i < s.len() - 1 {
            lemma_name_lt_transitive(s[i].0, s.last().0, k);
        }
    }
    lemma_insert_sorted_greatest(s, k, v);
    let t = s.push((k, v));
    assert forall|i: int, j: int| 0 <= i < j < t.len() implies name_lt(
        #[trigger] t[i].0,
        #[trigger] t[j].0,
    ) by {
        if j < s.len() {
            assert(t[i] == s[i] && t[j] == s[j]);
        } else {
            assert(t[i] == s[i]);
        }
    }
}

/// In sorted entries, the position of a name is the only one holding it.
pub proof fn lemma_find_sorted<V>(s: Seq<(Seq<char>, V)>, k: Seq<char>, i: int)
    requires
        sorted_names(s),
        0 <= i < s.len(),
        s[i].0 == k,
    ensures
        find(s, k) == Some(i),
{
    assert forall|m: int| 0 <= m < i implies s[m].0 != k by {
        if s[m].0 == k {
            assert(name_lt(s[m].0, s[i].0));
            lemma_name_lt_irreflexive(k);
        }
    }
    lemma_find_from_shift(s, k, 0, i);
}

/// A map from names to values whose entries stay ordered by name.
#[derive(Debug, PartialEq, Eq)]
pub struct NameMap<V> {
    entries: Vec<(String, V)>,
}

impl<V> View for NameMap<V> {
    type V = Seq<(Seq<char>, V)>;

    closed spec fn view(&self) -> Seq<(Seq<char>, V)> {
        self.entries@.map_values(|e: (String, V)| (e.0@, e.1))
    }
}

impl<V> NameMap<V> {
    #[verifier::type_invariant]
    closed spec fn sorted(self) -> bool {
        sorted_names(self@)
    }

    /// An empty map.
    pub fn new() -> (r: Self)
        ensures
            r@ == Seq::<(Seq<char>, V)>::empty(),
    {
        let r = NameMap { entries: Vec::new() };
        assert(r@ =~= Seq::<(Seq<char>, V)>::empty());
        r
    }

    /// The number of entries, which are ordered strictly by name.
    pub fn len(&self) -> (r: usize)
        ensures
            r == self@.len(),
            sorted_names(self@),
    {
        proof {
            use_type_invariant(self);
        }
        self.entries.len()
    }

    pub fn is_empty(&self) -> (r: bool)
        ensures
            r == (self@.len() == 0),
    {
        self.entries.len() == 0
    }

    /// The name of the entry at position `i` in name order.
    pub fn name_at(&self, i: usize) -> (r: &String)
        requires
            i < self@.len(),
        ensures
            r@ == self@[i as int].0,
    {
        &self.entries[i].0
    }

    /// The value of the entry at position `i` in name order.
    pub fn value_at(&self, i: usize) -> (r: &V)
        requires
            i < self@.len(),
        ensures
            *r == self@[i as int].1,
    {
        &self.entries[i].1
    }

    /// The position of the entry named `key`.
    pub fn position(&self, key: &str) -> (r: Option<usize>)
        ensures
            match r {
                Some(i) => find(self@, key@) == Some(i as int) && i < self@.len() && self@[i as int].0
                    == key@,
                None => find(self@, key@) is None,
            },
    {
        let n = self.entries.len();
        let mut i: usize = 0;
        while i < n
            invariant
                n == self@.len(),
                i <= n,
                find(self@, key@) == find_from(self@, key@, i as int),
            decreases n - i,
        {
            if crate::text::str_eq(self.entries[i].0.as_str(), key) {
                assert(self@[i as int].0 == key@);
                return Some(i);
            }
            i = i + 1;
        }
        None
    }

    /// The value stored under `key`.
    pub fn get(&self, key: &str) -> (r: Option<&V>)
        ensures
            match r {
                Some(v) => lookup(self@, key@) == Some(*v),
                None => lookup(self@, key@) is None,
            },
    {
        match self.position(key) {
            Some(i) => Some(&self.entries[i].1),
            None => None,
        }
    }

    pub fn contains_key(&self, key: &str) -> (r: bool)
        ensures
            r == has_name(self@, key@),
    {
        self.position(key).is_some()
    }

    /// The names in order; they are strictly increasing.
    pub fn keys(&self) -> (r: Vec<String>)
        ensures
            r@.map_values(|s: String| s@) == names_of(self@),
            forall|i: int, j: int|
                0 <= i < j < r@.len() ==> name_lt(#[trigger] r@[i]@, #[trigger] r@[j]@),
    {
        proof {
            use_type_invariant(self);
        }
        let n = self.entries.len();
        let mut r: Vec<String> = Vec::new();
        let mut i: usize = 0;
        while i < n
            invariant
                n == self@.len(),
                i <= n,
                r@.len() == i,
                forall|j: int| 0 <= j < i ==> #[trigger] r@[j]@ == self@[j].0,
            decreases n - i,
        {
            r.push(self.entries[i].0.clone());
            i = i + 1;
        }
        assert(r@.map_values(|s: String| s@) =~= names_of(self@));
        r
    }

    /// Stores `value` under `key`, returning the value it replaces.
    pub fn insert(&mut self, key: String, value: V) -> (r: Option<V>)
        ensures
            final(self)@ == insert_sorted(old(self)@, key@, value),
            r == lookup(old(self)@, key@),
    {
        proof {
            use_type_invariant(&*self);
        }
        let ghost s = self@;
        let ghost k = key@;
        let n = self.entries.len();
        let mut p: usize = 0;
        assert(s.take(0) =~= Seq::<(Seq<char>, V)>::empty());
        assert(s.skip(0) =~= s);
        while p < n
            invariant
                n == self@.len(),
                self@ == s,
                k == key@,
                sorted_names(s),
                p <= n,
                forall|j: int| 0 <= j < p ==> name_lt(#[trigger] s[j].0, k),
                insert_sorted(s, k, value) == s.take(p as int) + insert_sorted(
                    s.skip(p as int),
                    k,
                    value,
                ),
            ensures
                p < n ==> !name_lt(s[p as int].0, k),
            decreases n - p,
        {
            let lt = str_lt(self.entries[p].0.as_str(), key.as_str());
            assert(lt == name_lt(self.entries@[p as int].0@, key@));
            if !lt {
                assert(self@[p as int].0 == self.entries@[p as int].0@);
                break;
            }
            proof {
                assert(self@[p as int].0 == self.entries@[p as int].0@);
                assert(self@[p as int].0 == s[p as int].0);
                assert(k == key@);
                assert(name_lt(self.entries@[p as int].0@, key@));
                assert(name_lt(s[p as int].0, k));
                let t = s.skip(p as int);
                assert(t[0] == s[p as int]);
                assert(t.drop_first() =~= s.skip(p + 1));
                assert(insert_sorted(t, k, value) == seq![t[0]] + insert_sorted(
                    t.drop_first(),
                    k,
                    value,
                ));
                assert(s.take(p + 1) =~= s.take(p as int) + seq![s[p as int]]);
                assert(s.take(p as int) + (seq![t[0]] + insert_sorted(s.skip(p + 1), k, value))
                    =~= s.take(p + 1) + insert_sorted(s.skip(p + 1), k, value));
            }
            p = p + 1;
        }
        proof {
            assert forall|j: int| 0 <= j < p implies s[j].0 != k by {
                lemma_name_lt_irreflexive(k);
            }
            lemma_find_from_shift(s, k, 0, p as int);
        }
        let mut entries: Vec<(String, V)> = Vec::new();
        std::mem::swap(&mut entries, &mut self.entries);
        assert(entries@.map_values(|e: (String, V)| (e.0@, e.1)) == s);
        if p < n && crate::text::str_eq(entries[p].0.as_str(), key.as_str()) {
            let old_entry = entries.remove(p);
            entries.insert(p, (key, value));
            proof {
                let r = entries@.map_values(|e: (String, V)| (e.0@, e.1));
                assert(r =~= s.update(p as int, (k, value)));
                assert forall|i: int, j: int| 0 <= i < j < r.len() implies name_lt(
                    #[trigger] r[i].0,
                    #[trigger] r[j].0,
                ) by {
                    assert(s[i].0 == r[i].0);
                    assert(s[j].0 == r[j].0);
                }
            }
            self.entries = entries;
            proof {
                let t = s.skip(p as int);
                assert(t[0] == s[p as int]);
                assert(t.drop_first() =~= s.skip(p + 1));
                assert(self@ =~= s.take(p as int) + (seq![(k, value)] + s.skip(p + 1)));
                assert(s.skip(p as int) =~= seq![s[p as int]] + s.skip(p + 1));
            }
            Some(old_entry.1)
        } else {
            entries.insert(p, (key, value));
            let ghost r = entries@.map_values(|e: (String, V)| (e.0@, e.1));
            proof {
                if p < n {
                    lemma_name_lt_trichotomy(s[p as int].0, k);
                    let t = s.skip(p as int);
                    assert(t[0] == s[p as int]);
                    assert(!name_lt(t[0].0, k));
                    assert(t[0].0 != k);
                }
                assert(r =~= s.take(p as int) + (seq![(k, value)] + s.skip(p as int)));
                assert forall|j: int| p <= j < n implies s[j].0 != k by {
                    if j > p {
                        assert(name_lt(s[p as int].0, s[j].0));
                        lemma_name_lt_trichotomy(s[p as int].0, k);
                        lemma_name_lt_transitive(k, s[p as int].0, s[j].0);
                        lemma_name_lt_irreflexive(k);
                    } else {
                        lemma_name_lt_trichotomy(s[p as int].0, k);
                    }
                }
                lemma_find_from_absent(s, k, p as int);
                assert forall|i: int, j: int| 0 <= i < j < r.len() implies name_lt(
                    #[trigger] r[i].0,
                    #[trigger] r[j].0,
                ) by {
                    if j == p {
                        assert(r[j].0 == k);
                        assert(r[i] == s[i]);
                    } else if i == p {
                        assert(r[j] == s[j - 1]);
                        assert(r[i].0 == k);
                        lemma_name_lt_trichotomy(s[p as int].0, k);
                        if j - 1 > p {
                            lemma_name_lt_transitive(k, s[p as int].0, s[j - 1].0);
                        }
                    } else if i < p && j > p {
                        assert(r[i] == s[i]);
                        assert(r[j] == s[j - 1]);
                    } else if j < p {
                        assert(r[i] == s[i]);
                        assert(r[j] == s[j]);
                    } else {
                        assert(r[i] == s[i - 1]);
                        assert(r[j] == s[j - 1]);
                    }
                }
            }
            self.entries = entries;
            None
        }
    }

    /// Drops the entry named `key`, returning its value.
    pub fn remove(&mut self, key: &str) -> (r: Option<V>)
        ensures
            final(self)@ == remove_name(old(self)@, key@),
            r == lookup(old(self)@, key@),
    {
        proof {
            use_type_invariant(&*self);
        }
        let ghost s = self@;
        match self.position(key) {
            Some(i) => {
                let mut entries: Vec<(String, V)> = Vec::new();
                std::mem::swap(&mut entries, &mut self.entries);
                assert(entries@.map_values(|e: (String, V)| (e.0@, e.1)) == s);
                let e = entries.remove(i);
                let ghost r = entries@.map_values(|e: (String, V)| (e.0@, e.1));
                proof {
                    assert(r =~= s.remove(i as int));
                    assert forall|a: int, b: int| 0 <= a < b < r.len() implies name_lt(
                        #[trigger] r[a].0,
                        #[trigger] r[b].0,
                    ) by {
                        if a < i && b < i {
                        } else if a < i {
                            assert(r[b] == s[b + 1]);
                        } else {
                            assert(r[a] == s[a + 1]);
                            assert(r[b] == s[b + 1]);
                        }
                    }
                }
                self.entries = entries;
                Some(e.1)
            },
            None => None,
        }
    }

    /// Drops every entry.
    pub fn clear(&mut self)
        ensures
            final(self)@ == Seq::<(Seq<char>, V)>::empty(),
    {
        self.entries = Vec::new();
        assert(self@ =~= Seq::<(Seq<char>, V)>::empty());
    }
}

impl<V: Clone> Clone for NameMap<V> {
    /// A copy with the same names, each value cloned.
    fn clone(&self) -> (r: Self)
        ensures
            names_of(r@) == names_of(self@),
            forall|i: int| 0 <= i < self@.len() ==> cloned(#[trigger] self@[i].1, r@[i].1),
    {
        proof {
            use_type_invariant(self);
        }
        let n = self.entries.len();
        let mut entries: Vec<(String, V)> = Vec::new();
        let mut i: usize = 0;
        while i < n
            invariant
                n == self@.len(),
                i <= n,
                entries@.len() == i,
                forall|j: int|
                    0 <= j < i ==> (#[trigger] entries@[j]).0@ == self@[j].0 && cloned(
                        self@[j].1,
                        entries@[j].1,
                    ),
            decreases n - i,
        {
            let name = self.entries[i].0.clone();
            let value = self.entries[i].1.clone();
            entries.push((name, value));
            i = i + 1;
        }
        let ghost v = entries@.map_values(|e: (String, V)| (e.0@, e.1));
        assert(names_of(v) =~= names_of(self@));
        assert forall|a: int, b: int| 0 <= a < b < v.len() implies name_lt(
            #[trigger] v[a].0,
            #[trigger] v[b].0,
        ) by {
            assert(v[a].0 == self@[a].0);
            assert(v[b].0 == self@[b].0);
        }
        NameMap { entries }
    }
}

/// Whether `a` sorts strictly before `b`, as `a < b` does for strings.
pub fn str_lt(a: &str, b: &str) -> (r: bool)
    ensures
        r == name_lt(a@, b@),
{
    let n = a.unicode_len();
    let m = b.unicode_len();
    let mut i: usize = 0;
    assert(a@.skip(0) =~= a@);
    assert(b@.skip(0) =~= b@);
    while i < n && i < m
        invariant
            n == a@.len(),
            m == b@.len(),
            i <= n,
            i <= m,
            name_lt(a@, b@) == name_lt(a@.skip(i as int), b@.skip(i as int)),
        decreases n - i,
    {
        let x = a.get_char(i);
        let y = b.get_char(i);
        let ghost sa = a@.skip(i as int);
        let ghost sb = b@.skip(i as int);
        assert(sa[0] == x);
        assert(sb[0] == y);
        if x != y {
            assert((x as u32) as int == x as int);
            return (x as u32) < (y as u32);
        }
        assert(sa.drop_first() =~= a@.skip(i + 1));
        assert(sb.drop_first() =~= b@.skip(i + 1));
        i = i + 1;
    }
    i == n && i < m
}

} // verus!
