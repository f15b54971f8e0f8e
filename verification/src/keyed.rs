//! A small string-keyed map, kept in the order of its keys.
//!
//! Its abstract value is the sequence of `(key, value)` entries, sorted by key in the order of
//! `str` (lexicographic by code point, which is the order of the UTF-8 bytes). Inserting a key
//! that is already present replaces its value, as a map would.

use vstd::prelude::*;

verus! {

/// Whether no key occurs twice in a sequence of entries.
pub open spec fn keys_distinct<W>(s: Seq<(Seq<char>, W)>) -> bool {
    forall|i: int, j: int| 0 <= i < s.len() && 0 <= j < s.len() && i != j ==> s[i].0 != s[j].0
}

/// Whether some entry has the given key.
pub open spec fn has_key<W>(s: Seq<(Seq<char>, W)>, k: Seq<char>) -> bool {
    exists|i: int| 0 <= i < s.len() && s[i].0 == k
}

/// The position of the entry with the given key (meaningful when `has_key` holds).
pub open spec fn key_index<W>(s: Seq<(Seq<char>, W)>, k: Seq<char>) -> int {
    choose|i: int| 0 <= i < s.len() && s[i].0 == k
}

/// The value stored under a key, if any.
pub open spec fn lookup<W>(s: Seq<(Seq<char>, W)>, k: Seq<char>) -> Option<W> {
    if has_key(s, k) {
        Some(s[key_index(s, k)].1)
    } else {
        None
    }
}

/// Whether `a` comes before `b` in the order of `str`: lexicographic, by code point.
pub open spec fn key_lt(a: Seq<char>, b: Seq<char>) -> bool
    decreases a.len(),
{
    if a.len() == 0 {
        b.len() > 0
    } else if b.len() == 0 {
        false
    } else if a[0] < b[0] {
        true
    } else if a[0] == b[0] {
        key_lt(a.drop_first(), b.drop_first())
    } else {
        false
    }
}

proof fn lemma_key_lt_strict(a: Seq<char>, b: Seq<char>)
    ensures
        !key_lt(a, a),
        key_lt(a, b) ==> !key_lt(b, a),
        a != b ==> key_lt(a, b) || key_lt(b, a),
    decreases a.len(),
{
    if a.len() > 0 && b.len() > 0 {
        lemma_key_lt_strict(a.drop_first(), b.drop_first());
        lemma_key_lt_strict(a.drop_first(), a.drop_first());
        if a[0] == b[0] && a != b {
            assert(a.drop_first() != b.drop_first()) by {
                if a.drop_first() == b.drop_first() {
                    assert(a =~= b) by {
                        assert forall|i: int| 0 <= i < a.len() implies a[i] == b[i] by {
                            if i > 0 {
                                assert(a[i] == a.drop_first()[i - 1]);
                                assert(b[i] == b.drop_first()[i - 1]);
                            }
                        }
                    }
                }
            }
        }
    } else if a.len() > 0 {
        lemma_key_lt_strict(a.drop_first(), a.drop_first());
    } else if b.len() == 0 {
        assert(a =~= b);
    }
}

proof fn lemma_key_lt_transitive(a: Seq<char>, b: Seq<char>, c: Seq<char>)
    requires
        key_lt(a, b),
        key_lt(b, c),
    ensures
        key_lt(a, c),
    decreases a.len(),
{
    if a.len() > 0 && b.len() > 0 && c.len() > 0 {
        if a[0] == b[0] && b[0] == c[0] {
            lemma_key_lt_transitive(a.drop_first(), b.drop_first(), c.drop_first());
        }
    }
}

/// Whether the keys are in strictly increasing order (so no key occurs twice).
pub open spec fn keys_sorted<W>(s: Seq<(Seq<char>, W)>) -> bool {
    forall|i: int, j: int| 0 <= i < j < s.len() ==> key_lt(#[trigger] s[i].0, #[trigger] s[j].0)
}

proof fn lemma_sorted_distinct<W>(s: Seq<(Seq<char>, W)>)
    requires
        keys_sorted(s),
    ensures
        keys_distinct(s),
{
    assert forall|i: int, j: int| 0 <= i < s.len() && 0 <= j < s.len() && i != j implies s[i].0
        != s[j].0 by {
        if i < j {
            lemma_key_lt_strict(s[i].0, s[j].0);
        } else {
            lemma_key_lt_strict(s[j].0, s[i].0);
        }
    }
}

/// The number of leading entries whose keys come before `k`.
pub open spec fn insert_pos<W>(s: Seq<(Seq<char>, W)>, k: Seq<char>) -> nat
    decreases s.len(),
{
    if s.len() == 0 {
        0
    } else if key_lt(s[0].0, k) {
        1 + insert_pos(s.drop_first(), k)
    } else {
        0
    }
}

proof fn lemma_insert_pos<W>(s: Seq<(Seq<char>, W)>, k: Seq<char>)
    requires
        keys_sorted(s),
    ensures
        insert_pos(s, k) <= s.len(),
        forall|i: int| 0 <= i < insert_pos(s, k) ==> key_lt(#[trigger] s[i].0, k),
        forall|i: int| insert_pos(s, k) <= i < s.len() ==> !key_lt(#[trigger] s[i].0, k),
    decreases s.len(),
{
    if s.len() > 0 {
        let t = s.drop_first();
        assert(keys_sorted(t)) by {
            assert forall|i: int, j: int| 0 <= i < j < t.len() implies key_lt(#[trigger] t[i].0, #[trigger] t[j].0) by {
                assert(t[i] == s[i + 1] && t[j] == s[j + 1]);
            }
        }
        lemma_insert_pos(t, k);
        if key_lt(s[0].0, k) {
            assert forall|i: int| 0 <= i < insert_pos(s, k) implies key_lt(#[trigger] s[i].0, k) by {
                if i > 0 {
                    assert(s[i] == t[i - 1]);
                }
            }
            assert forall|i: int| insert_pos(s, k) <= i < s.len() implies !key_lt(#[trigger] s[i].0, k) by {
                assert(s[i] == t[i - 1]);
            }
        } else {
            assert forall|i: int| 0 <= i < s.len() implies !key_lt(#[trigger] s[i].0, k) by {
                if i > 0 && key_lt(s[i].0, k) {
                    lemma_key_lt_transitive(s[0].0, s[i].0, k);
                }
            }
        }
    }
}

/// The entries after storing `v` under `k`: the value is replaced when the key is present, and
/// otherwise the entry is added where its key belongs in the order.
pub open spec fn insert_entry<W>(s: Seq<(Seq<char>, W)>, k: Seq<char>, v: W) -> Seq<(Seq<char>, W)> {
    if has_key(s, k) {
        s.update(key_index(s, k), (k, v))
    } else {
        s.insert(insert_pos(s, k) as int, (k, v))
    }
}

/// Storing keeps the keys in order.
proof fn lemma_insert_sorted<W>(s: Seq<(Seq<char>, W)>, k: Seq<char>, v: W)
    requires
        keys_sorted(s),
    ensures
        keys_sorted(insert_entry(s, k, v)),
{
    let t = insert_entry(s, k, v);
    if has_key(s, k) {
        let i = key_index(s, k);
        assert forall|a: int, b: int| 0 <= a < b < t.len() implies key_lt(#[trigger] t[a].0, #[trigger] t[b].0) by {
            assert(t[a].0 == s[a].0 && t[b].0 == s[b].0);
        }
    } else {
        lemma_insert_pos(s, k);
        let p = insert_pos(s, k) as int;
        assert forall|a: int, b: int| 0 <= a < b < t.len() implies key_lt(#[trigger] t[a].0, #[trigger] t[b].0) by {
            if b < p {
                assert(t[a] == s[a] && t[b] == s[b]);
            } else if b == p {
                assert(t[a] == s[a]);
            } else if a < p {
                assert(t[a] == s[a] && t[b] == s[b - 1]);
                lemma_key_lt_strict(s[b - 1].0, k);
                lemma_key_lt_transitive(s[a].0, k, s[b - 1].0);
            } else if a == p {
                assert(t[b] == s[b - 1]);
                assert(s[b - 1].0 != k);
                lemma_key_lt_strict(s[b - 1].0, k);
            } else {
                assert(t[a] == s[a - 1] && t[b] == s[b - 1]);
            }
        }
    }
}

/// Reading a key right after storing a value under it gives that value back, and every other
/// key keeps what it had; the keys stay in order.
pub proof fn lemma_lookup_after_insert<W>(s: Seq<(Seq<char>, W)>, k: Seq<char>, v: W, other: Seq<char>)
    requires
        keys_sorted(s),
    ensures
        lookup(insert_entry(s, k, v), k) == Some(v),
        other != k ==> lookup(insert_entry(s, k, v), other) == lookup(s, other),
        keys_sorted(insert_entry(s, k, v)),
{
    let t = insert_entry(s, k, v);
    lemma_insert_sorted(s, k, v);
    lemma_sorted_distinct(s);
    lemma_sorted_distinct(t);
    if has_key(s, k) {
        let i = key_index(s, k);
        assert(t[i].0 == k);
        let j = key_index(t, k);
        assert(j == i);
        if has_key(s, other) && other != k {
            let a = key_index(s, other);
            assert(t[a] == s[a]);
            let b = key_index(t, other);
            assert(b != i);
            assert(t[b] == s[b]);
        }
        if has_key(t, other) && other != k {
            let b = key_index(t, other);
            assert(b != i);
            assert(s[b] == t[b]);
        }
    } else {
        lemma_insert_pos(s, k);
        let p = insert_pos(s, k) as int;
        assert(t[p].0 == k);
        let j = key_index(t, k);
        assert(j == p);
        if has_key(s, other) && other != k {
            let a = key_index(s, other);
            let a2 = if a < p { a } else { a + 1 };
            assert(t[a2] == s[a]);
            let b = key_index(t, other);
            assert(b == a2);
        }
        if has_key(t, other) && other != k {
            let b = key_index(t, other);
            assert(b != p);
            let b2 = if b < p { b } else { b - 1 };
            assert(s[b2] == t[b]);
        }
    }
}

/// A map from strings to values, kept in the order of its keys.
pub struct KeyedList<V: View> {
    entries: Vec<(String, V)>,
}

impl<V: View> View for KeyedList<V> {
    type V = Seq<(Seq<char>, V::V)>;

    closed spec fn view(&self) -> Seq<(Seq<char>, V::V)> {
        self.entries@.map_values(|e: (String, V)| (e.0@, e.1@))
    }
}

impl<V: View> KeyedList<V> {
    #[verifier::type_invariant]
    spec fn wf(self) -> bool {
        keys_sorted(self.entries@.map_values(|e: (String, V)| (e.0@, e.1@)))
    }

    /// An empty map.
    pub fn new() -> (r: Self)
        ensures
            r@ == Seq::<(Seq<char>, V::V)>::empty(),
    {
        let r = KeyedList { entries: Vec::new() };
        assert(r@ =~= Seq::<(Seq<char>, V::V)>::empty());
        r
    }

    /// The number of keys.
    pub fn len(&self) -> (r: usize)
        ensures
            r == self@.len(),
            keys_sorted(self@),
    {
        proof {
            use_type_invariant(self);
        }
        self.entries.len()
    }

    /// The position of `key`, if present.
    fn find(&self, key: &str) -> (r: Option<usize>)
        ensures
            match r {
                Some(i) => i < self@.len() && self@[i as int].0 == key@ && i == key_index(self@, key@),
                None => !has_key(self@, key@),
            },
            keys_sorted(self@),
    {
        proof {
            use_type_invariant(self);
            lemma_sorted_distinct(self@);
        }
        let mut i: usize = 0;
        while i < self.entries.len()
            invariant
                i <= self.entries@.len(),
                self@ == self.entries@.map_values(|e: (String, V)| (e.0@, e.1@)),
                keys_distinct(self@),
                keys_sorted(self@),
                forall|j: int| 0 <= j < i ==> self@[j].0 != key@,
            decreases self.entries.len() - i,
        {
            let k: &str = self.entries[i].0.as_str();
            if string_eq(k, key) {
                proof {
                    assert(self@[i as int].0 == key@);
                    let c = key_index(self@, key@);
                    assert(0 <= c < self@.len() && self@[c].0 == key@);
                }
                return Some(i);
            }
            i = i + 1;
        }
        None
    }

    /// The value stored under `key`, if any.
    pub fn get(&self, key: &str) -> (r: Option<&V>)
        ensures
            match r {
                Some(v) => lookup(self@, key@) == Some(v@),
                None => lookup(self@, key@) is None,
            },
    {
        match self.find(key) {
            Some(i) => Some(&self.entries[i].1),
            None => None,
        }
    }

    /// Store `value` under `key`, replacing an earlier value for the same key.
    pub fn insert(&mut self, key: String, value: V)
        ensures
            final(self)@ == insert_entry(old(self)@, key@, value@),
    {
        proof {
            use_type_invariant(&*self);
        }
        let ghost old_view = self@;
        let ghost kv = key@;
        let ghost vv = value@;
        proof {
            lemma_insert_sorted(old_view, kv, vv);
        }
        match self.find(key.as_str()) {
            Some(i) => {
                let mut entries = Vec::new();
                std::mem::swap(&mut entries, &mut self.entries);
                entries.set(i, (key, value));
                assert(entries@.map_values(|e: (String, V)| (e.0@, e.1@)) =~= old_view.update(i as int, (kv, vv)));
                self.entries = entries;
            },
            None => {
                let mut entries = Vec::new();
                std::mem::swap(&mut entries, &mut self.entries);
                let mut p: usize = 0;
                assert(old_view.subrange(0, old_view.len() as int) =~= old_view);
                while p < entries.len() && str_lt(entries[p].0.as_str(), key.as_str())
                    invariant
                        p <= entries@.len(),
                        old_view == entries@.map_values(|e: (String, V)| (e.0@, e.1@)),
                        kv == key@,
                        insert_pos(old_view, kv) == p + insert_pos(old_view.subrange(p as int, old_view.len() as int), kv),
                    decreases entries.len() - p,
                {
                    assert(old_view.subrange(p as int, old_view.len() as int).drop_first() =~= old_view.subrange(p + 1, old_view.len() as int));
                    p = p + 1;
                }
                proof {
                    assert(old_view.subrange(0, old_view.len() as int) =~= old_view);
                }
                entries.insert(p, (key, value));
                assert(entries@.map_values(|e: (String, V)| (e.0@, e.1@)) =~= old_view.insert(p as int, (kv, vv)));
                self.entries = entries;
            },
        }
    }

    /// Hand the entries out, in the order of their keys.
    pub fn into_entries(self) -> (r: Vec<(String, V)>)
        ensures
            r@.len() == self@.len(),
            forall|i: int| 0 <= i < r@.len() ==> #[trigger] self@[i] == (r@[i].0@, r@[i].1@),
    {
        self.entries
    }
}

/// Whether `a` comes before `b` in the order of `str`.
pub fn str_lt(a: &str, b: &str) -> (r: bool)
    ensures
        r == key_lt(a@, b@),
{
    let n = a.unicode_len();
    let m = b.unicode_len();
    let mut i: usize = 0;
    assert(a@.subrange(0, n as int) =~= a@ && b@.subrange(0, m as int) =~= b@);
    while i < n && i < m
        invariant
            n == a@.len(),
            m == b@.len(),
            i <= n,
            i <= m,
            key_lt(a@, b@) == key_lt(a@.subrange(i as int, n as int), b@.subrange(i as int, m as int)),
        decreases n - i,
    {
        let x = a.get_char(i);
        let y = b.get_char(i);
        proof {
            let sa = a@.subrange(i as int, n as int);
            let sb = b@.subrange(i as int, m as int);
            assert(sa[0] == x && sb[0] == y);
            assert(sa.drop_first() =~= a@.subrange(i + 1, n as int));
            assert(sb.drop_first() =~= b@.subrange(i + 1, m as int));
        }
        if x < y {
            return true;
        }
        if x != y {
            return false;
        }
        i = i + 1;
    }
    i == n && i < m
}

/// Whether two strings are equal.
pub fn string_eq(a: &str, b: &str) -> (r: bool)
    ensures
        r == (a@ == b@),
{
    let n = a.unicode_len();
    let m = b.unicode_len();
    if n != m {
        return false;
    }
    let mut i: usize = 0;
    while i < n
        invariant
            n == a@.len(),
            m == b@.len(),
            n == m,
            i <= n,
            forall|j: int| 0 <= j < i ==> a@[j] == b@[j],
        decreases n - i,
    {
        if a.get_char(i) != b.get_char(i) {
            return false;
        }
        i = i + 1;
    }
    assert(a@ =~= b@);
    true
}

} // verus!
