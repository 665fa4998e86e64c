//! A table keyed by strings (addresses, escrow and dispute ids), with its
//! contents seen as a map from the key's characters to the stored value.
use vstd::prelude::*;
use vstd::string::*;

verus! {

/// The map that a list of (key, value) entries denotes, later entries winning.
pub open spec fn entries_map<V>(s: Seq<(String, V)>) -> Map<Seq<char>, V>
    decreases s.len(),
{
    if s.len() == 0 {
        Map::empty()
    } else {
        entries_map(s.drop_last()).insert(s.last().0@, s.last().1)
    }
}

/// No key occurs twice.
pub open spec fn unique_keys<V>(s: Seq<(String, V)>) -> bool {
    forall|i: int, j: int| 0 <= i < j < s.len() ==> s[i].0@ != s[j].0@
}

proof fn lemma_entries_map_dom<V>(s: Seq<(String, V)>, k: Seq<char>)
    ensures
        entries_map(s).contains_key(k) <==> exists|i: int| 0 <= i < s.len() && #[trigger] s[i].0@ == k,
    decreases s.len(),
{
    if s.len() > 0 {
        lemma_entries_map_dom(s.drop_last(), k);
        if entries_map(s).contains_key(k) && k != s.last().0@ {
            let i = choose|i: int| 0 <= i < s.drop_last().len() && #[trigger] s.drop_last()[i].0@ == k;
            assert(s[i].0@ == k);
        }
        if exists|i: int| 0 <= i < s.len() && #[trigger] s[i].0@ == k {
            let i = choose|i: int| 0 <= i < s.len() && #[trigger] s[i].0@ == k;
            if i < s.len() - 1 {
                assert(s.drop_last()[i].0@ == k);
            }
        }
    }
}

proof fn lemma_entries_map_value<V>(s: Seq<(String, V)>, i: int)
    requires
        unique_keys(s),
        0 <= i < s.len(),
    ensures
        entries_map(s).contains_key(s[i].0@),
        entries_map(s)[s[i].0@] == s[i].1,
    decreases s.len(),
{
    if i < s.len() - 1 {
        lemma_entries_map_value(s.drop_last(), i);
        assert(s.drop_last()[i] == s[i]);
    }
}

proof fn lemma_entries_map_update<V>(s: Seq<(String, V)>, i: int, e: (String, V))
    requires
        unique_keys(s),
        0 <= i < s.len(),
        e.0@ == s[i].0@,
    ensures
        unique_keys(s.update(i, e)),
        entries_map(s.update(i, e)) == entries_map(s).insert(e.0@, e.1),
    decreases s.len(),
{
    let t = s.update(i, e);
    if i == s.len() - 1 {
        assert(t.drop_last() =~= s.drop_last());
    } else {
        assert(t.drop_last() =~= s.drop_last().update(i, e));
        lemma_entries_map_update(s.drop_last(), i, e);
        assert(entries_map(t) =~= entries_map(s).insert(e.0@, e.1));
    }
}

proof fn lemma_entries_map_remove<V>(s: Seq<(String, V)>, i: int)
    requires
        unique_keys(s),
        0 <= i < s.len(),
    ensures
        unique_keys(s.remove(i)),
        entries_map(s.remove(i)) == entries_map(s).remove(s[i].0@),
    decreases s.len(),
{
    let t = s.remove(i);
    let k = s[i].0@;
    if i == s.len() - 1 {
        assert(t =~= s.drop_last());
        assert(!entries_map(s.drop_last()).contains_key(k)) by {
            lemma_entries_map_dom(s.drop_last(), k);
        }
        assert(entries_map(t) =~= entries_map(s).remove(k));
    } else {
        assert(t.drop_last() =~= s.drop_last().remove(i));
        lemma_entries_map_remove(s.drop_last(), i);
        assert(t.last() == s.last());
        assert(entries_map(t) =~= entries_map(s).remove(k));
    }
}

/// Whether `a` comes before `b` in the order of their characters' code points, a prefix first:
/// the order of their UTF-8 bytes.
pub open spec fn chars_lt(a: Seq<char>, b: Seq<char>) -> bool
    decreases a.len(),
{
    if b.len() == 0 {
        false
    } else if a.len() == 0 {
        true
    } else if a[0] != b[0] {
        (a[0] as int) < (b[0] as int)
    } else {
        chars_lt(a.subrange(1, a.len() as int), b.subrange(1, b.len() as int))
    }
}

/// No string comes before itself.
pub proof fn lemma_chars_lt_irreflexive(a: Seq<char>)
    ensures
        !chars_lt(a, a),
    decreases a.len(),
{
    if a.len() > 0 {
        lemma_chars_lt_irreflexive(a.subrange(1, a.len() as int));
    }
}

/// The order is transitive.
pub proof fn lemma_chars_lt_transitive(a: Seq<char>, b: Seq<char>, c: Seq<char>)
    requires
        chars_lt(a, b),
        chars_lt(b, c),
    ensures
        chars_lt(a, c),
    decreases a.len(),
{
    if a.len() > 0 && b.len() > 0 && c.len() > 0 && a[0] == b[0] && b[0] == c[0] {
        lemma_chars_lt_transitive(
            a.subrange(1, a.len() as int),
            b.subrange(1, b.len() as int),
            c.subrange(1, c.len() as int),
        );
    }
}

/// Of two different strings, one comes first.
pub proof fn lemma_chars_lt_total(a: Seq<char>, b: Seq<char>)
    requires
        a != b,
    ensures
        chars_lt(a, b) || chars_lt(b, a),
    decreases a.len(),
{
    if a.len() > 0 && b.len() > 0 && a[0] == b[0] {
        let ta = a.subrange(1, a.len() as int);
        let tb = b.subrange(1, b.len() as int);
        if ta == tb {
            assert(a =~= seq![a[0]] + ta);
            assert(b =~= seq![b[0]] + tb);
        }
        lemma_chars_lt_total(ta, tb);
    } else if a.len() == 0 && b.len() == 0 {
        assert(a =~= b);
    }
}

proof fn lemma_chars_lt_step(a: Seq<char>, b: Seq<char>, i: int)
    requires
        0 <= i < a.len(),
        i < b.len(),
        a[i] == b[i],
    ensures
        chars_lt(a.subrange(i, a.len() as int), b.subrange(i, b.len() as int))
            == chars_lt(a.subrange(i + 1, a.len() as int), b.subrange(i + 1, b.len() as int)),
{
    let sa = a.subrange(i, a.len() as int);
    let sb = b.subrange(i, b.len() as int);
    assert(sa.subrange(1, sa.len() as int) =~= a.subrange(i + 1, a.len() as int));
    assert(sb.subrange(1, sb.len() as int) =~= b.subrange(i + 1, b.len() as int));
}

/// Compares two strings in the order of their UTF-8 bytes.
pub fn str_lt(a: &str, b: &str) -> (r: bool)
    ensures
        r == chars_lt(a@, b@),
{
    let n = a.unicode_len();
    let m = b.unicode_len();
    let mut i: usize = 0;
    proof {
        assert(a@.subrange(0, a@.len() as int) =~= a@);
        assert(b@.subrange(0, b@.len() as int) =~= b@);
    }
    while i < n && i < m
        invariant
            n == a@.len(),
            m == b@.len(),
            i <= n,
            i <= m,
            chars_lt(a@, b@) == chars_lt(a@.subrange(i as int, n as int), b@.subrange(i as int, m as int)),
        decreases n - i,
    {
        let x = a.get_char(i);
        let y = b.get_char(i);
        if x != y {
            let ghost sa = a@.subrange(i as int, n as int);
            let ghost sb = b@.subrange(i as int, m as int);
            assert(sa[0] == x && sb[0] == y);
            return (x as u32) < (y as u32);
        }
        proof {
            lemma_chars_lt_step(a@, b@, i as int);
        }
        i = i + 1;
    }
    i == n && i < m
}

/// The keys of the entries are in ascending order.
pub open spec fn sorted_keys<V>(s: Seq<(String, V)>) -> bool {
    forall|i: int, j: int| 0 <= i < j < s.len() ==> chars_lt(#[trigger] s[i].0@, #[trigger] s[j].0@)
}

proof fn lemma_sorted_unique<V>(s: Seq<(String, V)>)
    requires
        sorted_keys(s),
    ensures
        unique_keys(s),
{
    assert forall|i: int, j: int| 0 <= i < j < s.len() implies s[i].0@ != s[j].0@ by {
        if s[i].0@ == s[j].0@ {
            lemma_chars_lt_irreflexive(s[i].0@);
        }
    }
}

proof fn lemma_entries_map_insert_at<V>(s: Seq<(String, V)>, p: int, e: (String, V))
    requires
        0 <= p <= s.len(),
        forall|i: int| 0 <= i < s.len() ==> #[trigger] s[i].0@ != e.0@,
    ensures
        entries_map(s.insert(p, e)) == entries_map(s).insert(e.0@, e.1),
    decreases s.len(),
{
    let t = s.insert(p, e);
    if p == s.len() {
        assert(t.drop_last() =~= s);
    } else {
        assert(t.drop_last() =~= s.drop_last().insert(p, e));
        assert(t.last() == s.last());
        lemma_entries_map_insert_at(s.drop_last(), p, e);
        assert(entries_map(t) =~= entries_map(s).insert(e.0@, e.1));
    }
}

/// A table from string keys to values, each key stored once.
pub struct StrMap<V> {
    entries: Vec<(String, V)>,
}

impl<V> StrMap<V> {
    /// The contents of the table.
    pub closed spec fn view(&self) -> Map<Seq<char>, V> {
        entries_map(self.entries@)
    }

    /// The stored entries, in ascending key order.
    pub closed spec fn entry_seq(&self) -> Seq<(String, V)> {
        self.entries@
    }

    /// Each key is stored once, the keys in ascending order.
    pub closed spec fn wf(&self) -> bool {
        &&& unique_keys(self.entries@)
        &&& sorted_keys(self.entries@)
        &&& self.entries@.len() <= usize::MAX
    }

    /// The entries come in ascending key order.
    pub proof fn lemma_sorted(&self)
        requires
            self.wf(),
        ensures
            sorted_keys(self.entry_seq()),
    {
    }

    /// The entries are the table's contents.
    pub proof fn lemma_entry_seq(&self)
        requires
            self.wf(),
        ensures
            forall|i: int| 0 <= i < self.entry_seq().len() ==> #[trigger] self@.contains_key(self.entry_seq()[i].0@)
                && self@[self.entry_seq()[i].0@] == self.entry_seq()[i].1,
            forall|k: Seq<char>| #[trigger] self@.contains_key(k) ==> exists|i: int| 0 <= i < self.entry_seq().len() && #[trigger] self.entry_seq()[i].0@ == k,
            forall|i: int, j: int| 0 <= i < j < self.entry_seq().len() ==> self.entry_seq()[i].0@ != self.entry_seq()[j].0@,
    {
        assert forall|i: int| 0 <= i < self.entry_seq().len() implies #[trigger] self@.contains_key(self.entry_seq()[i].0@)
            && self@[self.entry_seq()[i].0@] == self.entry_seq()[i].1 by {
            lemma_entries_map_value(self.entries@, i);
        }
        assert forall|k: Seq<char>| #[trigger] self@.contains_key(k) implies exists|i: int| 0 <= i < self.entry_seq().len() && #[trigger] self.entry_seq()[i].0@ == k by {
            lemma_entries_map_dom(self.entries@, k);
            let i = choose|i: int| 0 <= i < self.entries@.len() && #[trigger] self.entries@[i].0@ == k;
            assert(self.entry_seq()[i].0@ == k);
        }
    }

    /// An empty table.
    pub fn new() -> (r: Self)
        ensures
            r.wf(),
            r@ == Map::<Seq<char>, V>::empty(),
            r.entry_seq().len() == 0,
    {
        StrMap { entries: Vec::new() }
    }

    /// The number of stored entries.
    pub fn len(&self) -> (n: usize)
        ensures
            n == self.entry_seq().len(),
    {
        self.entries.len()
    }

    /// The key of the entry at position `i`.
    pub fn key_at(&self, i: usize) -> (k: &String)
        requires
            i < self.entry_seq().len(),
        ensures
            *k == self.entry_seq()[i as int].0,
    {
        &self.entries[i].0
    }

    /// The value of the entry at position `i`.
    pub fn value_at(&self, i: usize) -> (v: &V)
        requires
            i < self.entry_seq().len(),
        ensures
            *v == self.entry_seq()[i as int].1,
    {
        &self.entries[i].1
    }

    fn find(&self, k: &str) -> (r: Option<usize>)
        requires
            self.wf(),
        ensures
            match r {
                Some(i) => i < self.entries@.len() && self.entries@[i as int].0@ == k@,
                None => !self@.contains_key(k@),
            },
    {
        let mut i: usize = 0;
        while i < self.entries.len()
            invariant
                i <= self.entries@.len(),
                forall|j: int| 0 <= j < i ==> #[trigger] self.entries@[j].0@ != k@,
            decreases self.entries@.len() - i,
        {
            if crate::text::str_eq(self.entries[i].0.as_str(), k) {
                return Some(i);
            }
            i = i + 1;
        }
        proof {
            lemma_entries_map_dom(self.entries@, k@);
        }
        None
    }

    /// The value stored under `k`.
    pub fn get(&self, k: &str) -> (r: Option<&V>)
        requires
            self.wf(),
        ensures
            match r {
                Some(v) => self@.contains_key(k@) && *v == self@[k@],
                None => !self@.contains_key(k@),
            },
    {
        match self.find(k) {
            Some(i) => {
                proof {
                    lemma_entries_map_value(self.entries@, i as int);
                }
                Some(&self.entries[i].1)
            },
            None => None,
        }
    }

    /// Whether a value is stored under `k`.
    pub fn contains_key(&self, k: &str) -> (r: bool)
        requires
            self.wf(),
        ensures
            r == self@.contains_key(k@),
    {
        match self.find(k) {
            Some(i) => {
                proof {
                    lemma_entries_map_value(self.entries@, i as int);
                }
                true
            },
            None => false,
        }
    }

    /// Stores `v` under `k`, replacing what was there.
    pub fn insert(&mut self, k: String, v: V)
        requires
            old(self).wf(),
            old(self).entry_seq().len() < usize::MAX || old(self)@.contains_key(k@),
        ensures
            final(self).wf(),
            final(self)@ == old(self)@.insert(k@, v),
            final(self).entry_seq().len() <= old(self).entry_seq().len() + 1,
            old(self)@.contains_key(k@) ==> final(self).entry_seq().len() == old(self).entry_seq().len(),
    {
        match self.find(k.as_str()) {
            Some(i) => {
                proof {
                    lemma_entries_map_update(self.entries@, i as int, (k, v));
                }
                let ghost before = self.entries@;
                self.entries.set(i, (k, v));
                proof {
                    assert forall|a: int, b: int| 0 <= a < b < self.entries@.len() implies
                        chars_lt(#[trigger] self.entries@[a].0@, #[trigger] self.entries@[b].0@) by {
                        assert(self.entries@[a].0@ == before[a].0@);
                        assert(self.entries@[b].0@ == before[b].0@);
                    }
                }
            },
            None => {
                let ghost old_entries = self.entries@;
                proof {
                    lemma_entries_map_dom(old_entries, k@);
                }
                let mut p: usize = 0;
                while p < self.entries.len() && str_lt(self.entries[p].0.as_str(), k.as_str())
                    invariant
                        p <= old_entries.len(),
                        self.entries@ == old_entries,
                        forall|j: int| 0 <= j < p ==> chars_lt(#[trigger] old_entries[j].0@, k@),
                    decreases old_entries.len() - p,
                {
                    p = p + 1;
                }
                proof {
                    assert forall|j: int| p <= j < old_entries.len() implies chars_lt(k@, #[trigger] old_entries[j].0@) by {
                        assert(old_entries[p as int].0@ != k@);
                        lemma_chars_lt_total(old_entries[p as int].0@, k@);
                        if j > p {
                            lemma_chars_lt_transitive(k@, old_entries[p as int].0@, old_entries[j].0@);
                        }
                    }
                    lemma_entries_map_insert_at(old_entries, p as int, (k, v));
                }
                let ghost key = k@;
                self.entries.insert(p, (k, v));
                proof {
                    old_entries.insert_ensures(p as int, self.entries@[p as int]);
                    assert(sorted_keys(self.entries@)) by {
                        assert forall|a: int, b: int| 0 <= a < b < self.entries@.len() implies
                            chars_lt(#[trigger] self.entries@[a].0@, #[trigger] self.entries@[b].0@) by {
                            if b < p {
                            } else if b == p {
                            } else if a < p {
                                lemma_chars_lt_transitive(self.entries@[a].0@, key, self.entries@[b].0@);
                            } else if a == p {
                            } else {
                                assert(self.entries@[a] == old_entries[a - 1]);
                                assert(self.entries@[b] == old_entries[b - 1]);
                            }
                        }
                    }
                    lemma_sorted_unique(self.entries@);
                }
            },
        }
    }

    /// Removes what is stored under `k`.
    pub fn remove(&mut self, k: &str) -> (r: Option<V>)
        requires
            old(self).wf(),
        ensures
            final(self).wf(),
            final(self)@ == old(self)@.remove(k@),
            match r {
                Some(v) => old(self)@.contains_key(k@) && v == old(self)@[k@],
                None => !old(self)@.contains_key(k@),
            },
            final(self).entry_seq().len() <= old(self).entry_seq().len(),
    {
        match self.find(k) {
            Some(i) => {
                proof {
                    lemma_entries_map_value(self.entries@, i as int);
                    lemma_entries_map_remove(self.entries@, i as int);
                }
                let ghost before = self.entries@;
                let (_key, v) = self.entries.remove(i);
                proof {
                    before.remove_ensures(i as int);
                    assert forall|a: int, b: int| 0 <= a < b < self.entries@.len() implies
                        chars_lt(#[trigger] self.entries@[a].0@, #[trigger] self.entries@[b].0@) by {
                        let a0 = if a < i { a } else { a + 1 };
                        let b0 = if b < i { b } else { b + 1 };
                        assert(self.entries@[a] == before[a0]);
                        assert(self.entries@[b] == before[b0]);
                    }
                }
                Some(v)
            },
            None => {
                assert(self@.remove(k@) =~= self@);
                None
            },
        }
    }
}

} // verus!
