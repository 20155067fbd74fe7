//! A string-keyed table that keeps its entries sorted by key, with the
//! insertion semantics of an ordered map: inserting a present key replaces
//! its value, inserting a new key places it between its neighbours.

use vstd::prelude::*;
use crate::order::{
    compare_keys, key_lt, lemma_key_lt_asymmetric, lemma_key_lt_irreflexive, lemma_key_lt_total, lemma_key_lt_transitive,
    KeyOrder,
};

verus! {

/// Keys strictly increase along the entries.
pub open spec fn keys_increasing(s: Seq<(Seq<char>, Seq<char>)>) -> bool {
    forall|i: int, j: int| 0 <= i < j < s.len() ==> key_lt(#[trigger] s[i].0, #[trigger] s[j].0)
}

/// Some entry has key `k`.
pub open spec fn has_key(s: Seq<(Seq<char>, Seq<char>)>, k: Seq<char>) -> bool {
    exists|i: int| 0 <= i < s.len() && (#[trigger] s[i]).0 == k
}

/// The value of an entry with key `k`.
pub open spec fn value_at_key(s: Seq<(Seq<char>, Seq<char>)>, k: Seq<char>) -> Seq<char> {
    s[choose|i: int| 0 <= i < s.len() && (#[trigger] s[i]).0 == k].1
}

/// The map that a sequence of entries stands for.
pub open spec fn entries_map(s: Seq<(Seq<char>, Seq<char>)>) -> Map<Seq<char>, Seq<char>> {
    Map::new(|k: Seq<char>| has_key(s, k), |k: Seq<char>| value_at_key(s, k))
}

/// The map `m` after inserting the entries of `s`, first to last.
pub open spec fn insert_all(
    m: Map<Seq<char>, Seq<char>>,
    s: Seq<(Seq<char>, Seq<char>)>,
) -> Map<Seq<char>, Seq<char>>
    decreases s.len(),
{
    if s.len() == 0 {
        m
    } else {
        insert_all(m, s.drop_last()).insert(s.last().0, s.last().1)
    }
}

/// In sorted entries, the entry at `i` is the one that holds its key.
proof fn lemma_entry_is_the_key(s: Seq<(Seq<char>, Seq<char>)>, i: int)
    requires
        keys_increasing(s),
        0 <= i < s.len(),
    ensures
        has_key(s, s[i].0),
        value_at_key(s, s[i].0) == s[i].1,
        entries_map(s).contains_key(s[i].0),
        entries_map(s)[s[i].0] == s[i].1,
{
    assert(has_key(s, s[i].0));
    let j = choose|j: int| 0 <= j < s.len() && (#[trigger] s[j]).0 == s[i].0;
    if j != i {
        lemma_key_lt_irreflexive(s[i].0);
        if j < i {
            assert(key_lt(s[j].0, s[i].0));
        } else {
            assert(key_lt(s[i].0, s[j].0));
        }
    }
}

/// Placing a new key between its neighbours keeps the keys sorted and adds
/// that key to the map.
proof fn lemma_insert_entry(s: Seq<(Seq<char>, Seq<char>)>, p: int, k: Seq<char>, v: Seq<char>)
    requires
        keys_increasing(s),
        0 <= p <= s.len(),
        forall|q: int| 0 <= q < p ==> key_lt(#[trigger] s[q].0, k),
        forall|q: int| p <= q < s.len() ==> key_lt(k, #[trigger] s[q].0),
    ensures
        keys_increasing(s.insert(p, (k, v))),
        entries_map(s.insert(p, (k, v))) =~= entries_map(s).insert(k, v),
{
    let t = s.insert(p, (k, v));
    assert forall|i: int, j: int| 0 <= i < j < t.len() implies key_lt(#[trigger] t[i].0, #[trigger] t[j].0) by {
        if j < p {
            assert(t[i] == s[i] && t[j] == s[j]);
        } else if j == p {
            assert(t[i] == s[i]);
        } else if i == p {
            assert(t[j] == s[j - 1]);
        } else if i < p {
            assert(t[i] == s[i] && t[j] == s[j - 1]);
            lemma_key_lt_transitive(s[i].0, k, s[j - 1].0);
        } else {
            assert(t[i] == s[i - 1] && t[j] == s[j - 1]);
        }
    }
    assert forall|key: Seq<char>| #[trigger] has_key(t, key) == (has_key(s, key) || key == k) by {
        if has_key(s, key) {
            let i = choose|i: int| 0 <= i < s.len() && (#[trigger] s[i]).0 == key;
            if i < p {
                assert(t[i] == s[i]);
            } else {
                assert(t[i + 1] == s[i]);
            }
        }
        if key == k {
            assert(t[p].0 == k);
        }
        if has_key(t, key) {
            let i = choose|i: int| 0 <= i < t.len() && (#[trigger] t[i]).0 == key;
            if i < p {
                assert(t[i] == s[i]);
            } else if i > p {
                assert(t[i] == s[i - 1]);
            }
        }
    }
    assert forall|key: Seq<char>| #[trigger] has_key(t, key) implies value_at_key(t, key) == (
    if key == k {
        v
    } else {
        value_at_key(s, key)
    }) by {
        let i = choose|i: int| 0 <= i < t.len() && (#[trigger] t[i]).0 == key;
        lemma_entry_is_the_key(t, i);
        if i < p {
            assert(t[i] == s[i]);
            lemma_entry_is_the_key(s, i);
            lemma_key_lt_irreflexive(k);
        } else if i > p {
            assert(t[i] == s[i - 1]);
            lemma_entry_is_the_key(s, i - 1);
            lemma_key_lt_irreflexive(k);
        }
    }
}

/// Replacing the value at an existing key keeps the keys and updates the map.
proof fn lemma_replace_value(s: Seq<(Seq<char>, Seq<char>)>, p: int, v: Seq<char>)
    requires
        keys_increasing(s),
        0 <= p < s.len(),
    ensures
        keys_increasing(s.update(p, (s[p].0, v))),
        entries_map(s.update(p, (s[p].0, v))) =~= entries_map(s).insert(s[p].0, v),
{
    let k = s[p].0;
    let t = s.update(p, (k, v));
    assert forall|i: int, j: int| 0 <= i < j < t.len() implies key_lt(#[trigger] t[i].0, #[trigger] t[j].0) by {
        assert(t[i].0 == s[i].0 && t[j].0 == s[j].0);
    }
    assert forall|key: Seq<char>| #[trigger] has_key(t, key) == has_key(s, key) by {
        if has_key(s, key) {
            let i = choose|i: int| 0 <= i < s.len() && (#[trigger] s[i]).0 == key;
            assert(t[i].0 == s[i].0);
        }
        if has_key(t, key) {
            let i = choose|i: int| 0 <= i < t.len() && (#[trigger] t[i]).0 == key;
            assert(t[i].0 == s[i].0);
        }
    }
    lemma_entry_is_the_key(s, p);
    assert forall|key: Seq<char>| #[trigger] has_key(t, key) implies value_at_key(t, key) == (
    if key == k {
        v
    } else {
        value_at_key(s, key)
    }) by {
        let i = choose|i: int| 0 <= i < t.len() && (#[trigger] t[i]).0 == key;
        lemma_entry_is_the_key(t, i);
        if i != p {
            assert(t[i] == s[i]);
            lemma_entry_is_the_key(s, i);
            lemma_key_lt_irreflexive(s[i].0);
            if i < p {
                assert(key_lt(s[i].0, s[p].0));
            } else {
                assert(key_lt(s[p].0, s[i].0));
            }
        }
    }
}

/// Without its first entry, a sorted sequence stands for the map without the
/// first key.
proof fn lemma_drop_first_entry(s: Seq<(Seq<char>, Seq<char>)>)
    requires
        keys_increasing(s),
        s.len() > 0,
    ensures
        keys_increasing(s.drop_first()),
        entries_map(s.drop_first()) =~= entries_map(s).remove(s[0].0),
{
    let t = s.drop_first();
    assert forall|i: int, j: int| 0 <= i < j < t.len() implies key_lt(#[trigger] t[i].0, #[trigger] t[j].0) by {
        assert(t[i] == s[i + 1] && t[j] == s[j + 1]);
    }
    assert forall|key: Seq<char>| #[trigger] has_key(t, key) == (has_key(s, key) && key != s[0].0) by {
        if has_key(t, key) {
            let i = choose|i: int| 0 <= i < t.len() && (#[trigger] t[i]).0 == key;
            assert(s[i + 1] == t[i]);
            assert(key_lt(s[0].0, s[i + 1].0));
            lemma_key_lt_irreflexive(s[0].0);
        }
        if has_key(s, key) && key != s[0].0 {
            let i = choose|i: int| 0 <= i < s.len() && (#[trigger] s[i]).0 == key;
            assert(i != 0);
            assert(t[i - 1] == s[i]);
        }
    }
    assert forall|key: Seq<char>| #[trigger] has_key(t, key) implies value_at_key(t, key)
        == value_at_key(s, key) by {
        let i = choose|i: int| 0 <= i < t.len() && (#[trigger] t[i]).0 == key;
        lemma_entry_is_the_key(t, i);
        assert(s[i + 1] == t[i]);
        lemma_entry_is_the_key(s, i + 1);
    }
}

/// Sorted sequences that stand for the same map are equal.
proof fn lemma_sorted_entries_unique(s: Seq<(Seq<char>, Seq<char>)>, t: Seq<(Seq<char>, Seq<char>)>)
    requires
        keys_increasing(s),
        keys_increasing(t),
        entries_map(s) == entries_map(t),
    ensures
        s == t,
    decreases s.len(),
{
    if s.len() == 0 {
        if t.len() > 0 {
            assert(has_key(t, t[0].0));
            assert(entries_map(t).contains_key(t[0].0));
        }
        assert(s =~= t);
    } else {
        assert(has_key(s, s[0].0));
        assert(entries_map(s).contains_key(s[0].0));
        assert(has_key(t, s[0].0));
        let j = choose|j: int| 0 <= j < t.len() && (#[trigger] t[j]).0 == s[0].0;
        assert(t.len() > 0);
        assert(has_key(t, t[0].0));
        assert(entries_map(t).contains_key(t[0].0));
        assert(has_key(s, t[0].0));
        let i = choose|i: int| 0 <= i < s.len() && (#[trigger] s[i]).0 == t[0].0;
        lemma_key_lt_irreflexive(s[0].0);
        lemma_key_lt_irreflexive(t[0].0);
        if j > 0 {
            assert(key_lt(t[0].0, t[j].0));
            if i > 0 {
                assert(key_lt(s[0].0, s[i].0));
                lemma_key_lt_asymmetric(s[0].0, t[0].0);
            }
        }
        assert(t[0].0 == s[0].0);
        lemma_entry_is_the_key(s, 0);
        lemma_entry_is_the_key(t, 0);
        lemma_drop_first_entry(s);
        lemma_drop_first_entry(t);
        lemma_sorted_entries_unique(s.drop_first(), t.drop_first());
        assert(s =~= seq![s[0]] + s.drop_first());
        assert(t =~= seq![t[0]] + t.drop_first());
    }
}

/// Sorted entries stand for a finite map with one key per entry.
proof fn lemma_entries_map_size(s: Seq<(Seq<char>, Seq<char>)>)
    requires
        keys_increasing(s),
    ensures
        entries_map(s).dom().finite(),
        entries_map(s).dom().len() == s.len(),
    decreases s.len(),
{
    if s.len() == 0 {
        assert(entries_map(s).dom() =~= Set::<Seq<char>>::empty());
    } else {
        lemma_drop_first_entry(s);
        lemma_entries_map_size(s.drop_first());
        lemma_entry_is_the_key(s, 0);
        let k = s[0].0;
        assert(entries_map(s).dom() =~= entries_map(s.drop_first()).dom().insert(k));
        assert(!entries_map(s.drop_first()).dom().contains(k));
    }
}

/// Stored entries as character sequences.
pub open spec fn pairs_of(v: Seq<(String, String)>) -> Seq<(Seq<char>, Seq<char>)> {
    v.map_values(|e: (String, String)| (e.0@, e.1@))
}

/// A colour table: names (such as `editor.background`) to colour strings,
/// kept sorted by name. (vstd's `BTreeMap` specification states nothing for
/// `String` keys: its `insert` is specified only for key types that obey its
/// model of `Ord`; so the table keeps sorted entries of its own.)
pub struct ColorMap {
    entries: Vec<(String, String)>,
}

impl ColorMap {
    /// The entries, as character sequences, in their stored order.
    pub closed spec fn pairs(&self) -> Seq<(Seq<char>, Seq<char>)> {
        pairs_of(self.entries@)
    }

    /// The table is well formed: names strictly increase. Every table is.
    #[verifier::type_invariant]
    pub closed spec fn wf(&self) -> bool {
        keys_increasing(self.pairs())
    }
}

impl View for ColorMap {
    type V = Map<Seq<char>, Seq<char>>;

    open spec fn view(&self) -> Map<Seq<char>, Seq<char>> {
        entries_map(self.pairs())
    }
}

impl ColorMap {
    /// An empty table.
    pub fn new() -> (m: ColorMap)
        ensures
            m.wf(),
            m@ == Map::<Seq<char>, Seq<char>>::empty(),
            m.pairs().len() == 0,
            m@.dom().finite(),
            m@.dom().len() == 0,
    {
        let m = ColorMap { entries: Vec::new() };
        assert(m.pairs() =~= Seq::<(Seq<char>, Seq<char>)>::empty());
        assert(m@ =~= Map::<Seq<char>, Seq<char>>::empty());
        m
    }

    /// The number of entries.
    pub fn len(&self) -> (n: usize)
        ensures
            n == self.pairs().len(),
            self@.dom().finite(),
            n == self@.dom().len(),
    {
        proof {
            use_type_invariant(self);
            lemma_entries_map_size(self.pairs());
        }
        self.entries.len()
    }

    /// The stored entries, sorted by name.
    pub fn entries(&self) -> (r: &Vec<(String, String)>)
        ensures
            r@.map_values(|e: (String, String)| (e.0@, e.1@)) == self.pairs(),
            keys_increasing(r@.map_values(|e: (String, String)| (e.0@, e.1@))),
            entries_map(r@.map_values(|e: (String, String)| (e.0@, e.1@))) == self@,
    {
        proof {
            use_type_invariant(self);
        }
        &self.entries
    }

    /// Inserts `value` under `key`, replacing the value of a present key;
    /// the table gains an entry exactly when the key is new.
    pub fn insert(&mut self, key: String, value: String)
        ensures
            final(self).wf(),
            final(self)@ == old(self)@.insert(key@, value@),
            final(self).pairs().len() == old(self).pairs().len() + if old(self)@.contains_key(
                key@,
            ) {
                0int
            } else {
                1int
            },
            final(self)@.dom().finite(),
            final(self)@.dom().len() == old(self)@.dom().len() + if old(self)@.contains_key(
                key@,
            ) {
                0int
            } else {
                1int
            },
    {
        proof {
            use_type_invariant(&*self);
            lemma_entries_map_size(self.pairs());
        }
        proof {
            use_type_invariant(&*self);
        }
        let mut entries: Vec<(String, String)> = Vec::new();
        std::mem::swap(&mut entries, &mut self.entries);
        let n = entries.len();
        let ghost s = pairs_of(entries@);
        let mut p: usize = 0;
        loop
            invariant
                pairs_of(entries@) == s,
                keys_increasing(s),
                n == s.len(),
                p <= n,
                forall|q: int| 0 <= q < p ==> key_lt(#[trigger] s[q].0, key@),
            ensures
                p <= n,
                forall|q: int| 0 <= q < p ==> key_lt(#[trigger] s[q].0, key@),
                p < n ==> !key_lt(s[p as int].0, key@),
            decreases n - p,
        {
            if p == n {
                break;
            }
            assert(s[p as int].0 == entries@[p as int].0@);
            match compare_keys(entries[p].0.as_str(), key.as_str()) {
                KeyOrder::Less => {
                    p += 1;
                },
                _ => {
                    break;
                },
            }
        }
        let ghost kv = key@;
        let ghost vv = value@;
        if p < n {
            assert(s[p as int].0 == entries@[p as int].0@);
            if compare_keys(entries[p].0.as_str(), key.as_str()) == KeyOrder::Equal {
                entries.set(p, (key, value));
                proof {
                    lemma_replace_value(s, p as int, vv);
                    assert(pairs_of(entries@) =~= s.update(p as int, (s[p as int].0, vv)));
                    assert(has_key(s, kv));
                    lemma_entries_map_size(pairs_of(entries@));
                }
                self.entries = entries;
                return;
            }
            proof {
                assert forall|q: int| p <= q < s.len() implies key_lt(kv, #[trigger] s[q].0) by {
                    lemma_key_lt_total(kv, s[p as int].0);
                    if q > p {
                        lemma_key_lt_transitive(kv, s[p as int].0, s[q].0);
                    }
                }
            }
        }
        proof {
            lemma_key_lt_irreflexive(kv);
            assert forall|q: int| 0 <= q < s.len() implies (#[trigger] s[q]).0 != kv by {
                if q >= p {
                    assert(key_lt(kv, s[q].0));
                } else {
                    assert(key_lt(s[q].0, kv));
                }
            }
            assert(!has_key(s, kv));
        }
        entries.insert(p, (key, value));
        proof {
            lemma_insert_entry(s, p as int, kv, vv);
            assert(pairs_of(entries@) =~= s.insert(p as int, (kv, vv)));
            lemma_entries_map_size(pairs_of(entries@));
        }
        self.entries = entries;
    }

    /// The value stored under `key`, if any.
    pub fn get(&self, key: &str) -> (r: Option<&String>)
        ensures
            match r {
                Some(v) => self@.contains_key(key@) && v@ == self@[key@],
                None => !self@.contains_key(key@),
            },
    {
        proof {
            use_type_invariant(self);
        }
        let n = self.entries.len();
        let ghost s = self.pairs();
        let mut i: usize = 0;
        while i < n
            invariant
                self.pairs() == s,
                keys_increasing(s),
                n == s.len(),
                i <= n,
                forall|q: int| 0 <= q < i ==> (#[trigger] s[q]).0 != key@,
            decreases n - i,
        {
            assert(s[i as int] == (self.entries@[i as int].0@, self.entries@[i as int].1@));
            if compare_keys(self.entries[i].0.as_str(), key) == KeyOrder::Equal {
                proof {
                    lemma_entry_is_the_key(s, i as int);
                }
                return Some(&self.entries[i].1);
            }
            i += 1;
        }
        None
    }

    /// Inserts each of `items` in turn, as `BTreeMap::extend` does.
    pub fn extend(&mut self, items: Vec<(String, String)>)
        ensures
            final(self).wf(),
            final(self)@ == insert_all(
                old(self)@,
                items@.map_values(|e: (String, String)| (e.0@, e.1@)),
            ),
            final(self)@.dom().finite(),
    {
        proof {
            use_type_invariant(&*self);
        }
        let ghost start = self@;
        let ghost all = items@.map_values(|e: (String, String)| (e.0@, e.1@));
        let mut i: usize = 0;
        for item in it: items
            invariant
                self.wf(),
                all == items@.map_values(|e: (String, String)| (e.0@, e.1@)),
                it.seq() == items@,
                self@ == insert_all(start, all.take(it.index() as int)),
        {
            let ghost before = it.index();
            proof {
                assert(all.take(before + 1).drop_last() =~= all.take(before as int));
            }
            self.insert(item.0, item.1);
        }
        proof {
            assert(all.take(all.len() as int) =~= all);
            use_type_invariant(&*self);
            lemma_entries_map_size(self.pairs());
        }
    }
}

/// A table's order depends only on what it holds: two well-formed tables
/// with the same contents store the same entries in the same order (so the
/// entries come out sorted by name, however they were inserted). Every table
/// is well formed; `use_type_invariant` gives that of a table in hand.
pub proof fn lemma_entries_determined_by_contents(a: ColorMap, b: ColorMap)
    requires
        a.wf(),
        b.wf(),
        a@ == b@,
    ensures
        a.pairs() == b.pairs(),
{
    lemma_sorted_entries_unique(a.pairs(), b.pairs());
}

/// Inserting several entries in turn: the last entry with a key decides its
/// value, and a key that no entry has keeps what the map had.
pub proof fn lemma_insert_all_last_wins(
    m: Map<Seq<char>, Seq<char>>,
    s: Seq<(Seq<char>, Seq<char>)>,
    k: Seq<char>,
)
    ensures
        forall|i: int|
            0 <= i < s.len() && (#[trigger] s[i]).0 == k && (forall|j: int|
                i < j < s.len() ==> (#[trigger] s[j]).0 != k) ==> insert_all(m, s).contains_key(k)
                && insert_all(m, s)[k] == s[i].1,
        (forall|i: int| 0 <= i < s.len() ==> (#[trigger] s[i]).0 != k) ==> (insert_all(
            m,
            s,
        ).contains_key(k) == m.contains_key(k) && insert_all(m, s)[k] == m[k]),
    decreases s.len(),
{
    if s.len() > 0 {
        let init = s.drop_last();
        lemma_insert_all_last_wins(m, init, k);
        assert forall|i: int|
            0 <= i < s.len() && (#[trigger] s[i]).0 == k && (forall|j: int|
                i < j < s.len() ==> (#[trigger] s[j]).0 != k) implies insert_all(m, s).contains_key(k)
            && insert_all(m, s)[k] == s[i].1 by {
            if i < s.len() - 1 {
                assert(s[s.len() - 1].0 != k);
                assert(init[i] == s[i]);
                assert forall|j: int| i < j < init.len() implies (#[trigger] init[j]).0 != k by {
                    assert(init[j] == s[j]);
                }
            }
        }
        if forall|i: int| 0 <= i < s.len() ==> (#[trigger] s[i]).0 != k {
            assert forall|i: int| 0 <= i < init.len() implies (#[trigger] init[i]).0 != k by {
                assert(init[i] == s[i]);
            }
            assert(s[s.len() - 1].0 != k);
        }
    }
}

/// A read gives back what the last write wrote under its key, and a write
/// leaves every other key as it was.
pub proof fn lemma_read_after_insert(
    m: Map<Seq<char>, Seq<char>>,
    key: Seq<char>,
    value: Seq<char>,
    other: Seq<char>,
)
    ensures
        m.insert(key, value).contains_key(key),
        m.insert(key, value)[key] == value,
        other != key ==> m.insert(key, value).contains_key(other) == m.contains_key(other),
        other != key ==> m.insert(key, value)[other] == m[other],
{
}

} // verus!
