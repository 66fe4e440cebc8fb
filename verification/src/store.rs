use crate::date::Date;
use vstd::prelude::*;

verus! {

/// The map that a sequence of date/value entries stands for; a later entry
/// for the same date wins.
pub open spec fn map_seq<V>(s: Seq<(Date, V)>) -> Map<Date, V>
    decreases s.len(),
{
    if s.len() == 0 {
        Map::empty()
    } else {
        map_seq(s.drop_last()).insert(s.last().0, s.last().1)
    }
}

/// No date occurs twice among the entries.
pub open spec fn unique_dates<V>(s: Seq<(Date, V)>) -> bool {
    forall|i: int, j: int| 0 <= i < j < s.len() ==> s[i].0 != s[j].0
}

/// Per-date progress storage: a mapping from calendar date to a progress
/// value. Keys are unique and an entry, once inserted, is only ever updated,
/// never removed. Lookup is always by date, never by entry order.
#[derive(Debug)]
pub struct DateMap<V> {
    entries: Vec<(Date, V)>,
}

impl<V> View for DateMap<V> {
    type V = Map<Date, V>;

    closed spec fn view(&self) -> Map<Date, V> {
        map_seq(self.entries@)
    }
}

proof fn lemma_unique_drop_last<V>(s: Seq<(Date, V)>)
    requires
        unique_dates(s),
        s.len() > 0,
    ensures
        unique_dates(s.drop_last()),
{
    let t = s.drop_last();
    assert forall|i: int, j: int| 0 <= i < j < t.len() implies t[i].0 != t[j].0 by {
        assert(t[i] == s[i]);
        assert(t[j] == s[j]);
    }
}

proof fn lemma_map_seq_contains<V>(s: Seq<(Date, V)>, d: Date)
    ensures
        map_seq(s).contains_key(d) <==> exists|i: int| 0 <= i < s.len() && s[i].0 == d,
    decreases s.len(),
{
    if s.len() > 0 {
        let t = s.drop_last();
        lemma_map_seq_contains(t, d);
        if s.last().0 == d {
            assert(0 <= s.len() - 1 < s.len() && s[s.len() - 1].0 == d);
        } else {
            if map_seq(s).contains_key(d) {
                let i = choose|i: int| 0 <= i < t.len() && t[i].0 == d;
                assert(s[i].0 == d);
            }
            if exists|i: int| 0 <= i < s.len() && s[i].0 == d {
                let i = choose|i: int| 0 <= i < s.len() && s[i].0 == d;
                assert(i < s.len() - 1);
                assert(t[i].0 == d);
            }
        }
    }
}

proof fn lemma_map_seq_get<V>(s: Seq<(Date, V)>, i: int)
    requires
        unique_dates(s),
        0 <= i < s.len(),
    ensures
        map_seq(s).contains_key(s[i].0),
        map_seq(s)[s[i].0] == s[i].1,
    decreases s.len(),
{
    if i == s.len() - 1 {
    } else {
        let t = s.drop_last();
        lemma_unique_drop_last(s);
        assert(t[i] == s[i]);
        lemma_map_seq_get(t, i);
        assert(s.last().0 != s[i].0);
    }
}

proof fn lemma_map_seq_update<V>(s: Seq<(Date, V)>, i: int, v: V)
    requires
        unique_dates(s),
        0 <= i < s.len(),
    ensures
        map_seq(s.update(i, (s[i].0, v))) == map_seq(s).insert(s[i].0, v),
    decreases s.len(),
{
    let s2 = s.update(i, (s[i].0, v));
    if i == s.len() - 1 {
        assert(s2.drop_last() =~= s.drop_last());
        assert(s2.last() == (s[i].0, v));
        assert(map_seq(s.drop_last()).insert(s[i].0, v) =~= map_seq(s).insert(s[i].0, v));
    } else {
        let t = s.drop_last();
        lemma_unique_drop_last(s);
        assert(t[i] == s[i]);
        lemma_map_seq_update(t, i, v);
        assert(s2.drop_last() =~= t.update(i, (t[i].0, v)));
        assert(s2.last() == s.last());
        assert(s.last().0 != s[i].0);
        assert(map_seq(t).insert(s[i].0, v).insert(s.last().0, s.last().1) =~= map_seq(t).insert(
            s.last().0,
            s.last().1,
        ).insert(s[i].0, v));
    }
}

/// Mapping every entry's value and then building the map is the same as
/// building the map and then mapping its values.
pub proof fn lemma_map_seq_map_values<A, B>(
    s: Seq<(Date, A)>,
    t: Seq<(Date, B)>,
    f: spec_fn(A) -> B,
)
    requires
        t.len() == s.len(),
        forall|i: int| 0 <= i < s.len() ==> t[i] == (s[i].0, f(s[i].1)),
    ensures
        map_seq(t) == map_seq(s).map_values(f),
    decreases s.len(),
{
    if s.len() == 0 {
        assert(map_seq(t) =~= map_seq(s).map_values(f));
    } else {
        let s1 = s.drop_last();
        let t1 = t.drop_last();
        assert forall|i: int| 0 <= i < s1.len() implies t1[i] == (s1[i].0, f(s1[i].1)) by {
            assert(t1[i] == t[i]);
            assert(s1[i] == s[i]);
        }
        lemma_map_seq_map_values(s1, t1, f);
        assert(t.last() == (s.last().0, f(s.last().1)));
        assert(map_seq(t) =~= map_seq(s).map_values(f));
    }
}

impl<V> DateMap<V> {
    #[verifier::type_invariant]
    spec fn wf(self) -> bool {
        unique_dates(self.entries@)
    }
}

impl<V: Copy> DateMap<V> {
    /// An empty store.
    pub fn new() -> (r: DateMap<V>)
        ensures
            r@ == Map::<Date, V>::empty(),
    {
        DateMap { entries: Vec::new() }
    }

    /// Looks a date up; `None` means the date was never tracked, which is
    /// distinct from a stored zero or false value.
    pub fn get(&self, date: Date) -> (r: Option<V>)
        ensures
            r == if self@.contains_key(date) {
                Some(self@[date])
            } else {
                None::<V>
            },
    {
        proof {
            use_type_invariant(&*self);
        }
        let n = self.entries.len();
        let mut idx: usize = 0;
        while idx < n
            invariant
                n == self.entries@.len(),
                idx <= n,
                unique_dates(self.entries@),
                self@ == map_seq(self.entries@),
                forall|j: int| 0 <= j < idx ==> self.entries@[j].0 != date,
            decreases n - idx,
        {
            if self.entries[idx].0 == date {
                proof {
                    lemma_map_seq_get(self.entries@, idx as int);
                }
                return Some(self.entries[idx].1);
            }
            idx += 1;
        }
        proof {
            lemma_map_seq_contains(self.entries@, date);
        }
        None
    }

    /// Inserts or overwrites: an existing entry for the date is replaced
    /// unconditionally; an absent date gains a fresh entry.
    pub fn upsert(&mut self, date: Date, value: V)
        ensures
            final(self)@ == old(self)@.insert(date, value),
    {
        proof {
            use_type_invariant(&*self);
        }
        let mut entries: Vec<(Date, V)> = Vec::new();
        core::mem::swap(&mut entries, &mut self.entries);
        let ghost s0 = entries@;
        let n = entries.len();
        let mut idx: usize = 0;
        while idx < n
            invariant
                n == entries@.len(),
                idx <= n,
                entries@ == s0,
                unique_dates(s0),
                old(self)@ == map_seq(s0),
                forall|j: int| 0 <= j < idx ==> s0[j].0 != date,
            decreases n - idx,
        {
            if entries[idx].0 == date {
                entries[idx].1 = value;
                proof {
                    assert(entries@ =~= s0.update(idx as int, (s0[idx as int].0, value)));
                    lemma_map_seq_update(s0, idx as int, value);
                    assert forall|a: int, b: int|
                        0 <= a < b < entries@.len() implies entries@[a].0 != entries@[b].0 by {
                        assert(entries@[a].0 == s0[a].0);
                        assert(entries@[b].0 == s0[b].0);
                    }
                }
                self.entries = entries;
                return ;
            }
            idx += 1;
        }
        entries.push((date, value));
        proof {
            assert(entries@.drop_last() =~= s0);
            assert(entries@.last() == (date, value));
            assert forall|a: int, b: int|
                0 <= a < b < entries@.len() implies entries@[a].0 != entries@[b].0 by {
                if b < entries@.len() - 1 {
                    assert(entries@[a].0 == s0[a].0);
                    assert(entries@[b].0 == s0[b].0);
                } else {
                    assert(entries@[a].0 == s0[a].0);
                    assert(s0[a].0 != date);
                }
            }
        }
        self.entries = entries;
    }

    /// The stored entries as a list of date/value pairs, one per date.
    pub fn to_entries(&self) -> (r: Vec<(Date, V)>)
        ensures
            unique_dates(r@),
            map_seq(r@) == self@,
    {
        proof {
            use_type_invariant(&*self);
        }
        let n = self.entries.len();
        let mut r: Vec<(Date, V)> = Vec::new();
        let mut idx: usize = 0;
        while idx < n
            invariant
                n == self.entries@.len(),
                idx <= n,
                r@ == self.entries@.subrange(0, idx as int),
            decreases n - idx,
        {
            r.push((self.entries[idx].0, self.entries[idx].1));
            proof {
                assert(r@ =~= self.entries@.subrange(0, idx as int + 1));
            }
            idx += 1;
        }
        proof {
            assert(r@ =~= self.entries@);
        }
        r
    }

    /// Rebuilds a store from a list of date/value pairs; a later pair for the
    /// same date overrides an earlier one.
    pub fn from_entries(list: &Vec<(Date, V)>) -> (r: DateMap<V>)
        ensures
            r@ == map_seq(list@),
    {
        let mut r = DateMap::<V>::new();
        let n = list.len();
        let mut idx: usize = 0;
        while idx < n
            invariant
                n == list@.len(),
                idx <= n,
                r@ == map_seq(list@.subrange(0, idx as int)),
            decreases n - idx,
        {
            r.upsert(list[idx].0, list[idx].1);
            proof {
                let sub1 = list@.subrange(0, idx as int + 1);
                assert(sub1.drop_last() =~= list@.subrange(0, idx as int));
                assert(sub1.last() == list@[idx as int]);
            }
            idx += 1;
        }
        proof {
            assert(list@.subrange(0, n as int) =~= list@);
        }
        r
    }
}

} // verus!
