use vstd::prelude::*;

verus! {

/// Values keyed by name, where storing a name again replaces its value; the
/// order in which names were first stored is kept.
pub struct NamedTable<T> {
    entries: Vec<(String, T)>,
}

/// The map that a list of (name, value) entries stands for; an earlier entry
/// wins over a later one with the same name.
pub open spec fn entries_map<T>(s: Seq<(Seq<char>, T)>) -> Map<Seq<char>, T>
    decreases s.len(),
{
    if s.len() == 0 {
        Map::empty()
    } else {
        entries_map(s.drop_first()).insert(s[0].0, s[0].1)
    }
}

/// No name occurs twice among the entries.
pub open spec fn distinct_names<T>(s: Seq<(Seq<char>, T)>) -> bool {
    forall|i: int, j: int| 0 <= i < j < s.len() ==> s[i].0 != s[j].0
}

/// The map after storing each (name, value) pair in turn; a later pair
/// replaces an earlier one with the same name.
pub open spec fn stored_all<T>(m: Map<Seq<char>, T>, items: Seq<(Seq<char>, T)>) -> Map<Seq<char>, T>
    decreases items.len(),
{
    if items.len() == 0 {
        m
    } else {
        stored_all(m, items.drop_last()).insert(items.last().0, items.last().1)
    }
}

/// The names and values of a list of entries, as plain values.
pub open spec fn entry_views<T>(s: Seq<(String, T)>) -> Seq<(Seq<char>, T)> {
    s.map_values(|e: (String, T)| (e.0@, e.1))
}

proof fn lemma_entries_map_first<T>(s: Seq<(Seq<char>, T)>, name: Seq<char>, i: int)
    requires
        0 <= i <= s.len(),
        forall|j: int| 0 <= j < i ==> #[trigger] s[j].0 != name,
    ensures
        i == s.len() ==> !entries_map(s).contains_key(name),
        i < s.len() && s[i].0 == name ==> entries_map(s).contains_key(name) && entries_map(s)[name]
            == s[i].1,
    decreases s.len(),
{
    if s.len() > 0 && i > 0 {
        let t = s.drop_first();
        assert forall|j: int| 0 <= j < i - 1 implies #[trigger] t[j].0 != name by {
            assert(t[j] == s[j + 1]);
        }
        lemma_entries_map_first(t, name, i - 1);
        assert(s[0].0 != name);
        if i < s.len() {
            assert(t[i - 1] == s[i]);
        }
    }
}

proof fn lemma_entries_map_update<T>(s: Seq<(Seq<char>, T)>, i: int, e: (Seq<char>, T))
    requires
        0 <= i < s.len(),
        e.0 == s[i].0,
        forall|j: int| 0 <= j < i ==> #[trigger] s[j].0 != e.0,
    ensures
        entries_map(s.update(i, e)) == entries_map(s).insert(e.0, e.1),
    decreases s.len(),
{
    let u = s.update(i, e);
    if i == 0 {
        assert(u.drop_first() =~= s.drop_first());
        assert(entries_map(u) =~= entries_map(s).insert(e.0, e.1));
    } else {
        let t = s.drop_first();
        assert(u.drop_first() =~= t.update(i - 1, e));
        assert forall|j: int| 0 <= j < i - 1 implies #[trigger] t[j].0 != e.0 by {
            assert(t[j] == s[j + 1]);
        }
        lemma_entries_map_update(t, i - 1, e);
        assert(s[0].0 != e.0);
        assert(entries_map(u) =~= entries_map(s).insert(e.0, e.1));
    }
}

proof fn lemma_entries_map_push<T>(s: Seq<(Seq<char>, T)>, e: (Seq<char>, T))
    requires
        !entries_map(s).contains_key(e.0),
    ensures
        entries_map(s.push(e)) == entries_map(s).insert(e.0, e.1),
    decreases s.len(),
{
    if s.len() == 0 {
        assert(s.push(e).drop_first() =~= Seq::<(Seq<char>, T)>::empty());
        assert(entries_map(Seq::<(Seq<char>, T)>::empty()) == Map::<Seq<char>, T>::empty());
        assert(s.push(e)[0] == e);
        assert(entries_map(s.push(e)) =~= entries_map(s).insert(e.0, e.1));
    } else {
        let t = s.drop_first();
        assert(s.push(e).drop_first() =~= t.push(e));
        assert(s[0].0 != e.0);
        assert(!entries_map(t).contains_key(e.0));
        lemma_entries_map_push(t, e);
        assert(entries_map(s.push(e)) =~= entries_map(s).insert(e.0, e.1));
    }
}

/// With distinct names, each entry is what the map holds for its name.
pub proof fn lemma_distinct_entry<T>(s: Seq<(Seq<char>, T)>, i: int)
    requires
        distinct_names(s),
        0 <= i < s.len(),
    ensures
        entries_map(s).contains_key(s[i].0),
        entries_map(s)[s[i].0] == s[i].1,
{
    assert forall|j: int| 0 <= j < i implies #[trigger] s[j].0 != s[i].0 by {}
    lemma_entries_map_first(s, s[i].0, i);
}

/// Every name that the map holds is the name of some entry.
pub proof fn lemma_listed_name<T>(s: Seq<(Seq<char>, T)>, name: Seq<char>)
    requires
        entries_map(s).contains_key(name),
    ensures
        exists|j: int| 0 <= j < s.len() && #[trigger] s[j].0 == name,
{
    if !(exists|j: int| 0 <= j < s.len() && #[trigger] s[j].0 == name) {
        assert forall|j: int| 0 <= j < s.len() implies #[trigger] s[j].0 != name by {}
        lemma_entries_map_first(s, name, s.len() as int);
    }
}

impl<T> View for NamedTable<T> {
    type V = Map<Seq<char>, T>;

    closed spec fn view(&self) -> Map<Seq<char>, T> {
        entries_map(entry_views(self.entries@))
    }
}

impl<T> NamedTable<T> {
    /// An empty table.
    pub fn new() -> (t: NamedTable<T>)
        ensures
            t@ == Map::<Seq<char>, T>::empty(),
            t.entries_view() == Seq::<(Seq<char>, T)>::empty(),
    {
        let t = NamedTable { entries: Vec::new() };
        assert(t.entries_view() =~= Seq::<(Seq<char>, T)>::empty());
        t
    }

    /// Number of names stored.
    pub fn len(&self) -> (n: usize)
        ensures
            n == self.entries_view().len(),
    {
        self.entries.len()
    }

    /// The stored names with their values, in the order that the names were
    /// first stored.
    pub closed spec fn entries_view(&self) -> Seq<(Seq<char>, T)> {
        entry_views(self.entries@)
    }

    /// The table is the map of its entries.
    pub proof fn lemma_view_is_entries(&self)
        ensures
            self@ == entries_map(self.entries_view()),
    {
    }

    fn find(&self, name: &String) -> (r: Option<usize>)
        ensures
            r is None ==> !self@.contains_key(name@),
            r matches Some(i) ==> i < self.entries@.len() && self.entries_view()[i as int].0 == name@
                && forall|j: int| 0 <= j < i ==> #[trigger] self.entries_view()[j].0 != name@,
    {
        let mut i: usize = 0;
        while i < self.entries.len()
            invariant
                i <= self.entries@.len(),
                forall|j: int| 0 <= j < i ==> #[trigger] self.entries_view()[j].0 != name@,
            decreases self.entries.len() - i,
        {
            if self.entries[i].0 == *name {
                return Some(i);
            }
            i += 1;
        }
        proof {
            lemma_entries_map_first(self.entries_view(), name@, i as int);
        }
        None
    }

    /// The `i`-th entry, in the order that the names were first stored.
    pub fn entry(&self, i: usize) -> (e: (&String, &T))
        requires
            i < self.entries_view().len(),
        ensures
            e.0@ == self.entries_view()[i as int].0,
            *e.1 == self.entries_view()[i as int].1,
    {
        (&self.entries[i].0, &self.entries[i].1)
    }

    /// The value stored under a name, if any.
    pub fn get(&self, name: &String) -> (r: Option<&T>)
        ensures
            r is None <==> !self@.contains_key(name@),
            r matches Some(v) ==> *v == self@[name@],
    {
        match self.find(name) {
            None => None,
            Some(i) => {
                proof {
                    lemma_entries_map_first(self.entries_view(), name@, i as int);
                }
                Some(&self.entries[i].1)
            },
        }
    }

    /// Stores a value under a name, replacing the value that the name had.
    pub fn insert(&mut self, name: String, value: T)
        ensures
            final(self)@ == old(self)@.insert(name@, value),
            distinct_names(old(self).entries_view()) ==> distinct_names(final(self).entries_view()),
    {
        let ghost ev = self.entries_view();
        match self.find(&name) {
            Some(i) => {
                proof {
                    lemma_entries_map_update(ev, i as int, (name@, value));
                }
                self.entries.set(i, (name, value));
                proof {
                    assert(self.entries_view() =~= ev.update(i as int, (name@, value)));
                }
            },
            None => {
                proof {
                    lemma_entries_map_push(ev, (name@, value));
                    if distinct_names(ev) {
                        assert forall|j: int| 0 <= j < ev.len() implies #[trigger] ev[j].0 != name@ by {
                            if ev[j].0 == name@ {
                                lemma_entries_map_first(ev, name@, j);
                            }
                        }
                    }
                }
                self.entries.push((name, value));
                proof {
                    assert(self.entries_view() =~= ev.push((name@, value)));
                }
            },
        }
    }

    /// Stores each (name, value) pair in turn.
    pub fn insert_all(&mut self, items: Vec<(String, T)>)
        ensures
            final(self)@ == stored_all(old(self)@, entry_views(items@)),
            distinct_names(old(self).entries_view()) ==> distinct_names(final(self).entries_view()),
    {
        let ghost d0 = distinct_names(self.entries_view());
        let ghost start = self@;
        let ghost all = entry_views(items@);
        let mut items = items;
        let mut rest: Vec<(String, T)> = Vec::new();
        // Reverse the items so that they can be taken from the end in order.
        while items.len() > 0
            invariant
                entry_views(items@) + entry_views(rest@).reverse() == all,
            decreases items.len(),
        {
            let ghost before_items = items@;
            let ghost before_rest = rest@;
            let e = items.pop().unwrap();
            rest.push(e);
            proof {
                assert(entry_views(before_items) =~= entry_views(items@).push((e.0@, e.1)));
                assert(entry_views(rest@) =~= entry_views(before_rest).push((e.0@, e.1)));
                assert(entry_views(rest@).reverse() =~= seq![(e.0@, e.1)] + entry_views(
                    before_rest,
                ).reverse());
                assert(entry_views(items@) + entry_views(rest@).reverse() =~= entry_views(
                    before_items,
                ) + entry_views(before_rest).reverse());
            }
        }
        proof {
            assert(entry_views(items@) =~= Seq::<(Seq<char>, T)>::empty());
            assert(entry_views(rest@).reverse() =~= all);
        }
        let ghost n = all.len();
        while rest.len() > 0
            invariant
                n == all.len(),
                rest@.len() <= n,
                entry_views(rest@).reverse() =~= all.subrange(n - rest@.len(), n as int),
                self@ == stored_all(start, all.take(n - rest@.len())),
                d0 ==> distinct_names(self.entries_view()),
            decreases rest.len(),
        {
            let ghost k = n - rest@.len();
            let ghost before_rest = rest@;
            let e = rest.pop().unwrap();
            proof {
                assert(entry_views(before_rest) =~= entry_views(rest@).push((e.0@, e.1)));
                assert(entry_views(before_rest).reverse()[0] == (e.0@, e.1));
                assert(all[k] == (e.0@, e.1));
                assert(entry_views(rest@).reverse() =~= entry_views(before_rest).reverse().drop_first());
                assert(all.take(k + 1).drop_last() =~= all.take(k));
            }
            self.insert(e.0, e.1);
        }
        proof {
            assert(all.take(n as int) =~= all);
        }
    }

    /// The stored names with their values, in the order that the names were
    /// first stored.
    pub fn into_entries(self) -> (entries: Vec<(String, T)>)
        ensures
            entry_views(entries@) == self.entries_view(),
    {
        self.entries
    }

    /// The stored values, in the order that their names were first stored.
    pub fn into_values(self) -> (vals: Vec<T>)
        ensures
            vals@ == self.entries_view().map_values(|e: (Seq<char>, T)| e.1),
    {
        let mut entries = self.entries;
        let ghost orig = entries@;
        let mut rev: Vec<T> = Vec::new();
        while entries.len() > 0
            invariant
                entries@ == orig.take(entries@.len() as int),
                entries@.len() <= orig.len(),
                rev@.len() == orig.len() - entries@.len(),
                forall|i: int| 0 <= i < rev@.len() ==> #[trigger] rev@[i] == orig[orig.len() - 1 - i].1,
            decreases entries.len(),
        {
            let ghost before = entries@;
            let e = entries.pop().unwrap();
            proof {
                assert(entries@ =~= orig.take(entries@.len() as int));
            }
            rev.push(e.1);
        }
        let mut vals: Vec<T> = Vec::new();
        while rev.len() > 0
            invariant
                rev@.len() + vals@.len() == orig.len(),
                forall|i: int| 0 <= i < rev@.len() ==> #[trigger] rev@[i] == orig[orig.len() - 1 - i].1,
                forall|i: int| 0 <= i < vals@.len() ==> #[trigger] vals@[i] == orig[i].1,
            decreases rev.len(),
        {
            let v = rev.pop().unwrap();
            vals.push(v);
        }
        assert(vals@ =~= self.entries_view().map_values(|e: (Seq<char>, T)| e.1));
        vals
    }
}

} // verus!
