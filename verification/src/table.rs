use vstd::prelude::*;

verus! {

/// One row of a [`Table`]: the address a record lives at, and the record.
#[derive(Clone, Copy, Debug)]
pub struct Entry<R> {
    pub address: u64,
    pub record: R,
}

/// The map described by a sequence of entries. When an address occurs
/// twice the later entry wins, but a well-formed table never holds two
/// entries with one address.
pub open spec fn entries_map<R>(s: Seq<Entry<R>>) -> Map<u64, R>
    decreases s.len(),
{
    if s.len() == 0 {
        Map::empty()
    } else {
        entries_map(s.drop_last()).insert(s.last().address, s.last().record)
    }
}

/// No two entries share an address.
pub open spec fn unique_addresses<R>(s: Seq<Entry<R>>) -> bool {
    forall|i: int, j: int| 0 <= i < j < s.len() ==> s[i].address != s[j].address
}

/// An address is in the map exactly when some entry carries it.
pub proof fn lemma_entries_map_contains<R>(s: Seq<Entry<R>>, a: u64)
    ensures
        entries_map(s).contains_key(a) <==> exists|i: int| 0 <= i < s.len() && s[i].address == a,
    decreases s.len(),
{
    if s.len() == 0 {
    } else {
        lemma_entries_map_contains(s.drop_last(), a);
        if s.last().address == a {
            assert(s[s.len() - 1].address == a);
        } else {
            if entries_map(s).contains_key(a) {
                let i = choose|i: int|
                    0 <= i < s.drop_last().len() && s.drop_last()[i].address == a;
                assert(s[i].address == a);
            }
            if exists|i: int| 0 <= i < s.len() && s[i].address == a {
                let i = choose|i: int| 0 <= i < s.len() && s[i].address == a;
                assert(s.drop_last()[i].address == a);
            }
        }
    }
}

/// Dropping the last entry keeps the addresses unique.
proof fn lemma_unique_drop_last<R>(s: Seq<Entry<R>>)
    requires
        unique_addresses(s),
        s.len() > 0,
    ensures
        unique_addresses(s.drop_last()),
{
    assert forall|i: int, j: int|
        0 <= i < j < s.drop_last().len() implies s.drop_last()[i].address
        != s.drop_last()[j].address by {
        assert(s[i].address != s[j].address);
    }
}

/// In a well-formed table the map gives each entry's address that entry's record.
pub proof fn lemma_entries_map_index<R>(s: Seq<Entry<R>>, i: int)
    requires
        unique_addresses(s),
        0 <= i < s.len(),
    ensures
        entries_map(s).contains_key(s[i].address),
        entries_map(s)[s[i].address] == s[i].record,
    decreases s.len(),
{
    if i == s.len() - 1 {
    } else {
        lemma_unique_drop_last(s);
        lemma_entries_map_index(s.drop_last(), i);
        assert(s[i].address != s[s.len() - 1].address);
    }
}

/// Replacing the record of one entry replaces it in the map.
pub proof fn lemma_entries_map_update<R>(s: Seq<Entry<R>>, i: int, r: R)
    requires
        unique_addresses(s),
        0 <= i < s.len(),
    ensures
        entries_map(s.update(i, Entry { address: s[i].address, record: r })) == entries_map(
            s,
        ).insert(s[i].address, r),
    decreases s.len(),
{
    let e = Entry { address: s[i].address, record: r };
    let t = s.update(i, e);
    if i == s.len() - 1 {
        assert(t.drop_last() =~= s.drop_last());
        assert(t.last() == e);
        assert(entries_map(t) =~= entries_map(s).insert(s[i].address, r));
    } else {
        assert(t.drop_last() =~= s.drop_last().update(i, e));
        lemma_unique_drop_last(s);
        lemma_entries_map_update(s.drop_last(), i, r);
        assert(t.last() == s.last());
        assert(s[i].address != s[s.len() - 1].address);
        assert(entries_map(t) =~= entries_map(s).insert(s[i].address, r));
    }
}

/// A flat store of records keyed by address, seen in specifications as a
/// [`Map`] from addresses to records.
#[derive(Clone, Debug)]
pub struct Table<R> {
    pub entries: Vec<Entry<R>>,
}

impl<R> View for Table<R> {
    type V = Map<u64, R>;

    open spec fn view(&self) -> Map<u64, R> {
        entries_map(self.entries@)
    }
}

impl<R: Copy> Table<R> {
    /// Each address appears in at most one entry.
    pub open spec fn wf(&self) -> bool {
        unique_addresses(self.entries@)
    }

    /// An empty table.
    pub fn new() -> (t: Table<R>)
        ensures
            t.wf(),
            t@ == Map::<u64, R>::empty(),
    {
        Table { entries: Vec::new() }
    }

    /// The record stored at `address`, if any.
    pub fn get(&self, address: u64) -> (r: Option<R>)
        requires
            self.wf(),
        ensures
            r == if self@.contains_key(address) {
                Some(self@[address])
            } else {
                None::<R>
            },
    {
        let n = self.entries.len();
        let mut i: usize = 0;
        while i < n
            invariant
                self.wf(),
                n == self.entries@.len(),
                0 <= i <= n,
                forall|j: int| 0 <= j < i ==> self.entries@[j].address != address,
            decreases n - i,
        {
            if self.entries[i].address == address {
                proof {
                    lemma_entries_map_index(self.entries@, i as int);
                }
                return Some(self.entries[i].record);
            }
            i += 1;
        }
        proof {
            lemma_entries_map_contains(self.entries@, address);
        }
        None
    }

    /// Whether any record is stored at `address`.
    pub fn contains(&self, address: u64) -> (r: bool)
        requires
            self.wf(),
        ensures
            r == self@.contains_key(address),
    {
        self.get(address).is_some()
    }

    /// Stores a record at a fresh address.
    pub fn insert(&mut self, address: u64, record: R)
        requires
            old(self).wf(),
            !old(self)@.contains_key(address),
        ensures
            final(self).wf(),
            final(self)@ == old(self)@.insert(address, record),
    {
        proof {
            lemma_entries_map_contains(self.entries@, address);
        }
        self.entries.push(Entry { address, record });
        proof {
            assert(self.entries@.drop_last() =~= old(self).entries@);
            assert forall|i: int, j: int|
                0 <= i < j < self.entries@.len() implies self.entries@[i].address
                != self.entries@[j].address by {
                if j < self.entries@.len() - 1 {
                    assert(old(self).entries@[i].address != old(self).entries@[j].address);
                } else {
                    assert(self.entries@[i] == old(self).entries@[i]);
                }
            }
        }
    }

    /// Replaces the record at an occupied address.
    pub fn set(&mut self, address: u64, record: R)
        requires
            old(self).wf(),
            old(self)@.contains_key(address),
        ensures
            final(self).wf(),
            final(self)@ == old(self)@.insert(address, record),
    {
        proof {
            lemma_entries_map_contains(self.entries@, address);
        }
        let n = self.entries.len();
        let mut i: usize = 0;
        while i < n
            invariant
                self == old(self),
                self.wf(),
                n == self.entries@.len(),
                0 <= i <= n,
                exists|j: int| 0 <= j < n && self.entries@[j].address == address,
                forall|j: int| 0 <= j < i ==> self.entries@[j].address != address,
            decreases n - i,
        {
            if self.entries[i].address == address {
                proof {
                    lemma_entries_map_update(self.entries@, i as int, record);
                }
                self.entries[i] = Entry { address, record };
                proof {
                    assert forall|p: int, q: int|
                        0 <= p < q < self.entries@.len() implies self.entries@[p].address
                        != self.entries@[q].address by {
                        assert(old(self).entries@[p].address != old(self).entries@[q].address);
                    }
                }
                return;
            }
            i += 1;
        }
        proof {
            // The precondition put the address in the map, so the scan
            // cannot run off the end.
            assert(false);
        }
    }
}

} // verus!
