//! An in-process key/value store with the semantics the session manager
//! expects of its backing store; the same commands run against an outside
//! store in production.

use vstd::prelude::*;

verus! {

/// The value of the latest entry for `key`, in entries kept oldest first.
pub open spec fn lookup<V>(entries: Seq<(Seq<char>, V)>, key: Seq<char>) -> Option<V>
    decreases entries.len(),
{
    if entries.len() == 0 {
        None
    } else if entries.last().0 == key {
        Some(entries.last().1)
    } else {
        lookup(entries.drop_last(), key)
    }
}

/// The entries without those for `key`, in order.
pub open spec fn without<V>(entries: Seq<(Seq<char>, V)>, key: Seq<char>) -> Seq<(Seq<char>, V)>
    decreases entries.len(),
{
    if entries.len() == 0 {
        entries
    } else if entries.last().0 == key {
        without(entries.drop_last(), key)
    } else {
        without(entries.drop_last(), key).push(entries.last())
    }
}

/// The map from key to value that the entries describe.
pub open spec fn entries_map<V>(entries: Seq<(Seq<char>, V)>) -> Map<Seq<char>, V> {
    Map::new(|k: Seq<char>| lookup(entries, k) is Some, |k: Seq<char>| lookup(entries, k)->0)
}

proof fn lemma_lookup_without<V>(entries: Seq<(Seq<char>, V)>, key: Seq<char>, k: Seq<char>)
    ensures
        lookup(without(entries, key), k) == if k == key { None } else { lookup(entries, k) },
    decreases entries.len(),
{
    if entries.len() > 0 {
        lemma_lookup_without(entries.drop_last(), key, k);
        if entries.last().0 != key {
            let w = without(entries.drop_last(), key).push(entries.last());
            assert(w.drop_last() =~= without(entries.drop_last(), key));
        }
    }
}

proof fn lemma_map_without<V>(entries: Seq<(Seq<char>, V)>, key: Seq<char>)
    ensures
        entries_map(without(entries, key)) == entries_map(entries).remove(key),
{
    assert forall|k: Seq<char>| #[trigger] lookup(without(entries, key), k) == if k == key { None } else { lookup(entries, k) } by {
        lemma_lookup_without(entries, key, k);
    }
    assert(entries_map(without(entries, key)) =~= entries_map(entries).remove(key));
}

/// The value of the latest pair named `key`.
pub fn find_latest(entries: &Vec<(String, String)>, key: &String) -> (r: Option<String>)
    ensures
        match r {
            Some(v) => lookup(entries.deep_view(), key@) == Some(v@),
            None => lookup(entries.deep_view(), key@) is None,
        },
{
    let ghost e = entries.deep_view();
    let mut i: usize = entries.len();
    assert(e.subrange(0, i as int) =~= e);
    while i > 0
        invariant
            i <= entries.len(),
            e == entries.deep_view(),
            lookup(e, key@) == lookup(e.subrange(0, i as int), key@),
        decreases i,
    {
        let ghost pre = e.subrange(0, i as int);
        assert(pre.drop_last() =~= e.subrange(0, i - 1));
        if entries[i - 1].0 == *key {
            return Some(entries[i - 1].1.clone());
        }
        i = i - 1;
    }
    None
}

/// A command against the backing store.
#[derive(Debug)]
pub enum StoreCommand {
    /// Read the value of a key.
    Get { key: String },
    /// Write a key that expires after `ttl` seconds.
    SetEx { key: String, value: String, ttl: u64 },
    /// Remove a key, if present.
    Delete { key: String },
}

/// A key/value store held in memory. Each key keeps the time to live, in
/// seconds, that it was written with; having no clock, the store never
/// drops a key by itself.
#[derive(Debug)]
pub struct MemoryStore {
    pub entries: Vec<(String, (String, u64))>,
}

impl View for MemoryStore {
    /// Each key's value and time to live.
    type V = Map<Seq<char>, (Seq<char>, u64)>;

    open spec fn view(&self) -> Map<Seq<char>, (Seq<char>, u64)> {
        entries_map(self.entries.deep_view())
    }
}

impl MemoryStore {
    pub fn new() -> (r: MemoryStore)
        ensures
            r@ == Map::<Seq<char>, (Seq<char>, u64)>::empty(),
    {
        let r = MemoryStore { entries: Vec::new() };
        assert(r.entries.deep_view() =~= Seq::<(Seq<char>, (Seq<char>, u64))>::empty());
        assert(r@ =~= Map::<Seq<char>, (Seq<char>, u64)>::empty());
        r
    }

    /// The value of a key.
    pub fn get(&self, key: &String) -> (r: Option<String>)
        ensures
            (r is Some) == self@.contains_key(key@),
            r matches Some(v) ==> v@ == self@[key@].0,
    {
        let ghost e = self.entries.deep_view();
        let mut i: usize = self.entries.len();
        assert(e.subrange(0, i as int) =~= e);
        while i > 0
            invariant
                i <= self.entries.len(),
                e == self.entries.deep_view(),
                lookup(e, key@) == lookup(e.subrange(0, i as int), key@),
            decreases i,
        {
            let ghost pre = e.subrange(0, i as int);
            assert(pre.drop_last() =~= e.subrange(0, i - 1));
            if self.entries[i - 1].0 == *key {
                return Some(self.entries[i - 1].1.0.clone());
            }
            i = i - 1;
        }
        None
    }

    pub fn delete(&mut self, key: &String)
        ensures
            final(self)@ == old(self)@.remove(key@),
    {
        let ghost e = self.entries.deep_view();
        let n = self.entries.len();
        let mut kept: Vec<(String, (String, u64))> = Vec::new();
        let mut i: usize = 0;
        assert(kept.deep_view() =~= without(e.subrange(0, 0), key@));
        while i < n
            invariant
                n == self.entries.len(),
                i <= n,
                e == self.entries.deep_view(),
                kept.deep_view() =~= without(e.subrange(0, i as int), key@),
            decreases n - i,
        {
            let ghost pre = e.subrange(0, i + 1);
            assert(pre.drop_last() =~= e.subrange(0, i as int));
            if self.entries[i].0 != *key {
                let k = self.entries[i].0.clone();
                let v = self.entries[i].1.0.clone();
                let ttl = self.entries[i].1.1;
                let ghost before = kept.deep_view();
                kept.push((k, (v, ttl)));
                assert(kept.deep_view() =~= before.push(e[i as int]));
            }
            i = i + 1;
        }
        assert(e.subrange(0, n as int) =~= e);
        proof {
            lemma_map_without(e, key@);
        }
        self.entries = kept;
    }

    /// Writes a key with its time to live.
    pub fn set(&mut self, key: &String, value: &String, ttl: u64)
        ensures
            final(self)@ == old(self)@.insert(key@, (value@, ttl)),
    {
        self.delete(key);
        let ghost e = self.entries.deep_view();
        assert(entries_map(e) == old(self)@.remove(key@));
        self.entries.push((key.clone(), (value.clone(), ttl)));
        let ghost e2 = self.entries.deep_view();
        assert(e2 =~= e.push((key@, (value@, ttl))));
        assert(e2.drop_last() =~= e);
        assert forall|k: Seq<char>| #[trigger] lookup(e2, k) == if k == key@ { Some((value@, ttl)) } else { lookup(e, k) } by {}
        assert(entries_map(e2) =~= entries_map(e).insert(key@, (value@, ttl)));
        assert(entries_map(e).insert(key@, (value@, ttl)) =~= old(self)@.insert(key@, (value@, ttl)));
    }

    /// Runs a command; a read gives the value found.
    pub fn apply(&mut self, cmd: &StoreCommand) -> (r: Option<String>)
        ensures
            match cmd {
                StoreCommand::Get { key } => {
                    &&& final(self)@ == old(self)@
                    &&& (r is Some) == old(self)@.contains_key(key@)
                    &&& r matches Some(v) ==> v@ == old(self)@[key@].0
                },
                StoreCommand::SetEx { key, value, ttl } => {
                    &&& final(self)@ == old(self)@.insert(key@, (value@, *ttl))
                    &&& r is None
                },
                StoreCommand::Delete { key } => {
                    &&& final(self)@ == old(self)@.remove(key@)
                    &&& r is None
                },
            },
    {
        match cmd {
            StoreCommand::Get { key } => self.get(key),
            StoreCommand::SetEx { key, value, ttl } => {
                self.set(key, value, *ttl);
                None
            },
            StoreCommand::Delete { key } => {
                self.delete(key);
                None
            },
        }
    }
}

} // verus!
