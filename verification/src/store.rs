//! The key-value store that a server keeps for all its connections.

use vstd::prelude::*;
use vstd::hash_map::StringHashMap;

verus! {

/// Keys (text) mapped to values (bytes).
pub struct Db {
    entries: StringHashMap<Vec<u8>>,
}

impl View for Db {
    type V = Map<Seq<char>, Seq<u8>>;

    closed spec fn view(&self) -> Map<Seq<char>, Seq<u8>> {
        self.entries@.map_values(|v: Vec<u8>| v@)
    }
}

impl Db {
    /// An empty store.
    pub fn new() -> (db: Db)
        ensures
            db@ == Map::<Seq<char>, Seq<u8>>::empty(),
    {
        let db = Db { entries: StringHashMap::new() };
        assert(db@ =~= Map::<Seq<char>, Seq<u8>>::empty());
        db
    }

    /// Stores `value` under `key`, replacing what was stored there.
    pub fn set(&mut self, key: String, value: Vec<u8>)
        ensures
            final(self)@ == old(self)@.insert(key@, value@),
    {
        let ghost k = key@;
        let ghost v = value@;
        self.entries.insert(key, value);
        assert(self@ =~= old(self)@.insert(k, v));
    }

    /// A copy of the value stored under `key`, if any.
    pub fn get(&self, key: &str) -> (res: Option<Vec<u8>>)
        ensures
            match res {
                Some(v) => self@.contains_key(key@) && v@ == self@[key@],
                None => !self@.contains_key(key@),
            },
    {
        match self.entries.get(key) {
            Some(v) => {
                let c = v.clone();
                assert(c@ =~= v@);
                Some(c)
            },
            None => None,
        }
    }
}

} // verus!
