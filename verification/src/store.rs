//! The refresh-credential store: a persistent-style mapping from subject
//! identifier to the single currently-active refresh credential.

use vstd::prelude::*;
use vstd::hash_map::StringHashMap;

verus! {

/// One row per subject: the subject identifier keys the single active refresh
/// credential. Replacement is atomic at the level of this map, so at most one
/// credential per subject exists at any time.
pub struct RefreshStore {
    rows: StringHashMap<String>,
}

impl View for RefreshStore {
    type V = Map<Seq<char>, Seq<char>>;

    closed spec fn view(&self) -> Map<Seq<char>, Seq<char>> {
        Map::new(|k: Seq<char>| self.rows@.contains_key(k), |k: Seq<char>| self.rows@[k]@)
    }
}

impl RefreshStore {
    /// An empty store: no subject is enrolled.
    pub fn new() -> (r: Self)
        ensures
            r@ == Map::<Seq<char>, Seq<char>>::empty(),
    {
        let rows = StringHashMap::new();
        let r = Self { rows };
        proof {
            assert(r@ =~= Map::<Seq<char>, Seq<char>>::empty());
        }
        r
    }

    /// Atomically replaces the credential for `subject` with `cred`: any
    /// previous value is gone and `cred` is the single active credential.
    pub fn rotate(&mut self, subject: &String, cred: String)
        ensures
            final(self)@ == old(self)@.insert(subject@, cred@),
    {
        let ghost prev = self@;
        self.rows.insert(subject.clone(), cred);
        proof {
            assert(self@ =~= prev.insert(subject@, cred@));
        }
    }

    /// Read-only point lookup of the current credential for `subject`.
    pub fn lookup(&self, subject: &String) -> (r: Option<&String>)
        ensures
            match r {
                Some(v) => self@.contains_key(subject@) && v@ == self@[subject@],
                None => !self@.contains_key(subject@),
            },
    {
        self.rows.get(subject.as_str())
    }
}

} // verus!
