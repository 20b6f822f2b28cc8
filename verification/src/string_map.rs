//! Maps from text to text: task tags and resolved credentials.

use vstd::prelude::*;
use vstd::string::*;

verus! {

/// A map from text to text. Of two entries with one key the later counts.
#[derive(Debug, Clone, PartialEq)]
pub struct StringMap {
    entries: Vec<(String, String)>,
}

/// The map that a list of entries stands for.
pub open spec fn entries_view(s: Seq<(String, String)>) -> Map<Seq<char>, Seq<char>>
    decreases s.len(),
{
    if s.len() == 0 {
        Map::empty()
    } else {
        entries_view(s.drop_last()).insert(s.last().0@, s.last().1@)
    }
}

impl View for StringMap {
    type V = Map<Seq<char>, Seq<char>>;

    closed spec fn view(&self) -> Map<Seq<char>, Seq<char>> {
        entries_view(self.entries@)
    }
}

impl StringMap {
    /// A map without entries.
    pub fn new() -> (r: StringMap)
        ensures
            r@ == Map::<Seq<char>, Seq<char>>::empty(),
    {
        StringMap { entries: Vec::new() }
    }

    /// Puts a value under a key, in place of any that was there.
    pub fn insert(&mut self, key: String, value: String)
        ensures
            final(self)@ == old(self)@.insert(key@, value@),
    {
        let ghost before = self.entries@;
        self.entries.push((key, value));
        assert(self.entries@.drop_last() =~= before);
    }

    /// The value under a key.
    pub fn get(&self, key: &str) -> (r: Option<&String>)
        ensures
            match r {
                Some(v) => self@.contains_key(key@) && self@[key@] == v@,
                None => !self@.contains_key(key@),
            },
    {
        let wanted = key.to_owned();
        let mut n: usize = self.entries.len();
        assert(self.entries@.take(n as int) =~= self.entries@);
        while n > 0
            invariant
                n <= self.entries@.len(),
                wanted@ == key@,
                self@.contains_key(key@) == entries_view(
                    self.entries@.take(n as int),
                ).contains_key(key@),
                self@.contains_key(key@) ==> self@[key@] == entries_view(
                    self.entries@.take(n as int),
                )[key@],
            decreases n,
        {
            let i: usize = n - 1;
            assert(self.entries@.take(n as int).drop_last() =~= self.entries@.take(i as int));
            if self.entries[i].0 == wanted {
                return Some(&self.entries[i].1);
            }
            n = i;
        }
        None
    }

    /// Whether there are no entries.
    pub fn is_empty(&self) -> (r: bool)
        ensures
            r == (self@ == Map::<Seq<char>, Seq<char>>::empty()),
    {
        proof {
            if self.entries@.len() > 0 {
                assert(self@.contains_key(self.entries@.last().0@));
            }
        }
        self.entries.len() == 0
    }

    /// The entries as they were put in.
    pub closed spec fn listed(&self) -> Seq<(String, String)> {
        self.entries@
    }

    /// The entries as they were put in; of two with one key the later counts.
    pub fn entries(&self) -> (r: &Vec<(String, String)>)
        ensures
            r@ == self.listed(),
            self@ == entries_view(r@),
    {
        &self.entries
    }

    /// A copy.
    pub fn duplicate(&self) -> (r: StringMap)
        ensures
            r@ == self@,
    {
        let mut out = StringMap::new();
        for i in 0..self.entries.len()
            invariant
                out@ == entries_view(self.entries@.take(i as int)),
        {
            assert(self.entries@.take(i + 1).drop_last() =~= self.entries@.take(i as int));
            out.insert(self.entries[i].0.clone(), self.entries[i].1.clone());
        }
        assert(self.entries@.take(self.entries@.len() as int) =~= self.entries@);
        out
    }
}

} // verus!
