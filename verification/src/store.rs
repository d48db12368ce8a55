//! A small association map from participant ids to values, the backing
//! structure of both the commitment store and the reveal store.
//!
//! The map is viewed as a `Map<u32, V>`; when the same id is inserted twice
//! the later entry wins, exactly as `Map::insert` says.

use vstd::prelude::*;

verus! {

/// An association map from participant ids to values of type `V`.
pub struct IdMap<V> {
    entries: Vec<(u32, V)>,
}

/// The map described by an entry list: entries are inserted left to right,
/// so the rightmost entry for an id wins.
spec fn map_of<V>(s: Seq<(u32, V)>) -> Map<u32, V>
    decreases s.len(),
{
    if s.len() == 0 {
        Map::empty()
    } else {
        map_of(s.drop_last()).insert(s.last().0, s.last().1)
    }
}

/// An id occurs in the map exactly when some entry carries it.
proof fn lemma_map_of_dom<V>(s: Seq<(u32, V)>, id: u32)
    ensures
        map_of(s).dom().contains(id) <==> exists|i: int| 0 <= i < s.len() && s[i].0 == id,
    decreases s.len(),
{
    if s.len() > 0 {
        lemma_map_of_dom(s.drop_last(), id);
        if s.last().0 != id && map_of(s).dom().contains(id) {
            let i = choose|i: int| 0 <= i < s.drop_last().len() && s.drop_last()[i].0 == id;
            assert(s[i].0 == id);
        }
        if s.last().0 != id && exists|i: int| 0 <= i < s.len() && s[i].0 == id {
            let i = choose|i: int| 0 <= i < s.len() && s[i].0 == id;
            assert(s.drop_last()[i].0 == id);
        }
    }
}

/// The rightmost entry for an id gives the map's value at that id.
proof fn lemma_map_of_last_wins<V>(s: Seq<(u32, V)>, i: int)
    requires
        0 <= i < s.len(),
        forall|j: int| i < j < s.len() ==> s[j].0 != s[i].0,
    ensures
        map_of(s).dom().contains(s[i].0),
        map_of(s)[s[i].0] == s[i].1,
    decreases s.len(),
{
    if i == s.len() - 1 {
    } else {
        assert(s.drop_last()[i] == s[i]);
        lemma_map_of_last_wins(s.drop_last(), i);
    }
}

impl<V> View for IdMap<V> {
    type V = Map<u32, V>;

    open spec fn view(&self) -> Map<u32, V> {
        self.spec_map()
    }
}

impl<V> IdMap<V> {
    /// The map held, as a mathematical `Map`.
    pub closed spec fn spec_map(&self) -> Map<u32, V> {
        map_of(self.entries@)
    }
}

impl<V> IdMap<V> {
    /// The empty map.
    pub fn new() -> (r: IdMap<V>)
        ensures
            r@ == Map::<u32, V>::empty(),
    {
        let r = IdMap { entries: Vec::new() };
        proof {
            assert(r.entries@ =~= Seq::<(u32, V)>::empty());
        }
        r
    }

    /// Whether the map holds an entry for `id`.
    pub fn contains(&self, id: u32) -> (r: bool)
        ensures
            r == self@.dom().contains(id),
    {
        match self.get(id) {
            Some(_) => true,
            None => false,
        }
    }

    /// Looks the value for `id` up.
    pub fn get(&self, id: u32) -> (r: Option<&V>)
        ensures
            match r {
                Some(v) => self@.dom().contains(id) && *v == self@[id],
                None => !self@.dom().contains(id),
            },
    {
        proof {
            lemma_map_of_dom(self.entries@, id);
        }
        let n = self.entries.len();
        let mut i: usize = n;
        while i > 0
            invariant
                n == self.entries@.len(),
                i <= n,
                forall|j: int| i <= j < n ==> self.entries@[j].0 != id,
            decreases i,
        {
            i = i - 1;
            if self.entries[i].0 == id {
                proof {
                    lemma_map_of_last_wins(self.entries@, i as int);
                }
                return Some(&self.entries[i].1);
            }
        }
        None
    }

    /// Inserts a value for `id`; a later entry for the same id replaces an
    /// earlier one.
    pub fn insert(&mut self, id: u32, value: V)
        ensures
            final(self)@ == old(self)@.insert(id, value),
    {
        self.entries.push((id, value));
        proof {
            assert(self.entries@.drop_last() =~= old(self).entries@);
        }
    }
}

} // verus!
