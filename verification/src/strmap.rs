use vstd::prelude::*;

verus! {

/// The map that a list of key/value entries describes: a later entry for a
/// key hides an earlier one.
pub open spec fn map_of(entries: Seq<(String, String)>) -> Map<Seq<char>, Seq<char>>
    decreases entries.len(),
{
    if entries.len() == 0 {
        Map::empty()
    } else {
        map_of(entries.drop_last()).insert(entries.last().0@, entries.last().1@)
    }
}

/// A map from strings to strings (labels, selectors, config data).
#[derive(Debug)]
pub struct StringMap {
    entries: Vec<(String, String)>,
}

impl View for StringMap {
    type V = Map<Seq<char>, Seq<char>>;

    closed spec fn view(&self) -> Map<Seq<char>, Seq<char>> {
        map_of(self.entries@)
    }
}

impl StringMap {
    /// The empty map.
    pub fn new() -> (m: StringMap)
        ensures
            m@ == Map::<Seq<char>, Seq<char>>::empty(),
    {
        StringMap { entries: Vec::new() }
    }

    /// The map that `entries` describe, later entries winning.
    pub fn from_entries(entries: Vec<(String, String)>) -> (m: StringMap)
        ensures
            m@ == map_of(entries@),
    {
        StringMap { entries }
    }

    /// Entries that describe the map (each key at most once is not promised;
    /// a later entry wins, as `map_of` says).
    pub fn entries(&self) -> (r: &Vec<(String, String)>)
        ensures
            map_of(r@) == self@,
    {
        &self.entries
    }

    /// A copy of the map.
    pub fn copy(&self) -> (r: StringMap)
        ensures
            r@ == self@,
    {
        let mut entries: Vec<(String, String)> = Vec::new();
        let mut i: usize = 0;
        while i < self.entries.len()
            invariant
                i <= self.entries.len(),
                entries@.len() == i,
                forall|j: int| 0 <= j < i ==> #[trigger] entries@[j] == self.entries@[j],
            decreases self.entries.len() - i,
        {
            let k = self.entries[i].0.clone();
            let v = self.entries[i].1.clone();
            entries.push((k, v));
            i = i + 1;
        }
        assert(entries@ =~= self.entries@);
        StringMap { entries }
    }

    /// Whether the map is empty.
    pub fn is_empty(&self) -> (r: bool)
        ensures
            r == (self@ == Map::<Seq<char>, Seq<char>>::empty()),
    {
        if self.entries.len() == 0 {
            true
        } else {
            assert(self@.contains_key(self.entries@.last().0@));
            false
        }
    }

    /// Maps `key` to `value`, replacing what `key` mapped to before.
    pub fn insert(&mut self, key: String, value: String)
        ensures
            final(self)@ == old(self)@.insert(key@, value@),
    {
        let mut old_entries: Vec<(String, String)> = Vec::new();
        std::mem::swap(&mut old_entries, &mut self.entries);
        let ghost before = map_of(old_entries@);
        let mut kept: Vec<(String, String)> = Vec::new();
        let mut i: usize = 0;
        assert(old_entries@.take(0) =~= Seq::<(String, String)>::empty());
        assert(map_of(kept@) =~= map_of(old_entries@.take(0)).remove(key@));
        while i < old_entries.len()
            invariant
                i <= old_entries.len(),
                before == map_of(old_entries@),
                map_of(kept@) == map_of(old_entries@.take(i as int)).remove(key@),
            decreases old_entries.len() - i,
        {
            let k = old_entries[i].0.clone();
            let v = old_entries[i].1.clone();
            let ghost prefix = old_entries@.take(i as int);
            assert(old_entries@.take(i + 1).drop_last() =~= prefix);
            assert(old_entries@.take(i + 1).last() == old_entries@[i as int]);
            if k == key {
                assert(map_of(kept@) =~= map_of(old_entries@.take(i + 1)).remove(key@));
            } else {
                let ghost kept_before = kept@;
                kept.push((k, v));
                assert(kept@.drop_last() =~= kept_before);
                assert(map_of(kept@) =~= map_of(old_entries@.take(i + 1)).remove(key@));
            }
            i = i + 1;
        }
        assert(old_entries@.take(old_entries.len() as int) =~= old_entries@);
        let ghost kept_before = kept@;
        kept.push((key, value));
        assert(kept@.drop_last() =~= kept_before);
        self.entries = kept;
        assert(self@ =~= before.insert(key@, value@));
    }

    /// What `key` maps to, if anything.
    pub fn get(&self, key: &str) -> (r: Option<&String>)
        ensures
            match r {
                Some(v) => self@.contains_key(key@) && v@ == self@[key@],
                None => !self@.contains_key(key@),
            },
    {
        let mut i: usize = self.entries.len();
        assert(self.entries@.take(i as int) =~= self.entries@);
        while i > 0
            invariant
                i <= self.entries.len(),
                map_of(self.entries@.take(i as int)).contains_key(key@) == self@.contains_key(key@),
                map_of(self.entries@.take(i as int)).contains_key(key@) ==> map_of(
                    self.entries@.take(i as int),
                )[key@] == self@[key@],
            decreases i,
        {
            let ghost prefix = self.entries@.take(i as int);
            assert(prefix.drop_last() =~= self.entries@.take(i - 1));
            assert(prefix.last() == self.entries@[i - 1]);
            if str_eq(self.entries[i - 1].0.as_str(), key) {
                return Some(&self.entries[i - 1].1);
            }
            i = i - 1;
        }
        None
    }
}

/// Two string slices are equal.
pub fn str_eq(a: &str, b: &str) -> (r: bool)
    ensures
        r == (a@ == b@),
{
    let ac = crate::text::chars_of(a);
    crate::text::chars_eq_str(&ac, b)
}

impl Default for StringMap {
    fn default() -> (m: StringMap)
        ensures
            m@ == Map::<Seq<char>, Seq<char>>::empty(),
    {
        StringMap::new()
    }
}

} // verus!
