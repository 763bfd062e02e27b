//! Lookup tables keyed by text, where a later entry for a key overrides an
//! earlier one (as repeated inserts into a map, or repeated keys in a JSON
//! object, behave).

use vstd::prelude::*;

verus! {

/// The value of the last entry of `s` whose key is `k`.
pub open spec fn lookup_last<V>(s: Seq<(String, V)>, k: Seq<char>) -> Option<V>
    decreases s.len(),
{
    if s.len() == 0 {
        None
    } else if s.last().0@ == k {
        Some(s.last().1)
    } else {
        lookup_last(s.drop_last(), k)
    }
}

/// Finds the value of the last entry keyed `key`.
pub fn find_last<'a, V>(entries: &'a Vec<(String, V)>, key: &String) -> (r: Option<&'a V>)
    ensures
        r is None <==> lookup_last(entries@, key@) is None,
        r matches Some(v) ==> lookup_last(entries@, key@) == Some(*v),
{
    let mut i: usize = entries.len();
    assert(entries@.take(i as int) =~= entries@);
    while i > 0
        invariant
            0 <= i <= entries@.len(),
            lookup_last(entries@, key@) == lookup_last(entries@.take(i as int), key@),
        decreases i,
    {
        assert(entries@.take(i as int).drop_last() =~= entries@.take(i - 1));
        if entries[i - 1].0 == *key {
            return Some(&entries[i - 1].1);
        }
        i = i - 1;
    }
    None
}

/// The map that an entry list stands for.
pub open spec fn table_map(s: Seq<(String, String)>) -> Map<Seq<char>, Seq<char>> {
    Map::new(|k: Seq<char>| lookup_last(s, k) is Some, |k: Seq<char>| lookup_last(s, k)->0@)
}

/// A map from text keys to text values.
pub struct TextTable {
    entries: Vec<(String, String)>,
}

impl View for TextTable {
    type V = Map<Seq<char>, Seq<char>>;

    closed spec fn view(&self) -> Map<Seq<char>, Seq<char>> {
        table_map(self.entries@)
    }
}

impl TextTable {
    /// An empty table.
    pub fn new() -> (t: TextTable)
        ensures
            t@ == Map::<Seq<char>, Seq<char>>::empty(),
    {
        let t = TextTable { entries: Vec::new() };
        assert(t@ =~= Map::<Seq<char>, Seq<char>>::empty());
        t
    }

    /// Sets the value of `key` to `value`.
    pub fn insert(&mut self, key: String, value: String)
        ensures
            final(self)@ == old(self)@.insert(key@, value@),
    {
        let ghost before = self.entries@;
        let ghost k0 = key@;
        let ghost v0 = value@;
        self.entries.push((key, value));
        proof {
            let after = self.entries@;
            assert(after.drop_last() =~= before);
            assert forall|k: Seq<char>| #![auto] lookup_last(after, k) == (if k == k0 { Some(after.last().1) } else { lookup_last(before, k) }) by {}
            assert(table_map(after) =~= table_map(before).insert(k0, v0));
        }
    }

    /// The value of `key`, if any.
    pub fn get(&self, key: &String) -> (r: Option<&String>)
        ensures
            r is None <==> !self@.dom().contains(key@),
            r matches Some(v) ==> self@.dom().contains(key@) && v@ == self@[key@],
    {
        find_last(&self.entries, key)
    }
}


/// What `TextTable::get` answers for `key` on `t`.
pub open spec fn answers(t: TextTable, key: Seq<char>, r: Option<String>) -> bool {
    &&& (r is None <==> !t@.dom().contains(key))
    &&& (r matches Some(v) ==> t@.dom().contains(key) && v@ == t@[key])
}

/// Reading a key after writing it gives back the value written: if `after`
/// is `before` after `insert(key, value)`, then `get(key)` on `after`
/// answers `Some(value)`.
pub proof fn lemma_get_after_insert(before: TextTable, after: TextTable, key: String, value: String, r: Option<String>)
    requires
        after@ == before@.insert(key@, value@),
        answers(after, key@, r),
    ensures
        r matches Some(v) && v@ == value@,
{
}

/// Writing a key leaves every other key as it was: if `after` is `before`
/// after `insert(key, value)`, `get(other)` answers the same on both.
pub proof fn lemma_get_other_after_insert(
    before: TextTable,
    after: TextTable,
    key: String,
    value: String,
    other: String,
    r_before: Option<String>,
    r_after: Option<String>,
)
    requires
        after@ == before@.insert(key@, value@),
        other@ != key@,
        answers(before, other@, r_before),
        answers(after, other@, r_after),
    ensures
        r_before is None <==> r_after is None,
        r_before matches Some(b) ==> (r_after matches Some(a) && a@ == b@),
{
}

} // verus!
