use vstd::prelude::*;

use crate::value::ExifValue;
use crate::value::ExifValueView;

verus! {

/// The table a name resolves through, seen mathematically: the last pair
/// inserted for a name is the one the map holds.
pub open spec fn as_map_of(s: Seq<(String, ExifValue)>) -> Map<Seq<char>, ExifValueView>
    decreases s.len(),
{
    if s.len() == 0 {
        Map::empty()
    } else {
        as_map_of(s.drop_last()).insert(s.last().0@, s.last().1@)
    }
}

/// Every name appears at most once among the stored pairs.
pub open spec fn keys_unique(s: Seq<(String, ExifValue)>) -> bool {
    forall|i: int, j: int| 0 <= i < j < s.len() ==> s[i].0@ != s[j].0@
}

/// The tag table one decode produces: a mapping from tag name to decoded
/// value, with unique keys and no meaningful order. Built by insertion while
/// the directories are walked, then read through [`Self::get`] and the
/// accessors.
pub struct ExifEntries {
    entries: Vec<(String, ExifValue)>,
}

impl View for ExifEntries {
    type V = Map<Seq<char>, ExifValueView>;

    closed spec fn view(&self) -> Map<Seq<char>, ExifValueView> {
        as_map_of(self.entries@)
    }
}

/// With unique keys, the pair stored at `i` is what the map holds for its
/// name.
proof fn lemma_as_map_found(s: Seq<(String, ExifValue)>, i: int)
    requires
        keys_unique(s),
        0 <= i < s.len(),
    ensures
        as_map_of(s).contains_key(s[i].0@),
        as_map_of(s)[s[i].0@] == s[i].1@,
    decreases s.len(),
{
    if i < s.len() - 1 {
        assert(keys_unique(s.drop_last()));
        lemma_as_map_found(s.drop_last(), i);
    }
}

/// A name no stored pair carries is absent from the map.
proof fn lemma_as_map_absent(s: Seq<(String, ExifValue)>, k: Seq<char>)
    requires
        forall|i: int| 0 <= i < s.len() ==> s[i].0@ != k,
    ensures
        !as_map_of(s).contains_key(k),
    decreases s.len(),
{
    if s.len() > 0 {
        lemma_as_map_absent(s.drop_last(), k);
    }
}

/// With unique keys, replacing the pair at `i` by one with the same name maps
/// to inserting its value under that name.
proof fn lemma_as_map_update(s: Seq<(String, ExifValue)>, i: int, p: (String, ExifValue))
    requires
        keys_unique(s),
        0 <= i < s.len(),
        p.0@ == s[i].0@,
    ensures
        as_map_of(s.update(i, p)) =~= as_map_of(s).insert(p.0@, p.1@),
    decreases s.len(),
{
    if i == s.len() - 1 {
        assert(s.update(i, p).drop_last() =~= s.drop_last());
        assert(s.update(i, p).last() == p);
    } else {
        assert(keys_unique(s.drop_last()));
        lemma_as_map_update(s.drop_last(), i, p);
        assert(s.update(i, p).drop_last() =~= s.drop_last().update(i, p));
        assert(s.update(i, p).last() == s.last());
        lemma_as_map_found(s, i);
    }
}

impl ExifEntries {
    /// Every stored name occurs once; what [`Self::get`] finds by scanning is
    /// then exactly what the map view holds.
    pub closed spec fn wf(&self) -> bool {
        keys_unique(self.entries@)
    }

    /// A fresh, empty table.
    pub fn new() -> (r: ExifEntries)
        ensures
            r.wf(),
            r@ == Map::<Seq<char>, ExifValueView>::empty(),
    {
        ExifEntries { entries: Vec::new() }
    }

    /// Inserts a value under a name. A name already present is overwritten:
    /// the last write wins, and no duplicate is ever reported.
    pub fn insert(&mut self, name: String, value: ExifValue)
        requires
            old(self).wf(),
        ensures
            final(self).wf(),
            final(self)@ == old(self)@.insert(name@, value@),
    {
        let n = self.entries.len();
        let mut i: usize = 0;
        while i < n
            invariant
                i <= n,
                n == self.entries.len(),
                self == old(self),
                self.wf(),
                forall|j: int| 0 <= j < i ==> self.entries@[j].0@ != name@,
            decreases n - i,
        {
            if self.entries[i].0 == name {
                proof {
                    let updated = self.entries@.update(i as int, (name, value));
                    assert forall|a: int, b: int| 0 <= a < b < updated.len() implies updated[a].0@
                        != updated[b].0@ by {
                        assert(self.entries@[a].0@ != self.entries@[b].0@);
                    }
                    lemma_as_map_update(self.entries@, i as int, (name, value));
                }
                self.entries[i] = (name, value);
                return;
            }
            i += 1;
        }
        proof {
            assert(self.entries@.push((name, value)).drop_last() =~= self.entries@);
        }
        self.entries.push((name, value));
    }

    /// Looks a name up: the value the table holds for it, or nothing when the
    /// name is absent.
    pub fn get<'a>(&'a self, name: &String) -> (r: Option<&'a ExifValue>)
        requires
            self.wf(),
        ensures
            (match r {
                Some(v) => self@.contains_key(name@) && v@ == self@[name@],
                None => !self@.contains_key(name@),
            }),
    {
        let n = self.entries.len();
        let mut i: usize = 0;
        while i < n
            invariant
                i <= n,
                n == self.entries.len(),
                self.wf(),
                forall|j: int| 0 <= j < i ==> self.entries@[j].0@ != name@,
            decreases n - i,
        {
            if self.entries[i].0 == *name {
                proof {
                    lemma_as_map_found(self.entries@, i as int);
                }
                return Some(&self.entries[i].1);
            }
            i += 1;
        }
        proof {
            lemma_as_map_absent(self.entries@, name@);
        }
        None
    }

    /// How many names the table holds.
    pub fn len(&self) -> (r: usize)
        requires
            self.wf(),
        ensures
            r == self@.dom().len(),
    {
        proof {
            lemma_len_is_dom_len(self.entries@);
        }
        self.entries.len()
    }
}

/// With unique keys, the map's domain is as large as the store behind it.
proof fn lemma_len_is_dom_len(s: Seq<(String, ExifValue)>)
    requires
        keys_unique(s),
    ensures
        as_map_of(s).dom().finite(),
        as_map_of(s).dom().len() == s.len(),
    decreases s.len(),
{
    if s.len() > 0 {
        assert(keys_unique(s.drop_last()));
        lemma_len_is_dom_len(s.drop_last());
        lemma_as_map_absent(s.drop_last(), s.last().0@);
    }
}

} // verus!
