//! The key/value pairs of a query string, held as a map in which each key
//! occurs once.

use crate::error::{ParseError, ParseErrorView};
use crate::text::str_eq;
use std::collections::HashMap;
use vstd::prelude::*;
use vstd::std_specs::cmp::PartialEqSpecImpl;

verus! {

/// The error type of `serde_qs`, carried from the call to the place that
/// turns it into a [`ParseError`].
#[verifier::external_type_specification]
#[verifier::external_body]
pub struct ExQueryStringError(serde_qs::Error);

/// What `serde_qs::from_str` reads from `query` when it is asked for a map
/// from text to text: the entries, or `None` where it reports an error.
pub uninterp spec fn qs_entries(query: Seq<char>) -> Option<Map<Seq<char>, Seq<char>>>;

/// Calls `serde_qs::from_str` for a `HashMap<String, String>` and hands the
/// entries out as a list of pairs, in no particular order.
///
/// Taken on trust: the outcome is what [`qs_entries`] names for this query,
/// and the empty query is read as no entries at all (the parser finds no
/// byte and leaves its map empty).
#[verifier::external_body]
fn read_pairs(query: &str) -> (outcome: Result<Vec<(String, String)>, serde_qs::Error>)
    ensures
        match outcome {
            Ok(pairs) => qs_entries(query@) == Some(pairs_to_map(pairs@)),
            Err(_) => qs_entries(query@) is None,
        },
        query@.len() == 0 ==> outcome is Ok && outcome->Ok_0@.len() == 0,
{
    let entries: HashMap<String, String> = serde_qs::from_str(query)?;
    Ok(entries.into_iter().collect())
}

/// The map that a list of pairs denotes: the pairs are entered from first to
/// last, so a later pair replaces an earlier one that has its key.
pub open spec fn pairs_to_map(pairs: Seq<(String, String)>) -> Map<Seq<char>, Seq<char>>
    decreases pairs.len(),
{
    if pairs.len() == 0 {
        Map::empty()
    } else {
        pairs_to_map(pairs.drop_last()).insert(pairs.last().0@, pairs.last().1@)
    }
}

/// No key stands in two pairs of the list.
pub open spec fn keys_distinct(pairs: Seq<(String, String)>) -> bool {
    forall|i: int, j: int|
        0 <= i < j < pairs.len() ==> (#[trigger] pairs[i]).0@ != (#[trigger] pairs[j]).0@
}

/// Some pair of the list has the key `key`.
pub open spec fn has_key(pairs: Seq<(String, String)>, key: Seq<char>) -> bool {
    exists|i: int| 0 <= i < pairs.len() && (#[trigger] pairs[i]).0@ == key
}

/// The value under `key`, where there is one.
pub open spec fn lookup(entries: Map<Seq<char>, Seq<char>>, key: Seq<char>) -> Option<Seq<char>> {
    if entries.contains_key(key) {
        Some(entries[key])
    } else {
        None
    }
}

/// Each entry of `inner` is an entry of `outer`.
pub open spec fn within(inner: Map<Seq<char>, Seq<char>>, outer: Map<Seq<char>, Seq<char>>) -> bool {
    forall|key: Seq<char>| #[trigger]
        inner.contains_key(key) ==> outer.contains_key(key) && inner[key] == outer[key]
}

/// The keys of the denoted map are the keys of the pairs.
pub proof fn lemma_pairs_keys(pairs: Seq<(String, String)>, key: Seq<char>)
    ensures
        pairs_to_map(pairs).contains_key(key) <==> has_key(pairs, key),
    decreases pairs.len(),
{
    if pairs.len() > 0 {
        let front = pairs.drop_last();
        lemma_pairs_keys(front, key);
        if has_key(front, key) {
            let i = choose|i: int| 0 <= i < front.len() && (#[trigger] front[i]).0@ == key;
            assert(pairs[i].0@ == key);
        }
        if pairs.last().0@ == key {
            assert(pairs[pairs.len() - 1].0@ == key);
        }
        if has_key(pairs, key) && pairs.last().0@ != key {
            let i = choose|i: int| 0 <= i < pairs.len() && (#[trigger] pairs[i]).0@ == key;
            assert(front[i].0@ == key);
        }
    }
}

/// Where no key stands twice, each pair's value is the one the denoted map
/// holds under that pair's key.
pub proof fn lemma_pairs_value(pairs: Seq<(String, String)>, i: int)
    requires
        keys_distinct(pairs),
        0 <= i < pairs.len(),
    ensures
        pairs_to_map(pairs).contains_key(pairs[i].0@),
        pairs_to_map(pairs)[pairs[i].0@] == pairs[i].1@,
    decreases pairs.len(),
{
    if i < pairs.len() - 1 {
        let front = pairs.drop_last();
        assert(forall|j: int| 0 <= j < front.len() ==> front[j] == pairs[j]);
        lemma_pairs_value(front, i);
        assert(pairs[i].0@ != pairs[pairs.len() - 1].0@);
    }
}

/// Taking one pair out of a list without repeated keys takes its key out of
/// the denoted map, and nothing else.
pub proof fn lemma_pairs_remove(pairs: Seq<(String, String)>, i: int)
    requires
        keys_distinct(pairs),
        0 <= i < pairs.len(),
    ensures
        keys_distinct(pairs.remove(i)),
        pairs_to_map(pairs.remove(i)) == pairs_to_map(pairs).remove(pairs[i].0@),
{
    let rest = pairs.remove(i);
    let gone = pairs[i].0@;
    assert forall|a: int, b: int| 0 <= a < b < rest.len() implies (#[trigger] rest[a]).0@ != (
    #[trigger] rest[b]).0@ by {
        let a0 = if a < i { a } else { a + 1 };
        let b0 = if b < i { b } else { b + 1 };
        assert(rest[a] == pairs[a0] && rest[b] == pairs[b0]);
    }
    let left = pairs_to_map(rest);
    let right = pairs_to_map(pairs).remove(gone);
    assert forall|key: Seq<char>| left.contains_key(key) <==> right.contains_key(key) by {
        lemma_pairs_keys(rest, key);
        lemma_pairs_keys(pairs, key);
        if has_key(rest, key) {
            let j = choose|j: int| 0 <= j < rest.len() && (#[trigger] rest[j]).0@ == key;
            let j0 = if j < i { j } else { j + 1 };
            assert(pairs[j0].0@ == key);
            assert(pairs[j0].0@ != pairs[i].0@);
        }
        if has_key(pairs, key) && key != gone {
            let j0 = choose|j: int| 0 <= j < pairs.len() && (#[trigger] pairs[j]).0@ == key;
            let j = if j0 < i { j0 } else { j0 - 1 };
            assert(rest[j].0@ == key);
        }
    }
    assert forall|key: Seq<char>| left.contains_key(key) implies left[key] == right[key] by {
        lemma_pairs_keys(rest, key);
        let j = choose|j: int| 0 <= j < rest.len() && (#[trigger] rest[j]).0@ == key;
        let j0 = if j < i { j } else { j + 1 };
        assert(rest[j] == pairs[j0]);
        lemma_pairs_value(rest, j);
        lemma_pairs_value(pairs, j0);
    }
    assert(left =~= right);
}

/// A map from text to text in which each key occurs once.
///
/// Its value is a `Map<Seq<char>, Seq<char>>`. The entries are kept as a list
/// of pairs; that no key stands twice in it is the type's invariant.
#[derive(Debug)]
pub struct QueryMap {
    entries: Vec<(String, String)>,
}

impl View for QueryMap {
    type V = Map<Seq<char>, Seq<char>>;

    closed spec fn view(&self) -> Map<Seq<char>, Seq<char>> {
        pairs_to_map(self.entries@)
    }
}

impl Clone for QueryMap {
    /// A map with the same entries.
    fn clone(&self) -> (copy: QueryMap)
        ensures
            copy@ == self@,
    {
        proof {
            use_type_invariant(self);
        }
        let mut entries: Vec<(String, String)> = Vec::new();
        let mut i: usize = 0;
        while i < self.entries.len()
            invariant
                i <= self.entries@.len(),
                entries@ == self.entries@.take(i as int),
            decreases self.entries@.len() - i,
        {
            let key = self.entries[i].0.clone();
            let value = self.entries[i].1.clone();
            entries.push((key, value));
            proof {
                assert(entries@ =~= self.entries@.take(i + 1));
            }
            i += 1;
        }
        proof {
            assert(entries@ =~= self.entries@);
        }
        QueryMap { entries }
    }
}

impl PartialEq for QueryMap {
    /// Whether the two maps hold the same entries, in whatever order they
    /// are kept.
    fn eq(&self, other: &QueryMap) -> (same: bool) {
        let same = self.included_in(other) && other.included_in(self);
        proof {
            if same {
                assert(self@ =~= other@);
            }
        }
        same
    }
}

impl PartialEqSpecImpl for QueryMap {
    open spec fn obeys_eq_spec() -> bool {
        true
    }

    open spec fn eq_spec(&self, other: &QueryMap) -> bool {
        self@ == other@
    }
}

impl QueryMap {
    #[verifier::type_invariant]
    spec fn well_formed(self) -> bool {
        keys_distinct(self.entries@)
    }

    /// The map without entries.
    pub fn new() -> (map: QueryMap)
        ensures
            map@ == Map::<Seq<char>, Seq<char>>::empty(),
    {
        QueryMap { entries: Vec::new() }
    }

    /// Where in the list the pair with `key` stands, if there is one.
    fn position(&self, key: &str) -> (found: Option<usize>)
        ensures
            match found {
                Some(i) => i < self.entries@.len() && self.entries@[i as int].0@ == key@,
                None => !has_key(self.entries@, key@),
            },
    {
        let mut i: usize = 0;
        while i < self.entries.len()
            invariant
                i <= self.entries@.len(),
                forall|j: int| 0 <= j < i ==> (#[trigger] self.entries@[j]).0@ != key@,
            decreases self.entries@.len() - i,
        {
            if str_eq(self.entries[i].0.as_str(), key) {
                return Some(i);
            }
            i += 1;
        }
        None
    }

    /// Whether each entry of this map is an entry of `other` too.
    fn included_in(&self, other: &QueryMap) -> (included: bool)
        ensures
            included == within(self@, other@),
    {
        proof {
            use_type_invariant(self);
        }
        let mut i: usize = 0;
        while i < self.entries.len()
            invariant
                i <= self.entries@.len(),
                keys_distinct(self.entries@),
                forall|j: int|
                    0 <= j < i ==> other@.contains_key((#[trigger] self.entries@[j]).0@)
                        && other@[self.entries@[j].0@] == self.entries@[j].1@,
            decreases self.entries@.len() - i,
        {
            proof {
                lemma_pairs_value(self.entries@, i as int);
            }
            let found = match other.get(self.entries[i].0.as_str()) {
                Some(value) => *value == self.entries[i].1,
                None => false,
            };
            if !found {
                return false;
            }
            i += 1;
        }
        proof {
            assert forall|key: Seq<char>| #[trigger]
                self@.contains_key(key) implies other@.contains_key(key) && self@[key]
                == other@[key] by {
                lemma_pairs_keys(self.entries@, key);
                let j = choose|j: int|
                    0 <= j < self.entries@.len() && (#[trigger] self.entries@[j]).0@ == key;
                lemma_pairs_value(self.entries@, j);
            }
        }
        true
    }

    /// Whether an entry has the key `key`.
    pub fn contains_key(&self, key: &str) -> (found: bool)
        ensures
            found == self@.contains_key(key@),
    {
        proof {
            lemma_pairs_keys(self.entries@, key@);
        }
        self.position(key).is_some()
    }

    /// The value under `key`, if an entry has that key.
    pub fn get(&self, key: &str) -> (value: Option<&String>)
        ensures
            match value {
                Some(text) => self@.contains_key(key@) && text@ == self@[key@],
                None => !self@.contains_key(key@),
            },
    {
        proof {
            use_type_invariant(self);
            lemma_pairs_keys(self.entries@, key@);
        }
        match self.position(key) {
            Some(i) => {
                proof {
                    lemma_pairs_value(self.entries@, i as int);
                }
                Some(&self.entries[i].1)
            },
            None => None,
        }
    }

    /// Takes the entry under `key` out of the map and returns its value; the
    /// map stays as it is where no entry has that key.
    pub fn remove(&mut self, key: &str) -> (value: Option<String>)
        ensures
            final(self)@ == old(self)@.remove(key@),
            match value {
                Some(text) => old(self)@.contains_key(key@) && text@ == old(self)@[key@],
                None => !old(self)@.contains_key(key@),
            },
    {
        proof {
            use_type_invariant(&*self);
            lemma_pairs_keys(self.entries@, key@);
        }
        match self.position(key) {
            Some(i) => {
                proof {
                    lemma_pairs_value(self.entries@, i as int);
                    lemma_pairs_remove(self.entries@, i as int);
                }
                let mut entries: Vec<(String, String)> = Vec::new();
                std::mem::swap(&mut self.entries, &mut entries);
                let pair = entries.remove(i);
                self.entries = entries;
                Some(pair.1)
            },
            None => {
                assert(self@.remove(key@) =~= self@);
                None
            },
        }
    }

    /// Enters `value` under `key`, in place of the entry that had that key if
    /// there was one.
    pub fn insert(&mut self, key: String, value: String)
        ensures
            final(self)@ == old(self)@.insert(key@, value@),
    {
        let _ = self.remove(key.as_str());
        proof {
            use_type_invariant(&*self);
            lemma_pairs_keys(self.entries@, key@);
            assert(self@.insert(key@, value@) =~= old(self)@.insert(key@, value@));
        }
        let ghost before = self.entries@;
        let mut entries: Vec<(String, String)> = Vec::new();
        std::mem::swap(&mut self.entries, &mut entries);
        entries.push((key, value));
        proof {
            assert(entries@.drop_last() =~= before);
            assert forall|i: int, j: int| 0 <= i < j < entries@.len() implies (
            #[trigger] entries@[i]).0@ != (#[trigger] entries@[j]).0@ by {
                assert(entries@[i] == before[i]);
                if j < before.len() {
                    assert(entries@[j] == before[j]);
                }
            }
        }
        self.entries = entries;
    }

    /// The map that `pairs` denotes: its pairs entered from first to last, a
    /// later one replacing an earlier one that has its key.
    pub fn from_pairs(pairs: Vec<(String, String)>) -> (map: QueryMap)
        ensures
            map@ == pairs_to_map(pairs@),
    {
        let mut map = QueryMap::new();
        let mut i: usize = 0;
        while i < pairs.len()
            invariant
                i <= pairs@.len(),
                map@ == pairs_to_map(pairs@.take(i as int)),
            decreases pairs@.len() - i,
        {
            let key = pairs[i].0.clone();
            let value = pairs[i].1.clone();
            proof {
                assert(pairs@.take(i + 1).drop_last() =~= pairs@.take(i as int));
            }
            map.insert(key, value);
            i += 1;
        }
        proof {
            assert(pairs@.take(i as int) =~= pairs@);
        }
        map
    }

    /// Reads a query string: ampersand-separated `key=value` pairs, as
    /// `serde_qs` reads them into a flat map.
    ///
    /// Gives the entries that were read, and `InvalidQuery` with the query
    /// itself where it cannot be read. The empty query has no entries.
    pub fn parse(query: &str) -> (outcome: Result<QueryMap, ParseError>)
        ensures
            match outcome {
                Ok(map) => qs_entries(query@) == Some(map@),
                Err(error) => qs_entries(query@) is None && error@
                    == ParseErrorView::InvalidQuery(query@),
            },
            query@.len() == 0 ==> outcome is Ok && outcome->Ok_0@ == Map::<
                Seq<char>,
                Seq<char>,
            >::empty(),
    {
        match read_pairs(query) {
            Ok(pairs) => Ok(QueryMap::from_pairs(pairs)),
            Err(_) => Err(ParseError::InvalidQuery(query.to_string())),
        }
    }

    /// The entries as a list of pairs, each key once.
    pub fn pairs(&self) -> (pairs: &Vec<(String, String)>)
        ensures
            keys_distinct(pairs@),
            pairs_to_map(pairs@) == self@,
    {
        proof {
            use_type_invariant(self);
        }
        &self.entries
    }
}

} // verus!
