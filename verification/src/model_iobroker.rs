//! Raw telemetry readings.
//!
//! A `RawMapping` is the flat key-value snapshot one fetch returns: dotted
//! source keys mapped to `IoBrokerValue` envelopes. Absence of a key is an
//! expected condition, not a fault. The mapping is viewed both as a key-value
//! map (for field lookup) and as the sequence of its entries (for the
//! projections that walk every entry).

use vstd::prelude::*;

verus! {

/// One raw reading: the value, normalized to a string, plus its metadata.
#[derive(Debug, Clone, PartialEq, Eq)]
pub struct IoBrokerValue {
    pub val: String,
    pub ack: bool,
    pub ts: i64,
    pub q: i32,
    pub from: String,
    pub user: String,
    pub lc: i64,
}

/// The flat mapping from dotted keys to readings that one fetch produces.
///
/// Entries are kept in insertion order; a key occurs at most once, because
/// `insert` replaces in place. Lookup takes the first entry whose key
/// matches, so the map view is well defined even for hand-built sequences.
#[derive(Debug, Clone)]
pub struct RawMapping {
    items: Vec<(String, IoBrokerValue)>,
}

/// First-match lookup in an entry sequence.
pub closed spec fn spec_lookup(es: Seq<(String, IoBrokerValue)>, k: Seq<char>) -> Option<
    IoBrokerValue,
>
    decreases es.len(),
{
    if es.len() == 0 {
        None
    } else if es[0].0@ == k {
        Some(es[0].1)
    } else {
        spec_lookup(es.drop_first(), k)
    }
}

impl View for RawMapping {
    type V = Map<Seq<char>, IoBrokerValue>;

    closed spec fn view(&self) -> Map<Seq<char>, IoBrokerValue> {
        Map::new(
            |k: Seq<char>| spec_lookup(self.items@, k) is Some,
            |k: Seq<char>| spec_lookup(self.items@, k)->0,
        )
    }
}

impl RawMapping {
    /// The entries in insertion order.
    pub closed spec fn entries(&self) -> Seq<(String, IoBrokerValue)> {
        self.items@
    }

    pub fn new() -> (r: Self)
        ensures
            r@ == Map::<Seq<char>, IoBrokerValue>::empty(),
            r.entries() == Seq::<(String, IoBrokerValue)>::empty(),
    {
        let r = RawMapping { items: Vec::new() };
        proof {
            assert(r@ =~= Map::<Seq<char>, IoBrokerValue>::empty());
        }
        r
    }

    pub fn len(&self) -> (n: usize)
        ensures
            n == self.entries().len(),
    {
        self.items.len()
    }

    /// Index of the first entry whose key matches, if any.
    fn find(&self, key: &str) -> (r: Option<usize>)
        ensures
            match r {
                Some(i) => {
                    &&& 0 <= i < self.items@.len()
                    &&& self.items@[i as int].0@ == key@
                    &&& forall|j: int| 0 <= j < i ==> self.items@[j].0@ != key@
                },
                None => forall|j: int| 0 <= j < self.items@.len() ==> self.items@[j].0@ != key@,
            },
    {
        let owned_key: String = key.to_owned();
        let n = self.items.len();
        let mut i: usize = 0;
        while i < n
            invariant
                0 <= i <= n,
                n == self.items@.len(),
                owned_key@ == key@,
                forall|j: int| 0 <= j < i ==> self.items@[j].0@ != key@,
            decreases n - i,
        {
            if self.items[i].0 == owned_key {
                return Some(i);
            }
            i += 1;
        }
        None
    }

    /// Looks a key up; `None` exactly when the key is absent.
    pub fn get(&self, key: &str) -> (r: Option<&IoBrokerValue>)
        ensures
            r is Some <==> self@.contains_key(key@),
            r matches Some(v) ==> *v == self@[key@],
    {
        match self.find(key) {
            Some(i) => {
                proof {
                    lemma_lookup_first_match(self.items@, key@, i as int);
                }
                Some(&self.items[i].1)
            },
            None => {
                proof {
                    lemma_lookup_no_match(self.items@, key@);
                    assert(!self@.contains_key(key@));
                }
                None
            },
        }
    }

    /// Inserts a reading, replacing the entry of an already-present key in
    /// place and appending a fresh key at the end.
    pub fn insert(&mut self, key: String, value: IoBrokerValue)
        ensures
            final(self)@ == old(self)@.insert(key@, value),
            !old(self)@.contains_key(key@) ==> final(self).entries() == old(self).entries().push(
                (key, value),
            ),
            old(self)@.contains_key(key@) ==> exists|i: int|
                0 <= i < old(self).entries().len() && old(self).entries()[i].0@ == key@
                    && final(self).entries() == old(self).entries().update(i, (key, value)),
    {
        let ghost es0 = self.items@;
        match self.find(key.as_str()) {
            Some(i) => {
                let ghost pair = (key, value);
                self.items.remove(i);
                self.items.insert(i, (key, value));
                proof {
                    assert(self.items@ =~= es0.update(i as int, pair));
                    lemma_lookup_first_match(es0, key@, i as int);
                    lemma_lookup_update_first(es0, key@, i as int, pair);
                    assert(self@ =~= old(self)@.insert(key@, value));
                    assert(old(self).entries()[i as int].0@ == key@ && self.entries() == old(
                        self,
                    ).entries().update(i as int, (key, value)));
                    assert(exists|j: int|
                        0 <= j < old(self).entries().len() && old(self).entries()[j].0@ == key@
                            && self.entries() == old(self).entries().update(j, (key, value)));
                }
            },
            None => {
                let ghost pair = (key, value);
                self.items.push((key, value));
                proof {
                    assert forall|k: Seq<char>| true implies #[trigger] spec_lookup(
                        self.items@,
                        k,
                    ) == (if k == key@ {
                        Some(value)
                    } else {
                        spec_lookup(es0, k)
                    }) by {
                        lemma_lookup_push(es0, pair, k);
                        if k == key@ {
                            lemma_lookup_no_match(es0, k);
                        }
                    }
                    lemma_lookup_no_match(es0, key@);
                    assert(!old(self)@.contains_key(key@));
                    assert(self@ =~= old(self)@.insert(key@, value));
                }
            },
        }
    }

    /// The entry at a position, for walking the whole mapping.
    pub fn entry_at(&self, i: usize) -> (r: &(String, IoBrokerValue))
        requires
            i < self.entries().len(),
        ensures
            *r == self.entries()[i as int],
    {
        &self.items[i]
    }
}

/// A matching entry with no earlier match fixes the lookup result.
proof fn lemma_lookup_first_match(es: Seq<(String, IoBrokerValue)>, k: Seq<char>, i: int)
    requires
        0 <= i < es.len(),
        es[i].0@ == k,
        forall|j: int| 0 <= j < i ==> es[j].0@ != k,
    ensures
        spec_lookup(es, k) == Some(es[i].1),
    decreases i,
{
    if i > 0 {
        lemma_lookup_first_match(es.drop_first(), k, i - 1);
    }
}

/// No matching entry means the lookup misses.
proof fn lemma_lookup_no_match(es: Seq<(String, IoBrokerValue)>, k: Seq<char>)
    requires
        forall|j: int| 0 <= j < es.len() ==> es[j].0@ != k,
    ensures
        spec_lookup(es, k) is None,
    decreases es.len(),
{
    if es.len() > 0 {
        lemma_lookup_no_match(es.drop_first(), k);
    }
}

/// Appending an entry only adds a binding for a previously missing key.
proof fn lemma_lookup_push(
    es: Seq<(String, IoBrokerValue)>,
    p: (String, IoBrokerValue),
    k: Seq<char>,
)
    ensures
        spec_lookup(es.push(p), k) == (if spec_lookup(es, k) is Some {
            spec_lookup(es, k)
        } else if p.0@ == k {
            Some(p.1)
        } else {
            None
        }),
    decreases es.len(),
{
    if es.len() == 0 {
        assert(es.push(p).drop_first() =~= es);
    } else {
        assert(es.push(p).drop_first() =~= es.drop_first().push(p));
        lemma_lookup_push(es.drop_first(), p, k);
    }
}

/// Replacing the first matching entry rebinds that key and nothing else.
proof fn lemma_lookup_update_first(
    es: Seq<(String, IoBrokerValue)>,
    key: Seq<char>,
    i: int,
    p: (String, IoBrokerValue),
)
    requires
        0 <= i < es.len(),
        es[i].0@ == key,
        p.0@ == key,
        forall|j: int| 0 <= j < i ==> es[j].0@ != key,
    ensures
        forall|k: Seq<char>| #[trigger]
            spec_lookup(es.update(i, p), k) == (if k == key {
                Some(p.1)
            } else {
                spec_lookup(es, k)
            }),
    decreases i,
{
    if i == 0 {
        assert forall|k: Seq<char>| true implies #[trigger] spec_lookup(es.update(0, p), k) == (
        if k == key {
            Some(p.1)
        } else {
            spec_lookup(es, k)
        }) by {
            assert(es.update(0, p)[0] == p);
            if k != key {
                assert(es.update(0, p).drop_first() =~= es.drop_first());
            }
        }
    } else {
        lemma_lookup_update_first(es.drop_first(), key, i - 1, p);
        assert forall|k: Seq<char>| true implies #[trigger] spec_lookup(es.update(i, p), k) == (
        if k == key {
            Some(p.1)
        } else {
            spec_lookup(es, k)
        }) by {
            assert(es.update(i, p)[0] == es[0]);
            assert(es.update(i, p).drop_first() =~= es.drop_first().update(i - 1, p));
            if es[0].0@ == k {
            } else {
                assert(spec_lookup(es.update(i, p), k) == spec_lookup(
                    es.drop_first().update(i - 1, p),
                    k,
                ));
            }
        }
    }
}

} // verus!
