//! The per-element attribute store and the three-tier resolution chain:
//! parent-injected extra attributes, then the element's own raw attributes,
//! then the element kind's static default table.

use vstd::prelude::*;
use crate::strings::{str_eq, opt_str_view};

verus! {

/// Key/value store for one element's attributes. Keys are unique in the
/// abstract view: a later write to the same key wins.
pub struct Attributes {
    entries: Vec<(String, String)>,
}

/// Abstract content of an entry sequence: the last write to a key wins.
pub open spec fn entries_map(s: Seq<(String, String)>) -> Map<Seq<char>, Seq<char>>
    decreases s.len(),
{
    if s.len() == 0 {
        Map::empty()
    } else {
        entries_map(s.drop_last()).insert(s.last().0@, s.last().1@)
    }
}

/// Value of `k` in an entry sequence, scanning from the latest write.
pub open spec fn entries_get(s: Seq<(String, String)>, k: Seq<char>) -> Option<Seq<char>>
    decreases s.len(),
{
    if s.len() == 0 {
        None
    } else if s.last().0@ == k {
        Some(s.last().1@)
    } else {
        entries_get(s.drop_last(), k)
    }
}

proof fn lemma_entries_get_map(s: Seq<(String, String)>, k: Seq<char>)
    ensures
        entries_map(s).contains_key(k) <==> entries_get(s, k) is Some,
        entries_get(s, k) is Some ==> entries_map(s)[k] == entries_get(s, k).unwrap(),
    decreases s.len(),
{
    if s.len() > 0 {
        lemma_entries_get_map(s.drop_last(), k);
    }
}

impl View for Attributes {
    type V = Map<Seq<char>, Seq<char>>;

    closed spec fn view(&self) -> Map<Seq<char>, Seq<char>> {
        entries_map(self.entries@)
    }
}

impl Attributes {
    /// An empty store.
    pub fn new() -> (r: Attributes)
        ensures
            r@ == Map::<Seq<char>, Seq<char>>::empty(),
    {
        Attributes { entries: Vec::new() }
    }

    /// Sets `key` to `value`; an existing binding of `key` is replaced.
    pub fn insert(&mut self, key: String, value: String)
        ensures
            final(self)@ == old(self)@.insert(key@, value@),
    {
        let ghost pre = self.entries@;
        self.entries.push((key, value));
        proof {
            assert(self.entries@.drop_last() =~= pre);
        }
    }

    /// Sets `key` to `value` when a value is given; does nothing otherwise.
    pub fn maybe_insert(&mut self, key: String, value: Option<String>)
        ensures
            final(self)@ == match value {
                Some(v) => old(self)@.insert(key@, v@),
                None => old(self)@,
            },
    {
        if let Some(v) = value {
            self.insert(key, v);
        }
    }

    /// The value bound to `key`, if any.
    pub fn get<'a>(&'a self, key: &str) -> (r: Option<&'a String>)
        ensures
            match r {
                Some(v) => self.spec_get(key@) == Some(v@),
                None => self.spec_get(key@) is None,
            },
    {
        let mut i: usize = self.entries.len();
        proof {
            assert(self.entries@.take(i as int) =~= self.entries@);
        }
        while i > 0
            invariant
                i <= self.entries@.len(),
                entries_get(self.entries@, key@) == entries_get(
                    self.entries@.take(i as int),
                    key@,
                ),
            decreases i,
        {
            i = i - 1;
            proof {
                assert(self.entries@.take(i as int + 1).drop_last() =~= self.entries@.take(
                    i as int,
                ));
                assert(self.entries@.take(i as int + 1).last() == self.entries@[i as int]);
            }
            if str_eq(self.entries[i].0.as_str(), key) {
                proof {
                    lemma_entries_get_map(self.entries@, key@);
                }
                return Some(&self.entries[i].1);
            }
        }
        proof {
            lemma_entries_get_map(self.entries@, key@);
        }
        None
    }

    /// The stored entries in insertion order, for emission into markup.
    pub closed spec fn entries_view(&self) -> Seq<(Seq<char>, Seq<char>)> {
        Seq::new(self.entries@.len(), |i: int| (self.entries@[i].0@, self.entries@[i].1@))
    }

    /// How many entries the store holds.
    pub fn entry_count(&self) -> (r: usize)
        ensures
            r == self.entries_view().len(),
    {
        self.entries.len()
    }

    /// The entry at `i`, in insertion order.
    pub fn entry_at(&self, i: usize) -> (r: (&String, &String))
        requires
            i < self.entries_view().len(),
        ensures
            r.0@ == self.entries_view()[i as int].0,
            r.1@ == self.entries_view()[i as int].1,
    {
        (&self.entries[i].0, &self.entries[i].1)
    }

    /// The value bound to `key` in the abstract view.
    pub open spec fn spec_get(&self, key: Seq<char>) -> Option<Seq<char>> {
        if self@.contains_key(key) {
            Some(self@[key])
        } else {
            None
        }
    }
}

/// `m` with `k` bound to `v` when a value is given.
pub open spec fn opt_insert(
    m: Map<Seq<char>, Seq<char>>,
    k: Seq<char>,
    v: Option<Seq<char>>,
) -> Map<Seq<char>, Seq<char>> {
    match v {
        Some(x) => m.insert(k, x),
        None => m,
    }
}

/// The attribute-resolution chain: a parent-injected extra attribute wins,
/// then the element's own raw attribute, then the kind's default.
pub open spec fn resolve_spec(
    extra: Map<Seq<char>, Seq<char>>,
    raw: Map<Seq<char>, Seq<char>>,
    default: Option<Seq<char>>,
    name: Seq<char>,
) -> Option<Seq<char>> {
    if extra.contains_key(name) {
        Some(extra[name])
    } else if raw.contains_key(name) {
        Some(raw[name])
    } else {
        default
    }
}

/// Resolves `name` through the three tiers; `default` is the value of the
/// kind's static default table at `name`.
pub fn resolve_attribute(
    extra: &Attributes,
    raw: &Attributes,
    default: Option<&str>,
    name: &str,
) -> (r: Option<String>)
    ensures
        opt_str_view(r) == resolve_spec(
            extra@,
            raw@,
            match default {
                Some(d) => Some(d@),
                None => None,
            },
            name@,
        ),
{
    if let Some(v) = extra.get(name) {
        return Some(v.clone());
    }
    if let Some(v) = raw.get(name) {
        return Some(v.clone());
    }
    match default {
        Some(d) => Some(d.to_owned()),
        None => None,
    }
}

/// True when `name` resolves to exactly `value`.
pub fn resolved_equals(
    extra: &Attributes,
    raw: &Attributes,
    default: Option<&str>,
    name: &str,
    value: &str,
) -> (r: bool)
    ensures
        r == (resolve_spec(
            extra@,
            raw@,
            match default {
                Some(d) => Some(d@),
                None => None,
            },
            name@,
        ) == Some(value@)),
{
    match resolve_attribute(extra, raw, default, name) {
        Some(v) => str_eq(v.as_str(), value),
        None => false,
    }
}

} // verus!
