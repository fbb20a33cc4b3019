//! The dialogs of the callees of a call, in a concurrent map.

use crate::text;
use vstd::prelude::*;

verus! {

/// A concurrent map of `dashmap`.
#[verifier::external_type_specification]
#[verifier::external_body]
#[verifier::reject_recursive_types(K)]
#[verifier::reject_recursive_types(V)]
#[verifier::reject_recursive_types(S)]
pub struct ExDashMap<K, V, S>(dashmap::DashMap<K, V, S>);

/// The keys that a map of `dashmap` holds.
pub uninterp spec fn dialogs_in(map: dashmap::DashMap<String, ()>) -> Set<Seq<char>>;

/// `dashmap::DashMap::new`: a map without keys.
#[verifier::external_body]
fn new_map() -> (r: dashmap::DashMap<String, ()>)
    ensures
        dialogs_in(r) == Set::<Seq<char>>::empty(),
{
    dashmap::DashMap::new()
}

/// `dashmap::DashMap::insert`, without a value: the map holds the key, and what it held.
#[verifier::external_body]
fn insert_key(map: &mut dashmap::DashMap<String, ()>, key: String)
    ensures
        dialogs_in(*final(map)) == dialogs_in(*old(map)).insert(key@),
{
    map.insert(key, ());
}

/// `dashmap::DashMap::remove`: the map does not hold the key, and holds all others that it
/// held.
#[verifier::external_body]
fn remove_key(map: &mut dashmap::DashMap<String, ()>, key: &str)
    ensures
        dialogs_in(*final(map)) == dialogs_in(*old(map)).remove(key@),
{
    map.remove(key);
}

/// `dashmap::DashMap::contains_key`: whether the map holds the key.
#[verifier::external_body]
fn has_key(map: &dashmap::DashMap<String, ()>, key: &str) -> (r: bool)
    ensures
        r == dialogs_in(*map).contains(key@),
{
    map.contains_key(key)
}

/// `dashmap::DashMap::is_empty`: whether the map holds no key.
#[verifier::external_body]
fn has_no_keys(map: &dashmap::DashMap<String, ()>) -> (r: bool)
    ensures
        r == (dialogs_in(*map) == Set::<Seq<char>>::empty()),
{
    map.is_empty()
}

/// `dashmap::DashMap::clear`: the map holds no key.
#[verifier::external_body]
fn clear_keys(map: &mut dashmap::DashMap<String, ()>)
    ensures
        dialogs_in(*final(map)) == Set::<Seq<char>>::empty(),
{
    map.clear();
}

/// `dashmap::DashMap::iter`, walked to its end: the keys of the map, each once. Nothing is
/// said of their order.
#[verifier::external_body]
fn keys_of(map: &dashmap::DashMap<String, ()>) -> (r: Vec<String>)
    ensures
        text::views(r@).no_duplicates(),
        text::views(r@).to_set() == dialogs_in(*map),
{
    map.iter().map(|entry| entry.key().clone()).collect()
}

/// The names of the dialogs of a call's callees.
pub struct DialogSet {
    map: dashmap::DashMap<String, ()>,
}

impl View for DialogSet {
    type V = Set<Seq<char>>;

    closed spec fn view(&self) -> Set<Seq<char>> {
        dialogs_in(self.map)
    }
}

impl DialogSet {
    pub fn new() -> (r: DialogSet)
        ensures
            r@ == Set::<Seq<char>>::empty(),
    {
        DialogSet { map: new_map() }
    }

    pub fn contains(&self, dialog: &str) -> (r: bool)
        ensures
            r == self@.contains(dialog@),
    {
        has_key(&self.map, dialog)
    }

    pub fn is_empty(&self) -> (r: bool)
        ensures
            r == (self@ == Set::<Seq<char>>::empty()),
    {
        has_no_keys(&self.map)
    }

    /// The dialogs, each once, in any order.
    pub fn names(&self) -> (r: Vec<String>)
        ensures
            text::views(r@).no_duplicates(),
            text::views(r@).to_set() == self@,
    {
        keys_of(&self.map)
    }

    pub fn insert(&mut self, dialog: String)
        ensures
            final(self)@ == old(self)@.insert(dialog@),
    {
        insert_key(&mut self.map, dialog)
    }

    pub fn remove(&mut self, dialog: &str)
        ensures
            final(self)@ == old(self)@.remove(dialog@),
    {
        remove_key(&mut self.map, dialog)
    }

    pub fn clear(&mut self)
        ensures
            final(self)@ == Set::<Seq<char>>::empty(),
    {
        clear_keys(&mut self.map)
    }
}

} // verus!
