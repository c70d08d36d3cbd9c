//! The store of default headers, which every response starts from.

use vstd::prelude::*;
use crate::assoc::{as_map, keys_unique};

verus! {

/// `dashmap::DashMap`, made known as a type. Nothing is seen of what is
/// inside a value; what it holds is spoken of through `header_entries`.
#[verifier::external_type_specification]
#[verifier::external_body]
#[verifier::reject_recursive_types(K)]
#[verifier::reject_recursive_types(V)]
#[verifier::reject_recursive_types(S)]
pub struct ExDashMap<K, V, S>(dashmap::DashMap<K, V, S>);

/// Header names with their values.
pub type HeaderMap = Map<Seq<char>, Seq<char>>;

/// The headers that a `DashMap` holds, each name with its value. The
/// contracts of `DashMap::new`, `insert`, `remove` and `iter` below say all
/// that is known of it.
pub uninterp spec fn header_entries(store: dashmap::DashMap<String, String>) -> HeaderMap;

/// `DashMap::new`: the map it returns holds nothing.
#[verifier::external_body]
fn store_new() -> (fresh: dashmap::DashMap<String, String>)
    ensures
        header_entries(fresh) == HeaderMap::empty(),
{
    dashmap::DashMap::new()
}

/// `DashMap::insert`: afterwards the key has the new value, whether or not
/// it had one, and every other key has what it had.
#[verifier::external_body]
fn store_insert(store: &mut dashmap::DashMap<String, String>, key: String, value: String)
    ensures
        header_entries(*final(store)) == header_entries(*old(store)).insert(key@, value@),
{
    store.insert(key, value);
}

/// `DashMap::remove`: afterwards the key has no value, and every other key
/// has what it had.
#[verifier::external_body]
fn store_remove(store: &mut dashmap::DashMap<String, String>, key: &str)
    ensures
        header_entries(*final(store)) == header_entries(*old(store)).remove(key@),
{
    store.remove(key);
}

/// `DashMap::iter`: walks every entry once, in no order that can be relied
/// on. The pairs returned are copies of the entries: no key twice, and as a
/// map they are what the store holds.
#[verifier::external_body]
fn store_snapshot(store: &dashmap::DashMap<String, String>) -> (pairs: Vec<(String, String)>)
    ensures
        keys_unique(pairs.deep_view()),
        as_map(pairs.deep_view()) == header_entries(*store),
{
    store.iter().map(|entry| (entry.key().clone(), entry.value().clone())).collect()
}

/// The default headers of a server. They can be changed at any time; a
/// response takes them as they are when it is put together.
pub struct HeaderStore {
    entries: dashmap::DashMap<String, String>,
}

impl View for HeaderStore {
    type V = HeaderMap;

    closed spec fn view(&self) -> HeaderMap {
        header_entries(self.entries)
    }
}

impl HeaderStore {
    /// A store without headers.
    pub fn new() -> (store: Self)
        ensures
            store@ == HeaderMap::empty(),
    {
        HeaderStore { entries: store_new() }
    }

    /// Sets the header `key` to `value`.
    pub fn insert(&mut self, key: &str, value: &str)
        ensures
            final(self)@ == old(self)@.insert(key@, value@),
    {
        store_insert(&mut self.entries, key.to_owned(), value.to_owned());
    }

    /// Takes the header `key` away.
    pub fn remove(&mut self, key: &str)
        ensures
            final(self)@ == old(self)@.remove(key@),
    {
        store_remove(&mut self.entries, key);
    }

    /// The headers as they are now, each once, in no particular order.
    pub fn snapshot(&self) -> (pairs: Vec<(String, String)>)
        ensures
            keys_unique(pairs.deep_view()),
            as_map(pairs.deep_view()) == self@,
    {
        store_snapshot(&self.entries)
    }
}

} // verus!
