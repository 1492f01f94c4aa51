//! The connection table: one connection per quad, made on first contact.

use std::collections::HashMap;
use vstd::prelude::*;
use crate::quad::{lemma_key_is_injective, Quad};
use crate::tcp::Connection;

verus! {

/// The connections of the endpoint, each under the quad that identifies it.
///
/// The table only grows: nothing in it removes a connection.
pub struct ConnectionTable {
    map: HashMap<u128, Connection>,
}

/// The connection that a table with contents `m` hands out for `key`: the one
/// kept under `key`, or a fresh one where there is none.
pub open spec fn found_or_fresh(m: Map<u128, Connection>, key: Quad) -> Connection {
    if m.contains_key(key.key()) {
        m[key.key()]
    } else {
        Connection::fresh()
    }
}

impl ConnectionTable {
    /// The contents of the table: which connection is kept under which quad.
    /// A quad stands in it as its key, [`Quad::key`], and no two quads have
    /// the same key.
    pub closed spec fn view(&self) -> Map<u128, Connection> {
        self.map@
    }

    /// An empty table.
    pub fn new() -> (table: ConnectionTable)
        ensures
            table@ == Map::<u128, Connection>::empty(),
    {
        ConnectionTable { map: HashMap::new() }
    }

    /// The connection kept under `key`. Where there is none yet, a fresh one
    /// is put under `key` first. The table afterwards holds under `key`
    /// whatever the caller leaves in the connection, and is unchanged elsewhere.
    pub fn get_or_create(&mut self, key: Quad) -> (conn: &mut Connection)
        ensures
            *conn == found_or_fresh(old(self)@, key),
            final(self)@ == old(self)@.insert(key.key(), *final(conn)),
    {
        broadcast use vstd::std_specs::hash::group_hash_axioms;

        self.map.entry(key.to_key()).or_insert(Connection::new())
    }

    /// The connection kept under `key`, if there is one.
    pub fn get(&self, key: &Quad) -> (found: Option<Connection>)
        ensures
            found == (if self@.contains_key(key.key()) {
                Some(self@[key.key()])
            } else {
                None
            }),
    {
        broadcast use vstd::std_specs::hash::group_hash_axioms;

        let k: u128 = key.to_key();
        match self.map.get(&k) {
            Some(conn) => Some(*conn),
            None => None,
        }
    }

    /// Whether a connection is kept under `key`.
    pub fn contains(&self, key: &Quad) -> (found: bool)
        ensures
            found == self@.contains_key(key.key()),
    {
        broadcast use vstd::std_specs::hash::group_hash_axioms;

        let k: u128 = key.to_key();
        self.map.contains_key(&k)
    }

    /// The number of connections in the table.
    pub fn len(&self) -> (n: usize)
        ensures
            n == self@.len(),
            self@.dom().finite(),
    {
        broadcast use vstd::std_specs::hash::group_hash_axioms;

        self.map.len()
    }
}

impl Default for ConnectionTable {
    /// An empty table.
    fn default() -> (table: ConnectionTable)
        ensures
            table@ == Map::<u128, Connection>::empty(),
    {
        ConnectionTable::new()
    }
}

/// Quad uniqueness. A table hands out one connection per quad: asking again
/// under an equal key gives the connection as it was left and makes no new
/// entry, while a different quad has a different place in the table, so
/// that what is done to its connection leaves the first one as it was.
pub proof fn lemma_one_connection_per_quad(
    m: Map<u128, Connection>,
    key: Quad,
    left: Connection,
    other: Quad,
    right: Connection,
)
    ensures
        found_or_fresh(m.insert(key.key(), left), key) == left,
        m.insert(key.key(), left).insert(key.key(), found_or_fresh(m.insert(key.key(), left), key))
            == m.insert(key.key(), left),
        other != key ==> other.key() != key.key(),
        other != key ==> found_or_fresh(m.insert(other.key(), right), key) == found_or_fresh(m, key),
        other != key ==> found_or_fresh(m.insert(key.key(), left).insert(other.key(), right), key)
            == left,
{
    if other.key() == key.key() {
        lemma_key_is_injective(other, key);
    }
}

} // verus!
