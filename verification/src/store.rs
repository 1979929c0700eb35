//! The connection store as the registration sees it: one record per uuid, read
//! by uuid and replaced as a whole. The store itself lives outside the crate;
//! this is what is assumed of it when a whole registration is reasoned about.

use vstd::prelude::*;
use crate::connection::ConnectionView;

verus! {

/// The records of a store, by uuid.
pub type Store = Map<Seq<char>, ConnectionView>;

/// Every record is filed under its own uuid.
pub open spec fn keyed(store: Store) -> bool {
    forall|uuid: Seq<char>| store.dom().contains(uuid) ==> (#[trigger] store[uuid]).uuid == uuid
}

/// The record stored for `uuid`, if there is one.
pub open spec fn lookup(store: Store, uuid: Seq<char>) -> Option<ConnectionView> {
    if store.dom().contains(uuid) {
        Some(store[uuid])
    } else {
        None
    }
}

/// The store after `co` has been written: `co` stands in place of whatever
/// record its uuid had, and nothing else has changed.
pub open spec fn upsert(store: Store, co: ConnectionView) -> Store {
    store.insert(co.uuid, co)
}

/// The store after `writes` have been asked of it in turn, all of them taken
/// (`ok`) or all of them refused.
pub open spec fn settle(store: Store, writes: Seq<ConnectionView>, ok: bool) -> Store
    decreases writes.len(),
{
    if writes.len() == 0 || !ok {
        store
    } else {
        upsert(settle(store, writes.drop_last(), ok), writes.last())
    }
}

/// A write keeps every record under its own uuid, and is what the next read of
/// that uuid returns; other uuids read as before.
pub proof fn upsert_is_read_back(store: Store, co: ConnectionView, uuid: Seq<char>)
    ensures
        keyed(store) ==> keyed(upsert(store, co)),
        lookup(upsert(store, co), co.uuid) == Some(co),
        uuid != co.uuid ==> lookup(upsert(store, co), uuid) == lookup(store, uuid),
{
}

/// Of two writes under one uuid the later one stands: the store is as if the
/// earlier had never been made.
pub proof fn last_write_wins(store: Store, earlier: ConnectionView, later: ConnectionView)
    requires
        earlier.uuid == later.uuid,
    ensures
        upsert(upsert(store, earlier), later) == upsert(store, later),
{
    assert(upsert(upsert(store, earlier), later) =~= upsert(store, later));
}

} // verus!
