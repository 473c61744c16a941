//! The generic vertex and edge contracts: the operation set any record
//! kind must offer to participate in the store, with each kind's exact
//! semantics supplied through associated spec functions.

use vstd::prelude::*;

use crate::error::Error;
use crate::store::GraphStore;

verus! {

/// All vertex kinds, parameterized by their persisted-record type.
pub trait Vertex<R>: Sized {
    /// The vertex's UUID, if assigned.
    spec fn uuid_of(&self) -> Option<u128>;

    /// What an upsert of this vertex does to the store.
    spec fn upsert_post(&self, pre: GraphStore, post: GraphStore, rec: R) -> bool;

    /// What a point lookup by UUID returns.
    spec fn find_post(store: GraphStore, uuid: u128, found: Option<R>) -> bool;

    /// What the neighbor traversal returns.
    spec fn neighbors_post(&self, store: GraphStore, result: Seq<R>) -> bool;

    /// Returns UUID of self.
    fn uuid(&self) -> (r: Option<u128>)
        ensures
            r == self.uuid_of(),
    ;

    /// Create or update a vertex.
    fn create_or_update(&self, store: &mut GraphStore) -> (r: Result<R, Error>)
        requires
            old(store).wf(),
        ensures
            final(store).wf(),
            r matches Ok(rec) && self.upsert_post(*old(store), *final(store), rec),
    ;

    /// Find a vertex by UUID; `None` is not an error.
    fn find_by_uuid(store: &GraphStore, uuid: u128) -> (r: Result<Option<R>, Error>)
        ensures
            r matches Ok(found) && Self::find_post(*store, uuid, found),
    ;

    /// Traverse all vertices directly linked by an outgoing edge.
    fn neighbors(&self, store: &GraphStore) -> (r: Result<Vec<R>, Error>)
        requires
            store.wf(),
        ensures
            r matches Ok(v) && self.neighbors_post(*store, v@),
    ;
}

/// All edge kinds, parameterized by the two endpoint record types and
/// their own persisted-record type.
pub trait Edge<FromRecord, ToRecord, R>: Sized {
    /// The edge's UUID, if assigned.
    spec fn uuid_of(&self) -> Option<u128>;

    /// What `connect` asks of the store and the endpoints.
    spec fn connect_pre(pre: GraphStore, from: FromRecord, to: ToRecord) -> bool;

    /// What `connect` does to the store.
    spec fn connect_post(
        &self,
        pre: GraphStore,
        post: GraphStore,
        rec: R,
        from: FromRecord,
        to: ToRecord,
    ) -> bool;

    /// What a point lookup by UUID returns.
    spec fn find_post(store: GraphStore, uuid: u128, found: Option<R>) -> bool;

    /// Returns UUID of self.
    fn uuid(&self) -> (r: Option<u128>)
        ensures
            r == self.uuid_of(),
    ;

    /// Find an edge by UUID; `None` is not an error.
    fn find_by_uuid(store: &GraphStore, uuid: u128) -> (r: Result<Option<R>, Error>)
        ensures
            r matches Ok(found) && Self::find_post(*store, uuid, found),
    ;

    /// Connect two vertex records with this edge, idempotently.
    fn connect(&self, store: &mut GraphStore, from: &FromRecord, to: &ToRecord) -> (r: Result<
        R,
        Error,
    >)
        requires
            old(store).wf(),
            Self::connect_pre(*old(store), *from, *to),
        ensures
            final(store).wf(),
            r matches Ok(rec) && self.connect_post(*old(store), *final(store), rec, *from, *to),
    ;
}

} // verus!
