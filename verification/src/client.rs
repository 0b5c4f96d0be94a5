//! One interface over the two ways to reach a registry.

use crate::actor::{ChannelClosed, Request, TicketStoreClient};
use crate::engine::PatchError;
use crate::ticket::{Ticket, TicketId, TicketPatch};
use crate::ticket_store::TicketStore;
use vstd::prelude::*;

verus! {

/// A way to reach a registry: through the command channel of a worker that owns it, or
/// through a shared handle on it. Callers written against this type work with either.
pub enum StoreClient {
    Actor(TicketStoreClient),
    Shared(TicketStore),
}

impl Clone for StoreClient {
    /// One more client of the same registry, reached the same way.
    fn clone(&self) -> (copy: Self)
        ensures
            copy is Shared <==> self is Shared,
    {
        match self {
            StoreClient::Actor(client) => StoreClient::Actor(client.clone()),
            StoreClient::Shared(store) => StoreClient::Shared(store.clone()),
        }
    }
}

impl StoreClient {
    /// Has `ticket` held in the registry and returns the handle it is held under. Through a
    /// shared handle this cannot fail. Through a worker, a command that could not be sent
    /// comes back in the error, and it is the one that asks to insert `ticket`.
    pub fn insert(&self, ticket: Ticket) -> (result: Result<TicketId, ChannelClosed>)
        ensures
            self is Shared ==> result == Ok::<TicketId, ChannelClosed>(ticket.id),
            result matches Err(ChannelClosed::NotSent(back)) ==> back.request() == Request::Insert(
                ticket,
            ),
    {
        match self {
            StoreClient::Actor(client) => client.insert(ticket),
            StoreClient::Shared(store) => {
                let id = ticket.id;
                store.insert(ticket);
                Ok(id)
            },
        }
    }

    /// A copy of the ticket held under `id`, if one is held. Through a shared handle this
    /// cannot fail, and the ticket returned has the handle asked for. Through a worker, a
    /// command that could not be sent comes back in the error, and it is the one that asks
    /// for `id`.
    pub fn get(&self, id: TicketId) -> (result: Result<Option<Ticket>, ChannelClosed>)
        ensures
            self is Shared ==> result is Ok,
            self is Shared ==> (result matches Ok(Some(ticket)) ==> ticket.id == id),
            result matches Err(ChannelClosed::NotSent(back)) ==> back.request() == Request::Get(id),
    {
        match self {
            StoreClient::Actor(client) => client.get(id),
            StoreClient::Shared(store) => Ok(store.get(id)),
        }
    }

    /// Has `patch` applied to the ticket it names. Through a shared handle the call itself
    /// cannot fail, and the patch is never turned down for naming another ticket. Through a
    /// worker, a command that could not be sent comes back in the error, and it is the one
    /// that asks to apply `patch`.
    pub fn patch(&self, patch: TicketPatch) -> (result: Result<
        Result<(), PatchError>,
        ChannelClosed,
    >)
        ensures
            self is Shared ==> result is Ok,
            self is Shared ==> (result matches Ok(Err(error)) ==> error == PatchError::NotFound(
                patch.id,
            )),
            result matches Err(ChannelClosed::NotSent(back)) ==> back.request() == Request::Patch(
                patch,
            ),
    {
        match self {
            StoreClient::Actor(client) => client.patch(patch),
            StoreClient::Shared(store) => {
                let id = patch.id;
                Ok(store.patch(id, patch))
            },
        }
    }
}

} // verus!
