//! A registry shared between callers, behind a reader-writer lock.

pub use crate::engine::PatchError;
use crate::engine::{keyed, patch_outcome, StoreEngine};
use crate::ticket::{Ticket, TicketId, TicketPatch, TicketView};
use parking_lot::{RwLock, RwLockReadGuard, RwLockWriteGuard};
use std::sync::Arc;
use vstd::prelude::*;

verus! {

/// `lock_api::RwLock`, the lock behind `parking_lot::RwLock`. Nothing is known of what a
/// value of it holds.
#[verifier::external_type_specification]
#[verifier::external_body]
#[verifier::reject_recursive_types(R)]
#[verifier::reject_recursive_types(T)]
pub struct ExRwLock<R, T: ?Sized>(parking_lot::lock_api::RwLock<R, T>);

/// `parking_lot::RawRwLock`, the lock word of `parking_lot::RwLock`.
#[verifier::external_type_specification]
#[verifier::external_body]
pub struct ExRawRwLock(parking_lot::RawRwLock);

/// Shared access to the registry behind a lock: a `parking_lot::RwLockReadGuard`, which
/// gives the access up when it is dropped.
#[verifier::external_body]
struct ReadAccess<'a> {
    guard: RwLockReadGuard<'a, StoreEngine>,
}

/// Exclusive access to the registry behind a lock: a `parking_lot::RwLockWriteGuard`, which
/// gives the access up when it is dropped.
#[verifier::external_body]
struct WriteAccess<'a> {
    guard: RwLockWriteGuard<'a, StoreEngine>,
}

/// The tickets of the registry that `lock` was made around. What the lock holds later is
/// another matter: that changes with every writer, and has no name.
pub uninterp spec fn made_around(lock: RwLock<StoreEngine>) -> Map<u64, TicketView>;

/// `RwLock::new`: an unlocked lock around `engine`. The lock is made with `engine` as what
/// it protects; nothing else is claimed of it.
#[verifier::external_body]
fn lock_around(engine: StoreEngine) -> (lock: RwLock<StoreEngine>)
    ensures
        made_around(lock) == engine@,
{
    RwLock::new(engine)
}

/// `RwLock::read`: waits until no writer has the lock and returns shared access. Nothing is
/// claimed of what the lock then holds: other callers may have written since any earlier
/// call. A thread that asks while it has access to the same lock itself may wait for ever;
/// the functions of this file give their access up before they return and never ask twice.
#[verifier::external_body]
fn shared_access<'a>(lock: &'a RwLock<StoreEngine>) -> ReadAccess<'a> {
    ReadAccess { guard: lock.read() }
}

/// `RwLock::write`: waits until nobody else has the lock and returns exclusive access.
/// Nothing is claimed of what the lock then holds. A thread that asks while it has access to
/// the same lock itself waits for ever; the functions of this file give their access up
/// before they return and never ask twice.
#[verifier::external_body]
fn exclusive_access<'a>(lock: &'a RwLock<StoreEngine>) -> WriteAccess<'a> {
    WriteAccess { guard: lock.write() }
}

/// `Deref::deref` of the read guard: the registry behind the lock.
#[verifier::external_body]
fn read_through<'a, 'b>(access: &'b ReadAccess<'a>) -> &'b StoreEngine {
    &*access.guard
}

/// `DerefMut::deref_mut` of the write guard: the registry behind the lock, to be changed in
/// place.
#[verifier::external_body]
fn write_through<'a, 'b>(access: &'b mut WriteAccess<'a>) -> &'b mut StoreEngine {
    &mut *access.guard
}

/// `Arc::clone`: one more pointer to the same lock.
#[verifier::external_body]
fn same_lock(lock: &Arc<RwLock<StoreEngine>>) -> (copy: Arc<RwLock<StoreEngine>>)
    ensures
        copy == *lock,
{
    Arc::clone(lock)
}

/// A handle on a registry that many callers share. Every clone of the handle reaches the same
/// registry; each operation has the registry to itself while it runs, readers together with
/// other readers.
#[derive(Debug)]
pub struct TicketStore {
    tickets: Arc<RwLock<StoreEngine>>,
}

impl Clone for TicketStore {
    /// One more handle on the same registry.
    fn clone(&self) -> (copy: Self)
        ensures
            copy == *self,
    {
        TicketStore { tickets: same_lock(&self.tickets) }
    }
}

impl TicketStore {
    /// The tickets that the registry held when it was made, before any handle wrote to it.
    pub closed spec fn made_with(&self) -> Map<u64, TicketView> {
        made_around(*self.tickets)
    }

    /// A handle on a new registry that holds no ticket.
    pub fn new() -> (store: Self)
        ensures
            store.made_with() == Map::<u64, TicketView>::empty(),
    {
        TicketStore { tickets: Arc::new(lock_around(StoreEngine::new())) }
    }

    /// A copy of the ticket that the registry holds under `id` at the moment of the call, if
    /// it holds one.
    pub fn get(&self, id: TicketId) -> (found: Option<Ticket>)
        ensures
            found matches Some(ticket) ==> ticket.id == id,
    {
        let access = shared_access(&*self.tickets);
        let engine = read_through(&access);
        engine.get(id)
    }

    /// Holds `ticket` in the registry under its handle, in place of the ticket that was held
    /// there.
    pub fn insert(&self, ticket: Ticket) {
        let mut access = exclusive_access(&*self.tickets);
        let engine = write_through(&mut access);
        engine.insert(ticket);
    }

    /// Applies `patch` to the ticket that the registry holds under `id` at the moment of the
    /// call.
    pub fn patch(&self, id: TicketId, patch: TicketPatch) -> (result: Result<(), PatchError>)
        ensures
            exists|tickets: Map<u64, TicketView>|
                keyed(tickets) && result == patch_outcome(tickets, id, patch),
            patch.id != id ==> result is Err,
    {
        let mut access = exclusive_access(&*self.tickets);
        let engine = write_through(&mut access);
        let ghost before = engine@;
        let result = engine.patch(id, patch);
        assert(keyed(before) && result == patch_outcome(before, id, patch));
        result
    }
}

} // verus!
