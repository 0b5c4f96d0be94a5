//! The registry itself: tickets held by the number of their handle.

use crate::ticket::{Ticket, TicketId, TicketPatch, TicketPatchView, TicketUpdateError, TicketView};
use crate::decimal::{append_decimal, decimal};
use std::collections::BTreeMap;
use vstd::prelude::*;
use vstd::string::StringExecFns;

verus! {

broadcast use vstd::std_specs::btree::group_btree_axioms;

/// Why a patch was not applied.
#[derive(Debug, Clone, Copy, PartialEq, Eq, Structural)]
pub enum PatchError {
    /// No ticket is held under the handle.
    NotFound(TicketId),
    /// The patch names another ticket than the one it was sent to.
    Mismatch(TicketUpdateError),
}

impl From<TicketUpdateError> for PatchError {
    fn from(mismatch: TicketUpdateError) -> (error: Self)
        ensures
            error == PatchError::Mismatch(mismatch),
    {
        PatchError::Mismatch(mismatch)
    }
}

impl vstd::std_specs::convert::FromSpecImpl<TicketUpdateError> for PatchError {
    open spec fn obeys_from_spec() -> bool {
        true
    }

    open spec fn from_spec(mismatch: TicketUpdateError) -> Self {
        PatchError::Mismatch(mismatch)
    }
}

impl PatchError {
    /// The error in words.
    pub open spec fn message(self) -> Seq<char> {
        match self {
            PatchError::NotFound(id) => "Requested Ticket "@ + decimal(id@ as nat) + " not found"@,
            PatchError::Mismatch(mismatch) => mismatch.message(),
        }
    }

    /// The error in words.
    pub fn to_string(&self) -> (text: String)
        ensures
            text@ == self.message(),
    {
        match self {
            PatchError::NotFound(id) => {
                let mut text = String::from_str("Requested Ticket ");
                append_decimal(&mut text, id.value());
                text.append(" not found");
                text
            },
            PatchError::Mismatch(mismatch) => mismatch.to_string(),
        }
    }
}

/// Whether every ticket of `tickets` is held under the number of its own handle.
pub open spec fn keyed(tickets: Map<u64, TicketView>) -> bool {
    forall|number: u64| tickets.contains_key(number) ==> (#[trigger] tickets[number]).id == number
}

/// The ticket held under `number`, if there is one.
pub open spec fn lookup(tickets: Map<u64, TicketView>, number: u64) -> Option<TicketView> {
    if tickets.contains_key(number) {
        Some(tickets[number])
    } else {
        None
    }
}

/// `tickets` with `ticket` held under its handle, in place of what was held there.
pub open spec fn inserted(tickets: Map<u64, TicketView>, ticket: TicketView) -> Map<
    u64,
    TicketView,
> {
    tickets.insert(ticket.id, ticket)
}

/// Whether `patch`, sent to the ticket `number`, is applied: the ticket is held and the patch
/// is meant for it.
pub open spec fn applies(tickets: Map<u64, TicketView>, number: u64, patch: TicketPatchView) -> bool {
    tickets.contains_key(number) && patch.id == number
}

/// `tickets` after `patch` was sent to the ticket `number`: that ticket patched where the
/// patch is applied, and nothing changed where it is not.
pub open spec fn patched(
    tickets: Map<u64, TicketView>,
    number: u64,
    patch: TicketPatchView,
) -> Map<u64, TicketView> {
    if applies(tickets, number, patch) {
        tickets.insert(number, tickets[number].patched(patch))
    } else {
        tickets
    }
}

/// What sending `patch` to the ticket `id` returns.
pub open spec fn patch_outcome(
    tickets: Map<u64, TicketView>,
    id: TicketId,
    patch: TicketPatch,
) -> Result<(), PatchError> {
    if !tickets.contains_key(id@) {
        Err(PatchError::NotFound(id))
    } else if patch.id != id {
        Err(PatchError::Mismatch(TicketUpdateError { original_id: id, patch_id: patch.id }))
    } else {
        Ok(())
    }
}

/// The tickets of one registry. Each is held under the number of its own handle, and at most
/// one under each number.
#[derive(Debug)]
pub struct StoreEngine {
    tickets: BTreeMap<u64, Ticket>,
}

impl View for StoreEngine {
    type V = Map<u64, TicketView>;

    /// The tickets held, as plain values, by the number they are held under.
    closed spec fn view(&self) -> Map<u64, TicketView> {
        self.tickets@.map_values(|ticket: Ticket| ticket@)
    }
}

impl StoreEngine {
    #[verifier::type_invariant]
    spec fn held_by_own_number(self) -> bool {
        forall|number: u64|
            self.tickets@.contains_key(number) ==> (#[trigger] self.tickets@[number]).id@ == number
    }

    /// A registry that holds no ticket.
    pub fn new() -> (engine: Self)
        ensures
            engine@ == Map::<u64, TicketView>::empty(),
    {
        let engine = StoreEngine { tickets: BTreeMap::new() };
        assert(engine@ =~= Map::<u64, TicketView>::empty());
        engine
    }

    /// A copy of the ticket held under `id`, if there is one.
    pub fn get(&self, id: TicketId) -> (found: Option<Ticket>)
        ensures
            keyed(self@),
            match found {
                Some(ticket) => lookup(self@, id@) == Some(ticket@) && ticket.id == id,
                None => lookup(self@, id@) == None::<TicketView>,
            },
    {
        proof {
            use_type_invariant(self);
        }
        let number = id.value();
        match self.tickets.get(&number) {
            Some(ticket) => {
                proof {
                    TicketId::lemma_same_number_same_id(ticket.id, id);
                }
                Some(ticket.clone())
            },
            None => None,
        }
    }

    /// Holds `ticket` under its handle, in place of the ticket that was held there.
    pub fn insert(&mut self, ticket: Ticket)
        ensures
            final(self)@ == inserted(old(self)@, ticket@),
            keyed(old(self)@),
            keyed(final(self)@),
    {
        proof {
            use_type_invariant(&*self);
        }
        let ghost before = self.tickets@;
        let number = ticket.id.value();
        let mut held: BTreeMap<u64, Ticket> = BTreeMap::new();
        core::mem::swap(&mut self.tickets, &mut held);
        held.insert(number, ticket);
        core::mem::swap(&mut self.tickets, &mut held);
        assert(self@ =~= inserted(before.map_values(|ticket: Ticket| ticket@), ticket@));
    }

    /// Applies `patch` to the ticket held under `id`. Nothing changes where no ticket is
    /// held there or the patch names another ticket.
    pub fn patch(&mut self, id: TicketId, patch: TicketPatch) -> (result: Result<(), PatchError>)
        ensures
            result == patch_outcome(old(self)@, id, patch),
            final(self)@ == patched(old(self)@, id@, patch@),
            keyed(old(self)@),
            keyed(final(self)@),
    {
        proof {
            use_type_invariant(&*self);
        }
        let ghost before = self.tickets@;
        let ghost views = before.map_values(|ticket: Ticket| ticket@);
        let number = id.value();
        let mut held: BTreeMap<u64, Ticket> = BTreeMap::new();
        core::mem::swap(&mut self.tickets, &mut held);
        let result = match held.remove(&number) {
            Some(mut ticket) => {
                proof {
                    TicketId::lemma_same_number_same_id(ticket.id, id);
                }
                let ghost found = ticket;
                let outcome = ticket.update(patch);
                held.insert(number, ticket);
                match outcome {
                    Ok(()) => {
                        assert(applies(views, id@, patch@));
                        assert(views[id@] == found@);
                        assert(held@.map_values(|ticket: Ticket| ticket@) =~= patched(
                            views,
                            id@,
                            patch@,
                        ));
                        Ok(())
                    },
                    Err(mismatch) => {
                        proof {
                            if patch.id@ == id@ {
                                TicketId::lemma_same_number_same_id(patch.id, id);
                            }
                        }
                        assert(held@ =~= before);
                        assert(!applies(views, id@, patch@));
                        Err(PatchError::from(mismatch))
                    },
                }
            },
            None => {
                assert(held@ =~= before);
                assert(!applies(views, id@, patch@));
                Err(PatchError::NotFound(id))
            },
        };
        assert(held@.map_values(|ticket: Ticket| ticket@) == patched(views, id@, patch@));
        core::mem::swap(&mut self.tickets, &mut held);
        result
    }
}

/// `tickets` after the tickets of `batch` were inserted one after the other, first to last.
pub open spec fn inserted_all(tickets: Map<u64, TicketView>, batch: Seq<TicketView>) -> Map<
    u64,
    TicketView,
>
    decreases batch.len(),
{
    if batch.len() == 0 {
        tickets
    } else {
        inserted(inserted_all(tickets, batch.drop_last()), batch.last())
    }
}

/// Whether no two tickets of `batch` have the same handle.
pub open spec fn distinct_ids(batch: Seq<TicketView>) -> bool {
    forall|i: int, j: int| 0 <= i < j < batch.len() ==> batch[i].id != batch[j].id
}

/// Whether `first` and `second` replace no field in common.
pub open spec fn disjoint_fields(first: TicketPatchView, second: TicketPatchView) -> bool {
    &&& first.title is None || second.title is None
    &&& first.description is None || second.description is None
    &&& first.status is None || second.status is None
}

/// A registry that holds no ticket has none under any handle.
pub proof fn lemma_empty_holds_nothing(number: u64)
    ensures
        lookup(Map::<u64, TicketView>::empty(), number) == None::<TicketView>,
{
}

/// After a ticket was inserted it is the one held under its handle, and what is held under
/// every other handle is as before.
pub proof fn lemma_lookup_after_insert(
    tickets: Map<u64, TicketView>,
    ticket: TicketView,
    other: u64,
)
    ensures
        lookup(inserted(tickets, ticket), ticket.id) == Some(ticket),
        other != ticket.id ==> lookup(inserted(tickets, ticket), other) == lookup(tickets, other),
        keyed(tickets) ==> keyed(inserted(tickets, ticket)),
{
}

/// A patch sent to a handle under which nothing is held is answered with `NotFound`, and
/// leaves the registry as it was: still nothing is held there.
pub proof fn lemma_patch_of_absent_ticket(
    tickets: Map<u64, TicketView>,
    id: TicketId,
    patch: TicketPatch,
)
    requires
        !tickets.contains_key(id@),
    ensures
        patch_outcome(tickets, id, patch) == Err::<(), PatchError>(PatchError::NotFound(id)),
        patched(tickets, id@, patch@) == tickets,
        lookup(patched(tickets, id@, patch@), id@) == None::<TicketView>,
{
}

/// A patch that names another ticket than the one it is sent to is answered with both
/// handles, and leaves the registry as it was.
pub proof fn lemma_patch_with_other_id(
    tickets: Map<u64, TicketView>,
    id: TicketId,
    patch: TicketPatch,
)
    requires
        tickets.contains_key(id@),
        patch.id != id,
    ensures
        patch_outcome(tickets, id, patch) == Err::<(), PatchError>(
            PatchError::Mismatch(TicketUpdateError { original_id: id, patch_id: patch.id }),
        ),
        patched(tickets, id@, patch@) == tickets,
        lookup(patched(tickets, id@, patch@), id@) == Some(tickets[id@]),
{
    if patch.id@ == id@ {
        TicketId::lemma_same_number_same_id(patch.id, id);
    }
}

/// A patch is applied exactly where it is answered with `Ok`; the ticket it was sent to then
/// holds the patched fields, keeps its handle, and every other ticket is as before.
pub proof fn lemma_patch_applied(
    tickets: Map<u64, TicketView>,
    id: TicketId,
    patch: TicketPatch,
    other: u64,
)
    ensures
        patch_outcome(tickets, id, patch) is Ok <==> applies(tickets, id@, patch@),
        applies(tickets, id@, patch@) ==> lookup(patched(tickets, id@, patch@), id@) == Some(
            tickets[id@].patched(patch@),
        ),
        other != id@ ==> lookup(patched(tickets, id@, patch@), other) == lookup(tickets, other),
        keyed(tickets) ==> keyed(patched(tickets, id@, patch@)),
{
    if patch.id@ == id@ {
        TicketId::lemma_same_number_same_id(patch.id, id);
    }
}

/// Tickets with different handles, inserted in any one order, are all held afterwards, each
/// under its own handle and as it was inserted; what was held under other handles is as
/// before.
pub proof fn lemma_distinct_inserts_all_held(tickets: Map<u64, TicketView>, batch: Seq<TicketView>)
    requires
        distinct_ids(batch),
    ensures
        forall|i: int|
            0 <= i < batch.len() ==> lookup(inserted_all(tickets, batch), #[trigger] batch[i].id)
                == Some(batch[i]),
        forall|number: u64|
            (forall|i: int| 0 <= i < batch.len() ==> batch[i].id != number) ==> lookup(
                inserted_all(tickets, batch),
                number,
            ) == lookup(tickets, number),
    decreases batch.len(),
{
    if batch.len() > 0 {
        let front = batch.drop_last();
        assert(distinct_ids(front)) by {
            assert forall|i: int, j: int| 0 <= i < j < front.len() implies front[i].id
                != front[j].id by {
                assert(front[i] == batch[i] && front[j] == batch[j]);
            }
        }
        lemma_distinct_inserts_all_held(tickets, front);
        assert forall|i: int| 0 <= i < batch.len() implies lookup(
            inserted_all(tickets, batch),
            #[trigger] batch[i].id,
        ) == Some(batch[i]) by {
            if i < batch.len() - 1 {
                assert(front[i] == batch[i]);
                assert(batch[i].id != batch[batch.len() - 1].id);
            }
        }
        assert forall|number: u64|
            (forall|i: int| 0 <= i < batch.len() ==> batch[i].id != number) implies lookup(
            inserted_all(tickets, batch),
            number,
        ) == lookup(tickets, number) by {
            assert(batch[batch.len() - 1].id != number);
            assert forall|i: int| 0 <= i < front.len() implies front[i].id != number by {
                assert(front[i] == batch[i]);
            }
        }
    }
}

/// Two patches for one held ticket that replace no field in common are both applied in
/// either order, and both orders leave the same registry: the ticket has every field that
/// either patch holds.
pub proof fn lemma_disjoint_patches_commute(
    tickets: Map<u64, TicketView>,
    number: u64,
    first: TicketPatchView,
    second: TicketPatchView,
)
    requires
        tickets.contains_key(number),
        first.id == number,
        second.id == number,
        disjoint_fields(first, second),
    ensures
        applies(tickets, number, first),
        applies(patched(tickets, number, first), number, second),
        applies(tickets, number, second),
        applies(patched(tickets, number, second), number, first),
        patched(patched(tickets, number, first), number, second) == patched(
            patched(tickets, number, second),
            number,
            first,
        ),
        lookup(patched(patched(tickets, number, first), number, second), number) == Some(
            tickets[number].patched(first).patched(second),
        ),
        tickets[number].patched(first).patched(second) == tickets[number].patched(second).patched(
            first,
        ),
{
    assert(patched(patched(tickets, number, first), number, second) =~= patched(
        patched(tickets, number, second),
        number,
        first,
    ));
}

} // verus!
