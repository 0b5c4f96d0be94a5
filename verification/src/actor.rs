//! A registry owned by one worker and reached through a channel of commands.

use crate::engine::{
    disjoint_fields, distinct_ids, inserted, inserted_all, lemma_disjoint_patches_commute,
    lemma_distinct_inserts_all_held, lookup, patch_outcome, patched, PatchError, StoreEngine,
};
use crate::ticket::{Ticket, TicketId, TicketPatch, TicketView};
use std::sync::mpsc::{channel, Receiver, RecvError, SendError, Sender, SyncSender};
use vstd::prelude::*;

verus! {

/// `std::sync::mpsc::Sender`, the sending end of a channel.
#[verifier::external_type_specification]
#[verifier::external_body]
#[verifier::reject_recursive_types(T)]
pub struct ExSender<T>(Sender<T>);

/// `std::sync::mpsc::SyncSender`, the sending end of a channel that holds a bounded number of
/// values.
#[verifier::external_type_specification]
#[verifier::external_body]
#[verifier::reject_recursive_types(T)]
pub struct ExSyncSender<T>(SyncSender<T>);

/// `std::sync::mpsc::Receiver`, the receiving end of a channel.
#[verifier::external_type_specification]
#[verifier::external_body]
#[verifier::reject_recursive_types(T)]
pub struct ExReceiver<T>(Receiver<T>);

/// `std::sync::mpsc::RecvError`, returned where no sender is left and the channel is empty.
#[verifier::external_type_specification]
#[verifier::external_body]
pub struct ExRecvError(RecvError);

/// `std::sync::mpsc::channel`: the two ends of a new channel without a bound. Nothing is
/// claimed of them.
pub assume_specification<T>[ channel::<T> ]() -> (ends: (Sender<T>, Receiver<T>));

/// `Sender::send`: hands `value` to the channel. Whether the channel takes it depends on
/// whether the receiving end still exists, so nothing is claimed of that; a value that is not
/// taken comes back in the error, and is returned here as it was handed over.
#[verifier::external_body]
fn hand_over<T>(sender: &Sender<T>, value: T) -> (refused: Option<T>)
    ensures
        refused matches Some(back) ==> back == value,
{
    match sender.send(value) {
        Ok(()) => None,
        Err(SendError(back)) => Some(back),
    }
}

/// `Receiver::recv`: waits for the next value. What arrives depends on the senders, so
/// nothing is claimed of the result.
pub assume_specification<T>[ Receiver::<T>::recv ](receiver: &Receiver<T>) -> (received: Result<
    T,
    RecvError,
>);

/// `Sender::clone`: one more sending end of the same channel.
pub assume_specification<T>[ <Sender<T> as Clone>::clone ](sender: &Sender<T>) -> (copy: Sender<T>);

/// `SyncSender::send`: hands `value` to the channel, and waits while the channel is full.
/// Whether the channel takes it depends on whether the receiving end still exists, so nothing
/// is claimed of that; a value that is not taken comes back in the error, and is returned
/// here as it was handed over.
#[verifier::external_body]
fn hand_over_bounded<T>(sender: &SyncSender<T>, value: T) -> (refused: Option<T>)
    ensures
        refused matches Some(back) ==> back == value,
{
    match sender.send(value) {
        Ok(()) => None,
        Err(SendError(back)) => Some(back),
    }
}

/// `SyncSender::clone`: one more sending end of the same channel.
pub assume_specification<T>[ <SyncSender<T> as Clone>::clone ](sender: &SyncSender<T>) -> (copy:
    SyncSender<T>);

/// What a caller asks of the worker, with the channel on which the answer is to be sent.
#[allow(inconsistent_fields)]
#[derive(Debug)]
pub enum Command {
    Insert { draft: Ticket, response_channel: Sender<TicketId> },
    Get { id: TicketId, response_channel: Sender<Option<Ticket>> },
    Patch { patch: TicketPatch, response_channel: Sender<Result<(), PatchError>> },
}

/// What a command asks, without the channel for the answer.
#[derive(Debug, PartialEq)]
pub enum Request {
    Insert(Ticket),
    Get(TicketId),
    Patch(TicketPatch),
}

/// The answer to a request.
#[derive(Debug, PartialEq)]
pub enum Reply {
    Inserted(TicketId),
    Found(Option<Ticket>),
    Patched(Result<(), PatchError>),
}

/// Whether the worker goes on to wait for commands.
#[derive(Debug, Clone, Copy, PartialEq, Eq, Structural)]
pub enum ServerState {
    Running,
    Stopped,
}

/// Why a caller got no answer from the worker.
#[derive(Debug)]
pub enum ChannelClosed {
    /// The command channel has no worker behind it any more. The command that could not be
    /// sent comes back.
    NotSent(Command),
    /// The command was sent, and the worker went away before it answered.
    NoAnswer,
}

impl Command {
    /// What the command asks.
    pub open spec fn request(self) -> Request {
        match self {
            Command::Insert { draft, response_channel } => Request::Insert(draft),
            Command::Get { id, response_channel } => Request::Get(id),
            Command::Patch { patch, response_channel } => Request::Patch(patch),
        }
    }
}

/// The command that asks the worker to hold `draft` and to send the handle on
/// `response_channel`.
pub fn insert_command(draft: Ticket, response_channel: Sender<TicketId>) -> (command: Command)
    ensures
        command == (Command::Insert { draft, response_channel }),
        command.request() == Request::Insert(draft),
{
    Command::Insert { draft, response_channel }
}

/// The command that asks the worker for the ticket held under `id` and to send it on
/// `response_channel`.
pub fn get_command(id: TicketId, response_channel: Sender<Option<Ticket>>) -> (command: Command)
    ensures
        command == (Command::Get { id, response_channel }),
        command.request() == Request::Get(id),
{
    Command::Get { id, response_channel }
}

/// The command that asks the worker to apply `patch` to the ticket it names and to send
/// the outcome on `response_channel`.
pub fn patch_command(
    patch: TicketPatch,
    response_channel: Sender<Result<(), PatchError>>,
) -> (command: Command)
    ensures
        command == (Command::Patch { patch, response_channel }),
        command.request() == Request::Patch(patch),
{
    Command::Patch { patch, response_channel }
}

/// The registry after `request` was carried out on `tickets`.
pub open spec fn store_after(tickets: Map<u64, TicketView>, request: Request) -> Map<
    u64,
    TicketView,
> {
    match request {
        Request::Insert(draft) => inserted(tickets, draft@),
        Request::Get(id) => tickets,
        Request::Patch(patch) => patched(tickets, patch.id@, patch@),
    }
}

/// Whether `reply` is the answer to `request` on the registry `tickets`.
pub open spec fn answers(tickets: Map<u64, TicketView>, request: Request, reply: Reply) -> bool {
    match request {
        Request::Insert(draft) => reply == Reply::Inserted(draft.id),
        Request::Get(id) => match reply {
            Reply::Found(Some(ticket)) => lookup(tickets, id@) == Some(ticket@) && ticket.id == id,
            Reply::Found(None) => lookup(tickets, id@) == None::<TicketView>,
            _ => false,
        },
        Request::Patch(patch) => reply == Reply::Patched(patch_outcome(tickets, patch.id, patch)),
    }
}

/// Carries out `request` on the registry and returns the answer.
pub fn execute(store: &mut StoreEngine, request: Request) -> (reply: Reply)
    ensures
        final(store)@ == store_after(old(store)@, request),
        answers(old(store)@, request, reply),
{
    match request {
        Request::Insert(draft) => {
            let id = draft.id;
            store.insert(draft);
            Reply::Inserted(id)
        },
        Request::Get(id) => Reply::Found(store.get(id)),
        Request::Patch(patch) => {
            let id = patch.id;
            Reply::Patched(store.patch(id, patch))
        },
    }
}

/// Carries out `command` on the registry and sends the answer on the command's channel. An
/// answer that nobody waits for any more is dropped.
pub fn handle(store: &mut StoreEngine, command: Command)
    ensures
        final(store)@ == store_after(old(store)@, command.request()),
{
    match command {
        Command::Insert { draft, response_channel } => {
            let reply = execute(store, Request::Insert(draft));
            assert(reply is Inserted);
            if let Reply::Inserted(id) = reply {
                let _ = hand_over(&response_channel, id);
            }
        },
        Command::Get { id, response_channel } => {
            let reply = execute(store, Request::Get(id));
            assert(reply is Found);
            if let Reply::Found(found) = reply {
                let _ = hand_over(&response_channel, found);
            }
        },
        Command::Patch { patch, response_channel } => {
            let reply = execute(store, Request::Patch(patch));
            assert(reply is Patched);
            if let Reply::Patched(outcome) = reply {
                let _ = hand_over(&response_channel, outcome);
            }
        },
    }
}

/// One turn of the worker on what its command channel gave: a command is carried out and
/// the worker goes on; the news that no sender is left stops it, and changes nothing.
pub fn step(store: &mut StoreEngine, event: Result<Command, RecvError>) -> (state: ServerState)
    ensures
        match event {
            Ok(command) => state == ServerState::Running && final(store)@ == store_after(
                old(store)@,
                command.request(),
            ),
            Err(_) => state == ServerState::Stopped && final(store)@ == old(store)@,
        },
{
    match event {
        Ok(command) => {
            handle(store, command);
            ServerState::Running
        },
        Err(_) => ServerState::Stopped,
    }
}

/// Waits for the next command and carries it out. The worker stops when no sender is left.
pub fn serve_next(store: &mut StoreEngine, receiver: &Receiver<Command>) -> (state: ServerState)
    ensures
        state == ServerState::Stopped ==> final(store)@ == old(store)@,
        state == ServerState::Running ==> exists|request: Request|
            final(store)@ == store_after(old(store)@, request),
{
    let event = receiver.recv();
    let ghost asked = event->Ok_0.request();
    let state = step(store, event);
    assert(state == ServerState::Running ==> store@ == store_after(old(store)@, asked));
    state
}

/// What a caller gets from the channel on which it waited for its answer.
pub fn answer_or_closed<T>(received: Result<T, RecvError>) -> (result: Result<T, ChannelClosed>)
    ensures
        match received {
            Ok(answer) => result == Ok::<T, ChannelClosed>(answer),
            Err(_) => result == Err::<T, ChannelClosed>(ChannelClosed::NoAnswer),
        },
{
    match received {
        Ok(answer) => Ok(answer),
        Err(_) => Err(ChannelClosed::NoAnswer),
    }
}

/// What a caller learns from handing its command to the channel: the command is on its way,
/// or it came back because nobody is left to receive it.
pub fn sent_or_closed(refused: Option<Command>) -> (result: Result<(), ChannelClosed>)
    ensures
        match refused {
            None => result == Ok::<(), ChannelClosed>(()),
            Some(back) => result == Err::<(), ChannelClosed>(ChannelClosed::NotSent(back)),
        },
{
    match refused {
        None => Ok(()),
        Some(back) => Err(ChannelClosed::NotSent(back)),
    }
}

/// The sending end of a command channel: one that takes any number of commands, or one
/// that makes the sender wait while it is full.
enum CommandSender {
    Unbounded(Sender<Command>),
    Bounded(SyncSender<Command>),
}

/// A caller's end of the command channel. Clones of it reach the same worker.
pub struct TicketStoreClient {
    sender: CommandSender,
}

impl Clone for TicketStoreClient {
    /// One more end of the same command channel, which is of the same kind.
    fn clone(&self) -> (copy: Self)
        ensures
            copy.unbounded_channel() is Some <==> self.unbounded_channel() is Some,
            copy.bounded_channel() is Some <==> self.bounded_channel() is Some,
    {
        let sender = match &self.sender {
            CommandSender::Unbounded(sender) => CommandSender::Unbounded(sender.clone()),
            CommandSender::Bounded(sender) => CommandSender::Bounded(sender.clone()),
        };
        TicketStoreClient { sender }
    }
}

impl TicketStoreClient {
    /// The sending end that the client holds, where its command channel has no bound.
    pub closed spec fn unbounded_channel(&self) -> Option<Sender<Command>> {
        match self.sender {
            CommandSender::Unbounded(sender) => Some(sender),
            CommandSender::Bounded(_) => None,
        }
    }

    /// The sending end that the client holds, where its command channel has a bound.
    pub closed spec fn bounded_channel(&self) -> Option<SyncSender<Command>> {
        match self.sender {
            CommandSender::Unbounded(_) => None,
            CommandSender::Bounded(sender) => Some(sender),
        }
    }

    /// A client that sends its commands on `sender`, a channel without a bound.
    pub fn new(sender: Sender<Command>) -> (client: Self)
        ensures
            client.unbounded_channel() == Some(sender),
            client.bounded_channel() is None,
    {
        TicketStoreClient { sender: CommandSender::Unbounded(sender) }
    }

    /// A client that sends its commands on `sender`, a channel with a bound: while the
    /// channel is full, a caller waits until the worker has taken a command out.
    pub fn bounded(sender: SyncSender<Command>) -> (client: Self)
        ensures
            client.bounded_channel() == Some(sender),
            client.unbounded_channel() is None,
    {
        TicketStoreClient { sender: CommandSender::Bounded(sender) }
    }

    /// Sends `command` to the worker, if there still is one; if there is none, the command
    /// comes back. The answer arrives on the channel that the command names.
    pub fn send(&self, command: Command) -> (result: Result<(), ChannelClosed>)
        ensures
            result matches Err(closed) ==> closed == ChannelClosed::NotSent(command),
    {
        match &self.sender {
            CommandSender::Unbounded(sender) => sent_or_closed(hand_over(sender, command)),
            CommandSender::Bounded(sender) => sent_or_closed(hand_over_bounded(sender, command)),
        }
    }

    /// Asks the worker to hold `draft` and waits for the handle it is held under. Where
    /// the command could not be sent, the error holds it, and it is the one that asks to
    /// insert `draft`.
    pub fn insert(&self, draft: Ticket) -> (result: Result<TicketId, ChannelClosed>)
        ensures
            result matches Err(ChannelClosed::NotSent(back)) ==> back.request() == Request::Insert(
                draft,
            ),
    {
        let (response_channel, answer) = channel();
        match self.send(insert_command(draft, response_channel)) {
            Ok(()) => answer_or_closed(answer.recv()),
            Err(closed) => Err(closed),
        }
    }

    /// Asks the worker for the ticket held under `id` and waits for it. Where the command
    /// could not be sent, the error holds it, and it is the one that asks for `id`.
    pub fn get(&self, id: TicketId) -> (result: Result<Option<Ticket>, ChannelClosed>)
        ensures
            result matches Err(ChannelClosed::NotSent(back)) ==> back.request() == Request::Get(id),
    {
        let (response_channel, answer) = channel();
        match self.send(get_command(id, response_channel)) {
            Ok(()) => answer_or_closed(answer.recv()),
            Err(closed) => Err(closed),
        }
    }

    /// Asks the worker to apply `patch` to the ticket it names and waits for the outcome.
    /// Where the command could not be sent, the error holds it, and it is the one that asks
    /// to apply `patch`.
    pub fn patch(&self, patch: TicketPatch) -> (result: Result<
        Result<(), PatchError>,
        ChannelClosed,
    >)
        ensures
            result matches Err(ChannelClosed::NotSent(back)) ==> back.request() == Request::Patch(
                patch,
            ),
    {
        let (response_channel, answer) = channel();
        match self.send(patch_command(patch, response_channel)) {
            Ok(()) => answer_or_closed(answer.recv()),
            Err(closed) => Err(closed),
        }
    }
}

/// The registry after the requests of `requests` were carried out on `tickets` one after the
/// other, first to last: the order in which the worker received them.
pub open spec fn store_after_all(tickets: Map<u64, TicketView>, requests: Seq<Request>) -> Map<
    u64,
    TicketView,
>
    decreases requests.len(),
{
    if requests.len() == 0 {
        tickets
    } else {
        store_after(store_after_all(tickets, requests.drop_last()), requests.last())
    }
}

/// The requests to insert the tickets of `drafts`, in the same order.
pub open spec fn insert_requests(drafts: Seq<Ticket>) -> Seq<Request> {
    drafts.map_values(|draft: Ticket| Request::Insert(draft))
}

/// Callers that each have the worker insert a ticket, all with different handles, find all
/// of them held afterwards, each as it was sent, in whatever order the worker received the
/// commands.
pub proof fn lemma_inserts_through_worker_all_held(
    tickets: Map<u64, TicketView>,
    drafts: Seq<Ticket>,
)
    requires
        distinct_ids(drafts.map_values(|draft: Ticket| draft@)),
    ensures
        forall|i: int|
            0 <= i < drafts.len() ==> lookup(
                store_after_all(tickets, insert_requests(drafts)),
                (#[trigger] drafts[i]).id@,
            ) == Some(drafts[i]@),
{
    let views = drafts.map_values(|draft: Ticket| draft@);
    lemma_inserts_are_insertions(tickets, drafts);
    lemma_distinct_inserts_all_held(tickets, views);
    assert forall|i: int| 0 <= i < drafts.len() implies lookup(
        store_after_all(tickets, insert_requests(drafts)),
        (#[trigger] drafts[i]).id@,
    ) == Some(drafts[i]@) by {
        assert(views[i] == drafts[i]@);
    }
}

/// Carrying out requests to insert is inserting the tickets one after the other.
proof fn lemma_inserts_are_insertions(tickets: Map<u64, TicketView>, drafts: Seq<Ticket>)
    ensures
        store_after_all(tickets, insert_requests(drafts)) == inserted_all(
            tickets,
            drafts.map_values(|draft: Ticket| draft@),
        ),
    decreases drafts.len(),
{
    let views = drafts.map_values(|draft: Ticket| draft@);
    if drafts.len() > 0 {
        lemma_inserts_are_insertions(tickets, drafts.drop_last());
        assert(insert_requests(drafts).drop_last() =~= insert_requests(drafts.drop_last()));
        assert(views.drop_last() =~= drafts.drop_last().map_values(|draft: Ticket| draft@));
        assert(insert_requests(drafts).last() == Request::Insert(drafts.last()));
        assert(views.last() == drafts.last()@);
    }
}

/// Two patches for one held ticket that replace no field in common, sent by two callers, are
/// both answered with `Ok` and leave the same registry in whichever order the worker
/// received them.
pub proof fn lemma_disjoint_patch_requests_commute(
    tickets: Map<u64, TicketView>,
    first: TicketPatch,
    second: TicketPatch,
)
    requires
        tickets.contains_key(first.id@),
        first.id == second.id,
        disjoint_fields(first@, second@),
    ensures
        patch_outcome(tickets, first.id, first) is Ok,
        patch_outcome(store_after(tickets, Request::Patch(first)), second.id, second) is Ok,
        patch_outcome(tickets, second.id, second) is Ok,
        patch_outcome(store_after(tickets, Request::Patch(second)), first.id, first) is Ok,
        store_after(store_after(tickets, Request::Patch(first)), Request::Patch(second))
            == store_after(store_after(tickets, Request::Patch(second)), Request::Patch(first)),
        lookup(
            store_after(store_after(tickets, Request::Patch(first)), Request::Patch(second)),
            first.id@,
        ) == Some(tickets[first.id@].patched(first@).patched(second@)),
{
    lemma_disjoint_patches_commute(tickets, first.id@, first@, second@);
}

} // verus!
