//! The packets waiting to be sent, the transactions waiting for an answer,
//! and the game actions that came in from the other peer.

use std::collections::{HashMap, VecDeque};
use vstd::prelude::*;
use vstd::relations::injective_on;
use vstd::set_lib::{lemma_int_range, lemma_len_subset, lemma_map_size, set_int_range};
use vstd::std_specs::hash::group_hash_axioms;
use crate::game::GameAction;
use crate::net::p2p::{P2pPacket, P2pResponse, PacketView};

verus! {

broadcast use group_hash_axioms;

/// Number of transaction ids there are.
pub const TRANSACTION_IDS: usize = 65536;

/// How often a transaction id is drawn at random before the ids are tried
/// one after the other.
pub const ID_DRAWS: usize = 64;

/// What is known of one open transaction.
#[derive(Debug, PartialEq, Eq)]
pub struct TransactionEntry {
    /// The answer, once it has come.
    pub response: Option<P2pPacket>,
    /// Whether someone asked to be called with the answer.
    pub has_callback: bool,
}

/// The open transactions, by id.
#[derive(Debug)]
pub struct TransactionTable {
    entries: HashMap<u16, TransactionEntry>,
}

impl View for TransactionTable {
    type V = Map<u16, TransactionEntry>;

    closed spec fn view(&self) -> Map<u16, TransactionEntry> {
        self.entries@
    }
}

/// Queue for outgoing packets, each with the id of its transaction. Follows
/// the first in, first out principle.
#[derive(Debug)]
pub struct OutgoingQueue {
    packets: VecDeque<(P2pPacket, u16)>,
}

impl View for OutgoingQueue {
    type V = Seq<(P2pPacket, u16)>;

    closed spec fn view(&self) -> Seq<(P2pPacket, u16)> {
        self.packets@
    }
}

/// A list which holds all `GameAction`s sent from the other user, the oldest
/// first.
#[derive(Debug)]
pub struct IncomingActions {
    actions: VecDeque<GameAction>,
}

impl View for IncomingActions {
    type V = Seq<GameAction>;

    closed spec fn view(&self) -> Seq<GameAction> {
        self.actions@
    }
}

/// What became of a response that was handed to the table.
#[derive(Debug, PartialEq, Eq)]
pub enum Delivery {
    /// No transaction with that id is open: nothing was changed.
    Unknown,
    /// The response waits in the table for whoever asks for it.
    Stored,
    /// The transaction is closed, and the callback that was registered for it
    /// is to be called with this response.
    Callback(P2pResponse),
    /// The transaction is closed. Its callback is not to be called, because
    /// what came was no response.
    Discarded,
}

/// The table after a response has been handed to it.
pub open spec fn table_after_response(
    table: Map<u16, TransactionEntry>,
    transaction_id: u16,
    response: Option<P2pPacket>,
) -> Map<u16, TransactionEntry> {
    if !table.contains_key(transaction_id) {
        table
    } else if table[transaction_id].has_callback {
        table.remove(transaction_id)
    } else {
        table.insert(transaction_id, TransactionEntry { response, has_callback: false })
    }
}

/// The response that waits under an id, if one does.
pub open spec fn waiting_response(table: Map<u16, TransactionEntry>, transaction_id: u16) -> Option<
    P2pPacket,
> {
    if table.contains_key(transaction_id) {
        table[transaction_id].response
    } else {
        None
    }
}

/// The table after the response under an id has been asked for: without the
/// transaction if its response was there, unchanged if not.
pub open spec fn table_after_check(table: Map<u16, TransactionEntry>, transaction_id: u16) -> Map<
    u16,
    TransactionEntry,
> {
    if waiting_response(table, transaction_id) is Some {
        table.remove(transaction_id)
    } else {
        table
    }
}

/// A response is handed out once: after it has been taken from the table,
/// nothing waits under its id, and a response that comes late for that id
/// changes nothing.
pub proof fn law_response_taken_once(
    table: Map<u16, TransactionEntry>,
    transaction_id: u16,
    late: Option<P2pPacket>,
)
    requires
        waiting_response(table, transaction_id) is Some,
    ensures
        waiting_response(table_after_check(table, transaction_id), transaction_id) is None,
        table_after_response(table_after_check(table, transaction_id), transaction_id, late)
            == table_after_check(table, transaction_id),
{
}

/// A response that is stored for a transaction without callback is the one
/// that the next check hands out, and the check closes the transaction.
pub proof fn law_stored_response_is_found(
    table: Map<u16, TransactionEntry>,
    transaction_id: u16,
    response: P2pPacket,
)
    requires
        table.contains_key(transaction_id),
        !table[transaction_id].has_callback,
    ensures
        waiting_response(
            table_after_response(table, transaction_id, Some(response)),
            transaction_id,
        ) == Some(response),
        !table_after_check(
            table_after_response(table, transaction_id, Some(response)),
            transaction_id,
        ).contains_key(transaction_id),
{
}

impl TransactionTable {
    /// A table without transactions.
    pub fn new() -> (table: Self)
        ensures
            table@ == Map::<u16, TransactionEntry>::empty(),
    {
        TransactionTable { entries: HashMap::new() }
    }

    /// Number of open transactions.
    pub fn len(&self) -> (len: usize)
        ensures
            len == self@.len(),
            self@.dom().finite(),
    {
        self.entries.len()
    }
}

impl OutgoingQueue {
    /// An empty queue.
    pub fn new() -> (queue: Self)
        ensures
            queue@ == Seq::<(P2pPacket, u16)>::empty(),
    {
        OutgoingQueue { packets: VecDeque::new() }
    }
}

impl IncomingActions {
    /// An empty list.
    pub fn new() -> (actions: Self)
        ensures
            actions@ == Seq::<GameAction>::empty(),
    {
        IncomingActions { actions: VecDeque::new() }
    }
}

/// Puts `data` at the end of the outgoing queue and opens a transaction under
/// the id that `data` carries. Returns that id.
pub fn push_outgoing_queue(
    queue: &mut OutgoingQueue,
    table: &mut TransactionTable,
    data: P2pPacket,
    has_callback: bool,
) -> (transaction_id: u16)
    ensures
        transaction_id == match data@ {
            PacketView::Request(request) => request.transaction_id,
            PacketView::Response(response) => response.transaction_id,
        },
        final(queue)@ == old(queue)@.push((data, transaction_id)),
        final(table)@ == old(table)@.insert(
            transaction_id,
            TransactionEntry { response: None, has_callback },
        ),
{
    let transaction_id = data.transaction_id();
    queue.packets.push_back((data, transaction_id));
    table.entries.insert(transaction_id, TransactionEntry { response: None, has_callback });
    transaction_id
}

/// Pops and returns the next item in the outgoing network queue.
pub fn pop_outgoing_queue(queue: &mut OutgoingQueue) -> (next: Option<(P2pPacket, u16)>)
    ensures
        match next {
            Some(item) => old(queue)@.len() > 0 && item == old(queue)@[0] && final(queue)@ == old(queue)@.drop_first(),
            None => old(queue)@.len() == 0 && final(queue)@ == old(queue)@,
        },
{
    queue.packets.pop_front()
}

pub fn get_outgoing_queue_len(queue: &OutgoingQueue) -> (len: usize)
    ensures
        len == queue@.len(),
{
    queue.packets.len()
}

/// Sets the response to a request inside the transaction table.
/// If the transaction has a callback, this closes the transaction and hands
/// the response back for the callback.
pub fn set_response(table: &mut TransactionTable, transaction_id: u16, response: Option<P2pPacket>) -> (delivery:
    Delivery)
    ensures
        final(table)@ == table_after_response(old(table)@, transaction_id, response),
        match delivery {
            Delivery::Unknown => !old(table)@.contains_key(transaction_id),
            Delivery::Stored => old(table)@.contains_key(transaction_id) && !old(table)@[transaction_id].has_callback,
            Delivery::Callback(answer) => old(table)@.contains_key(transaction_id) && old(table)@[transaction_id].has_callback && response == Some(P2pPacket::Response(answer)),
            Delivery::Discarded => old(table)@.contains_key(transaction_id) && old(table)@[transaction_id].has_callback && !(response matches Some(P2pPacket::Response(_))),
        },
{
    let has_callback = match table.entries.get(&transaction_id) {
        Some(entry) => entry.has_callback,
        None => {
            return Delivery::Unknown;
        },
    };
    if has_callback {
        table.entries.remove(&transaction_id);
        match response {
            Some(P2pPacket::Response(answer)) => Delivery::Callback(answer),
            _ => Delivery::Discarded,
        }
    } else {
        table.entries.insert(transaction_id, TransactionEntry { response, has_callback: false });
        Delivery::Stored
    }
}

/// `rand::random::<u16>()`: a number drawn at random. Nothing is known of it.
#[verifier::external_body]
pub(crate) fn random_u16() -> u16 {
    rand::random::<u16>()
}

/// A table that holds every id holds 65536 transactions.
proof fn lemma_full_table(ids: Set<u16>)
    requires
        ids.finite(),
        forall|id: u16| ids.contains(id),
    ensures
        ids.len() >= 65536,
{
    let numbers = set_int_range(0, 65536);
    let as_id = |i: int| i as u16;
    lemma_int_range(0, 65536);
    let image = numbers.map(as_id);
    assert(injective_on(as_id, numbers));
    lemma_map_size(numbers, image, as_id);
    assert(image.subset_of(ids));
    lemma_len_subset(image, ids);
}

/// Whether an id is left for a new transaction.
pub fn has_free_transaction_id(table: &TransactionTable) -> (free: bool)
    ensures
        free == (table@.len() < TRANSACTION_IDS),
{
    table.entries.len() < TRANSACTION_IDS
}

/// The first id from `candidate` on, going round after 65535, under which no
/// transaction is open.
pub fn free_transaction_id_from(table: &TransactionTable, candidate: u16) -> (transaction_id: u16)
    requires
        table@.len() < TRANSACTION_IDS,
    ensures
        !table@.contains_key(transaction_id),
        !table@.contains_key(candidate) ==> transaction_id == candidate,
        forall|step: int|
            0 <= step < (transaction_id - candidate) % 65536 ==> table@.contains_key(
                #[trigger] (((candidate + step) % 65536) as u16),
            ),
{
    let mut transaction_id: u16 = candidate;
    let mut tried: usize = 0;
    while tried < TRANSACTION_IDS
        invariant
            tried <= TRANSACTION_IDS,
            tried < TRANSACTION_IDS ==> transaction_id == (candidate + tried) % 65536,
            forall|step: int|
                0 <= step < tried ==> table@.contains_key(
                    #[trigger] (((candidate + step) % 65536) as u16),
                ),
        decreases TRANSACTION_IDS - tried,
    {
        if !table.entries.contains_key(&transaction_id) {
            assert(tried > 0 ==> table@.contains_key(((candidate + 0) % 65536) as u16));
            return transaction_id;
        }
        transaction_id = if transaction_id == u16::MAX {
            0
        } else {
            transaction_id + 1
        };
        tried += 1;
    }
    proof {
        assert forall|id: u16| table@.contains_key(id) by {
            let step = (id - candidate) % 65536;
            assert(((candidate + step) % 65536) as u16 == id);
        }
        assert(table@.dom().finite());
        lemma_full_table(table@.dom());
    }
    transaction_id
}

/// An id under which no transaction is open. Ids are drawn at random; if
/// every draw hits an open transaction, the ids that follow the last draw are
/// tried in turn.
pub fn new_transaction_id(table: &TransactionTable) -> (transaction_id: u16)
    requires
        table@.len() < TRANSACTION_IDS,
    ensures
        !table@.contains_key(transaction_id),
{
    let mut transaction_id: u16 = random_u16();
    let mut draws: usize = 1;
    while draws < ID_DRAWS && table.entries.contains_key(&transaction_id)
        invariant
            draws <= ID_DRAWS,
        decreases ID_DRAWS - draws,
    {
        transaction_id = random_u16();
        draws += 1;
    }
    free_transaction_id_from(table, transaction_id)
}

/// Whether a transaction is open under `transaction_id`.
pub fn check_transaction_id(table: &TransactionTable, transaction_id: u16) -> (open: bool)
    ensures
        open == table@.contains_key(transaction_id),
{
    table.entries.contains_key(&transaction_id)
}

/// The response to the transaction, if it has come. Handing it out closes the
/// transaction.
pub fn check_for_response(table: &mut TransactionTable, transaction_id: u16) -> (response: Option<
    P2pPacket,
>)
    ensures
        response == waiting_response(old(table)@, transaction_id),
        final(table)@ == table_after_check(old(table)@, transaction_id),
{
    let waiting = match table.entries.get(&transaction_id) {
        Some(entry) => entry.response.is_some(),
        None => false,
    };
    if !waiting {
        return None;
    }
    match table.entries.remove(&transaction_id) {
        Some(entry) => entry.response,
        None => None,
    }
}

/// Closes the transaction under `transaction_id`, whether its response has
/// come or not. Returns whether there was one.
pub fn close_transaction(table: &mut TransactionTable, transaction_id: u16) -> (closed: bool)
    ensures
        closed == old(table)@.contains_key(transaction_id),
        final(table)@ == old(table)@.remove(transaction_id),
{
    table.entries.remove(&transaction_id).is_some()
}

pub fn push_incoming_gameaction(actions: &mut IncomingActions, action: GameAction)
    ensures
        final(actions)@ == old(actions)@.push(action),
{
    actions.actions.push_back(action);
}

pub fn pop_incoming_gameaction(actions: &mut IncomingActions) -> (next: Option<GameAction>)
    ensures
        match next {
            Some(action) => old(actions)@.len() > 0 && action == old(actions)@[0] && final(actions)@
                == old(actions)@.drop_first(),
            None => old(actions)@.len() == 0 && final(actions)@ == old(actions)@,
        },
{
    actions.actions.pop_front()
}

pub fn get_incoming_gameaction_len(actions: &IncomingActions) -> (len: usize)
    ensures
        len == actions@.len(),
{
    actions.actions.len()
}

} // verus!
