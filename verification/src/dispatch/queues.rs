//! Per-client request queues: one FIFO per client, drained by one task at a time.

use ahash::{AHashMap, AHashSet};
use std::collections::VecDeque;
use vstd::prelude::*;

verus! {

/// Requests one client may have queued behind a request that has not been
/// answered yet.
pub const MAX_QUEUED_CLIENT_REQUESTS: usize = 1024;

/// `ahash::RandomState`, the hasher of the two tables below.
#[verifier::external_type_specification]
#[verifier::external_body]
pub struct ExRandomState(ahash::RandomState);

/// `ahash::AHashMap`.
#[verifier::external_type_specification]
#[verifier::external_body]
#[verifier::reject_recursive_types(K)]
#[verifier::reject_recursive_types(V)]
#[verifier::reject_recursive_types(S)]
pub struct ExAHashMap<K, V, S>(AHashMap<K, V, S>);

/// `ahash::AHashSet`.
#[verifier::external_type_specification]
#[verifier::external_body]
#[verifier::reject_recursive_types(T)]
#[verifier::reject_recursive_types(S)]
pub struct ExAHashSet<T, S>(AHashSet<T, S>);

/// The queues of the clients that have one.
pub type QueueTable = AHashMap<u128, VecDeque<Vec<u8>>>;

/// A set of clients.
pub type ClientSet = AHashSet<u128>;

/// What a queue table holds: the queue of each client that has one.
pub uninterp spec fn table_queues(table: QueueTable) -> Map<u128, Seq<Vec<u8>>>;

/// What a client set holds.
pub uninterp spec fn set_clients(clients: ClientSet) -> Set<u128>;

/// `AHashMap::new`: a table that holds nothing. It does not return where the system
/// has no entropy to seed the hasher with.
#[verifier::external_body]
fn new_table() -> (table: QueueTable)
    ensures
        (table_queues(table) == Map::<u128, Seq<Vec<u8>>>::empty()),
{
    AHashMap::new()
}

/// `AHashMap::get_mut`: the queue under a client, in place. What the caller
/// leaves in it is what the table then holds there; nothing else changes.
#[verifier::external_body]
fn table_get_mut(table: &mut QueueTable, client_id: u128) -> (queue: Option<
    &mut VecDeque<Vec<u8>>,
>)
    ensures
        queue is Some <==> table_queues(*old(table)).contains_key(client_id),
        queue is Some ==> queue->0@ == table_queues(*old(table))[client_id],
        queue is Some ==> table_queues(*final(table)) == table_queues(*old(table)).insert(
            client_id,
            final(queue->0)@,
        ),
        queue is None ==> table_queues(*final(table)) == table_queues(*old(table)),
{
    table.get_mut(&client_id)
}

/// `AHashMap::insert`: the table holds the queue under the client. The queue that
/// it replaces, if any, is dropped.
#[verifier::external_body]
fn table_insert(
    table: &mut QueueTable,
    client_id: u128,
    queue: VecDeque<Vec<u8>>,
)
    ensures
        table_queues(*final(table)) == table_queues(*old(table)).insert(client_id, queue@),
{
    table.insert(client_id, queue);
}

/// `AHashMap::remove`: the table holds nothing under the client. The queue that
/// it held there, if any, is dropped.
#[verifier::external_body]
fn table_remove(table: &mut QueueTable, client_id: u128)
    ensures
        table_queues(*final(table)) == table_queues(*old(table)).remove(client_id),
{
    table.remove(&client_id);
}

/// The `is_empty` of the `HashMap` inside an `AHashMap`: whether the table holds
/// nothing.
#[verifier::external_body]
fn table_is_empty(table: &QueueTable) -> (is_empty: bool)
    ensures
        (is_empty <==> table_queues(*table) == Map::<u128, Seq<Vec<u8>>>::empty()),
{
    table.is_empty()
}

/// `AHashSet::new`: a set that holds nothing. It does not return where the system
/// has no entropy to seed the hasher with.
#[verifier::external_body]
fn new_set() -> (clients: ClientSet)
    ensures
        set_clients(clients) == Set::<u128>::empty(),
{
    AHashSet::new()
}

/// The `insert` of the `HashSet` inside an `AHashSet`: the set holds the client,
/// and the result says whether it is new there.
#[verifier::external_body]
fn set_insert(clients: &mut ClientSet, client_id: u128) -> (is_new: bool)
    ensures
        set_clients(*final(clients)) == set_clients(*old(clients)).insert(client_id),
        is_new == !set_clients(*old(clients)).contains(client_id),
{
    clients.insert(client_id)
}

/// The `remove` of the `HashSet` inside an `AHashSet`: the set does not hold the
/// client.
#[verifier::external_body]
fn set_remove(clients: &mut ClientSet, client_id: u128)
    ensures
        set_clients(*final(clients)) == set_clients(*old(clients)).remove(client_id),
{
    clients.remove(&client_id);
}

/// What became of a request that arrived.
pub enum Enqueued {
    /// Queued, with no drain running: the caller starts one.
    StartDrain,
    /// Queued behind a drain that will come to it.
    Waiting,
    /// Refused: the client's queue is full. The frame comes back to be answered.
    QueueFull(Vec<u8>),
}

/// The queues of a shard's clients, and the clients that a drain is serving.
pub struct ClientRequestQueues {
    queues: QueueTable,
    active: ClientSet,
}

/// The queues and running drains of a shard, as mathematical values.
pub struct QueueState {
    pub queued: Map<u128, Seq<Vec<u8>>>,
    pub active: Set<u128>,
}

impl QueueState {
    /// The requests queued for a client, oldest first.
    pub open spec fn queue(self, client_id: u128) -> Seq<Vec<u8>> {
        if self.queued.contains_key(client_id) {
            self.queued[client_id]
        } else {
            Seq::empty()
        }
    }

    /// Whether a client has no room for one more request.
    pub open spec fn is_full(self, client_id: u128) -> bool {
        self.queue(client_id).len() >= MAX_QUEUED_CLIENT_REQUESTS
    }

    /// No client has more than its share queued, and none keeps an empty queue.
    pub open spec fn is_bounded(self) -> bool {
        forall|client_id: u128| #[trigger]
            self.queued.contains_key(client_id) ==> 0 < self.queued[client_id].len()
                <= MAX_QUEUED_CLIENT_REQUESTS
    }

    /// The state after a request of a client was accepted.
    pub open spec fn enqueue(self, client_id: u128, frame: Vec<u8>) -> QueueState {
        QueueState {
            queued: self.queued.insert(client_id, self.queue(client_id).push(frame)),
            active: self.active.insert(client_id),
        }
    }

    /// The state after the oldest request of a client was taken. The entry of a
    /// client goes with its last request.
    pub open spec fn pop(self, client_id: u128) -> QueueState {
        let queue = self.queue(client_id);
        QueueState {
            queued: if queue.len() <= 1 {
                self.queued.remove(client_id)
            } else {
                self.queued.insert(client_id, queue.drop_first())
            },
            active: self.active,
        }
    }

    /// The state after `count` requests of a client were taken.
    pub open spec fn pop_many(self, client_id: u128, count: nat) -> QueueState
        decreases count,
    {
        if count == 0 {
            self
        } else {
            self.pop_many(client_id, (count - 1) as nat).pop(client_id)
        }
    }
}

/// Accepting a request keeps every queue within its bound, as does taking one
/// and forgetting a client.
pub proof fn law_operations_keep_the_bound(state: QueueState, client_id: u128, frame: Vec<u8>)
    requires
        state.is_bounded(),
    ensures
        !state.is_full(client_id) ==> state.enqueue(client_id, frame).is_bounded(),
        state.pop(client_id).is_bounded(),
        (QueueState { queued: state.queued.remove(client_id), active: state.active }).is_bounded(),
{
    let lost = QueueState { queued: state.queued.remove(client_id), active: state.active };
    let popped = state.pop(client_id);
    let grown = state.enqueue(client_id, frame);
    assert forall|other: u128| #[trigger] lost.queued.contains_key(other) implies 0
        < lost.queued[other].len() <= MAX_QUEUED_CLIENT_REQUESTS by {
        assert(state.queued.contains_key(other));
    }
    assert forall|other: u128| #[trigger] popped.queued.contains_key(other) implies 0
        < popped.queued[other].len() <= MAX_QUEUED_CLIENT_REQUESTS by {
        assert(other == client_id || state.queued.contains_key(other));
        assert(state.queue(client_id).len() > 1 ==> state.queued.contains_key(client_id));
    }
    if !state.is_full(client_id) {
        assert forall|other: u128| #[trigger] grown.queued.contains_key(other) implies 0
            < grown.queued[other].len() <= MAX_QUEUED_CLIENT_REQUESTS by {
            assert(other == client_id || state.queued.contains_key(other));
        }
    }
}

/// A client's requests are taken in the order they came in, none is lost, and the
/// client's entry is gone after the last one. No other client notices.
pub proof fn law_queue_is_fifo(state: QueueState, client_id: u128, other: u128, count: nat)
    requires
        state.is_bounded(),
        count <= state.queue(client_id).len(),
    ensures
        state.pop_many(client_id, count).queue(client_id) == state.queue(client_id).skip(
            count as int,
        ),
        state.queued.contains_key(client_id) ==> (state.pop_many(
            client_id,
            count,
        ).queued.contains_key(client_id) <==> count < state.queue(client_id).len()),
        other != client_id ==> state.pop_many(client_id, count).queue(other) == state.queue(other),
        state.pop_many(client_id, count).active == state.active,
    decreases count,
{
    let queue = state.queue(client_id);
    if count == 0 {
        assert(queue.skip(0) =~= queue);
        if state.queued.contains_key(client_id) {
            assert(queue.len() > 0);
        }
    } else {
        let before = (count - 1) as nat;
        law_queue_is_fifo(state, client_id, other, before);
        let popped = state.pop_many(client_id, before);
        assert(popped.queue(client_id) == queue.skip(before as int));
        assert(queue.skip(before as int).drop_first() =~= queue.skip(count as int));
        if queue.skip(before as int).len() <= 1 {
            assert(queue.skip(count as int) =~= Seq::empty());
        }
    }
}

/// A request that is accepted has a drain coming to it, and is the last of its
/// client to be taken: behind all that were queued before it.
pub proof fn law_accepted_request_comes_last(state: QueueState, client_id: u128, frame: Vec<u8>)
    requires
        state.is_bounded(),
        !state.is_full(client_id),
    ensures
        ({
            let waiting = state.queue(client_id);
            let accepted = state.enqueue(client_id, frame);
            &&& accepted.active.contains(client_id)
            &&& accepted.queue(client_id).take(waiting.len() as int) == waiting
            &&& accepted.pop_many(client_id, waiting.len()).queue(client_id) == seq![frame]
            &&& !accepted.pop_many(client_id, waiting.len() + 1).queued.contains_key(client_id)
        }),
{
    let waiting = state.queue(client_id);
    let accepted = state.enqueue(client_id, frame);
    law_operations_keep_the_bound(state, client_id, frame);
    law_queue_is_fifo(accepted, client_id, client_id, waiting.len());
    law_queue_is_fifo(accepted, client_id, client_id, waiting.len() + 1);
    assert(accepted.queue(client_id).take(waiting.len() as int) =~= waiting);
    assert(accepted.queue(client_id).skip(waiting.len() as int) =~= seq![frame]);
}

/// Something that happens to the queues.
pub enum QueueOp {
    /// A request of a client arrives.
    Enqueue(u128, Vec<u8>),
    /// The drain of a client takes its next request.
    Pop(u128),
    /// The drain of a client ends.
    Release(u128),
    /// The connection of a client is lost.
    Lost(u128),
}

impl QueueState {
    /// The state before anything happened.
    pub open spec fn initial() -> QueueState {
        QueueState { queued: Map::empty(), active: Set::empty() }
    }

    /// The state after something happened.
    pub open spec fn after(self, op: QueueOp) -> QueueState {
        match op {
            QueueOp::Enqueue(client_id, frame) => if self.is_full(client_id) {
                self
            } else {
                self.enqueue(client_id, frame)
            },
            QueueOp::Pop(client_id) => self.pop(client_id),
            QueueOp::Release(client_id) => QueueState {
                queued: self.queued,
                active: self.active.remove(client_id),
            },
            QueueOp::Lost(client_id) => QueueState {
                queued: self.queued.remove(client_id),
                active: self.active,
            },
        }
    }
}

/// The state that a run of operations leads to.
pub open spec fn state_after(run: Seq<QueueOp>) -> QueueState
    decreases run.len(),
{
    if run.len() == 0 {
        QueueState::initial()
    } else {
        state_after(run.drop_last()).after(run.last())
    }
}

/// The requests of a client that a run accepted, in order.
pub open spec fn accepted(run: Seq<QueueOp>, client_id: u128) -> Seq<Vec<u8>>
    decreases run.len(),
{
    if run.len() == 0 {
        Seq::empty()
    } else {
        let earlier = accepted(run.drop_last(), client_id);
        match run.last() {
            QueueOp::Enqueue(sender, frame) if sender == client_id && !state_after(
                run.drop_last(),
            ).is_full(client_id) => earlier.push(frame),
            _ => earlier,
        }
    }
}

/// The requests of a client that a run took out, in order.
pub open spec fn taken(run: Seq<QueueOp>, client_id: u128) -> Seq<Vec<u8>>
    decreases run.len(),
{
    if run.len() == 0 {
        Seq::empty()
    } else {
        let earlier = taken(run.drop_last(), client_id);
        let queue = state_after(run.drop_last()).queue(client_id);
        match run.last() {
            QueueOp::Pop(drained) if drained == client_id && queue.len() > 0 => earlier.push(
                queue[0],
            ),
            _ => earlier,
        }
    }
}

/// Whether a run never loses the connection of a client.
pub open spec fn keeps_connection(run: Seq<QueueOp>, client_id: u128) -> bool {
    forall|i: int| 0 <= i < run.len() ==> #[trigger] run[i] != QueueOp::Lost(client_id)
}

/// Whether a drain of a run ends only once its client has nothing queued.
pub open spec fn drains_to_the_end(run: Seq<QueueOp>, client_id: u128) -> bool
    decreases run.len(),
{
    run.len() > 0 ==> {
        &&& drains_to_the_end(run.drop_last(), client_id)
        &&& run.last() == QueueOp::Release(client_id) ==> state_after(run.drop_last()).queue(
            client_id,
        ).len() == 0
    }
}

/// Whatever happens, no client has more queued than its share.
pub proof fn law_every_run_stays_bounded(run: Seq<QueueOp>)
    ensures
        state_after(run).is_bounded(),
    decreases run.len(),
{
    if run.len() > 0 {
        law_every_run_stays_bounded(run.drop_last());
        let before = state_after(run.drop_last());
        match run.last() {
            QueueOp::Enqueue(client_id, frame) => {
                law_operations_keep_the_bound(before, client_id, frame);
            },
            QueueOp::Pop(client_id) => {
                law_operations_keep_the_bound(before, client_id, arbitrary());
            },
            QueueOp::Release(client_id) => {
                assert forall|other: u128| #[trigger]
                    state_after(run).queued.contains_key(other) implies 0 < state_after(
                    run,
                ).queued[other].len() <= MAX_QUEUED_CLIENT_REQUESTS by {
                    assert(before.queued.contains_key(other));
                }
            },
            QueueOp::Lost(client_id) => {
                law_operations_keep_the_bound(before, client_id, arbitrary());
            },
        }
    }
}

/// However the operations of many clients interleave, what was taken of a connected
/// client followed by what it has queued is what was accepted of it: nothing is
/// lost, nothing comes twice, and the order is that of arrival.
pub proof fn law_no_accepted_request_is_lost(run: Seq<QueueOp>, client_id: u128)
    requires
        keeps_connection(run, client_id),
    ensures
        taken(run, client_id) + state_after(run).queue(client_id) == accepted(run, client_id),
    decreases run.len(),
{
    if run.len() == 0 {
        assert(taken(run, client_id) + state_after(run).queue(client_id) =~= accepted(
            run,
            client_id,
        ));
    } else {
        let earlier = run.drop_last();
        assert(keeps_connection(earlier, client_id)) by {
            assert forall|i: int| 0 <= i < earlier.len() implies #[trigger] earlier[i]
                != QueueOp::Lost(client_id) by {
                assert(earlier[i] == run[i]);
            }
        }
        law_no_accepted_request_is_lost(earlier, client_id);
        law_every_run_stays_bounded(earlier);
        let before = state_after(earlier);
        assert(run[run.len() - 1] != QueueOp::Lost(client_id));
        match run.last() {
            QueueOp::Enqueue(sender, frame) => {
                if sender == client_id && !before.is_full(client_id) {
                    assert(state_after(run).queue(client_id) =~= before.queue(client_id).push(
                        frame,
                    ));
                } else {
                    assert(state_after(run).queue(client_id) =~= before.queue(client_id));
                }
            },
            QueueOp::Pop(drained) => {
                if drained == client_id {
                    let queue = before.queue(client_id);
                    if queue.len() > 0 {
                        assert(queue =~= seq![queue[0]] + queue.drop_first());
                        assert(state_after(run).queue(client_id) =~= queue.drop_first());
                    } else {
                        assert(state_after(run).queue(client_id) =~= queue);
                    }
                } else {
                    assert(state_after(run).queue(client_id) =~= before.queue(client_id));
                }
            },
            QueueOp::Release(_) => {
                assert(state_after(run).queue(client_id) =~= before.queue(client_id));
            },
            QueueOp::Lost(_) => {
                assert(state_after(run).queue(client_id) =~= before.queue(client_id));
            },
        }
        assert(taken(run, client_id) + state_after(run).queue(client_id) =~= accepted(
            run,
            client_id,
        ));
    }
}

/// Where drains run to the end, no request waits without one: a client with
/// something queued has a drain.
pub proof fn law_queued_requests_have_a_drain(run: Seq<QueueOp>, client_id: u128)
    requires
        drains_to_the_end(run, client_id),
    ensures
        state_after(run).queue(client_id).len() > 0 ==> state_after(run).active.contains(client_id),
    decreases run.len(),
{
    if run.len() > 0 {
        law_queued_requests_have_a_drain(run.drop_last(), client_id);
        law_every_run_stays_bounded(run.drop_last());
        let before = state_after(run.drop_last());
        match run.last() {
            QueueOp::Enqueue(sender, _) => {
                if sender != client_id || before.is_full(client_id) {
                    assert(state_after(run).queue(client_id) =~= before.queue(client_id));
                }
            },
            QueueOp::Pop(drained) => {
                if drained != client_id {
                    assert(state_after(run).queue(client_id) =~= before.queue(client_id));
                }
            },
            QueueOp::Release(_) => {
                assert(state_after(run).queue(client_id) =~= before.queue(client_id));
            },
            QueueOp::Lost(lost) => {
                if lost != client_id {
                    assert(state_after(run).queue(client_id) =~= before.queue(client_id));
                }
            },
        }
    }
}

impl View for ClientRequestQueues {
    type V = QueueState;

    closed spec fn view(&self) -> QueueState {
        QueueState { queued: table_queues(self.queues), active: set_clients(self.active) }
    }
}

impl ClientRequestQueues {
    /// Queues for a shard that has received nothing yet.
    pub fn new() -> (queues: ClientRequestQueues)
        ensures
            (queues@.queued == Map::<u128, Seq<Vec<u8>>>::empty()),
            queues@.active == Set::<u128>::empty(),
            queues@.is_bounded(),
    {
        ClientRequestQueues { queues: new_table(), active: new_set() }
    }

    /// Queues a request behind the client's earlier ones.
    ///
    /// A full queue refuses it and changes nothing. An accepted request asks for a
    /// drain exactly where none is running for the client.
    pub fn enqueue_client_request(&mut self, client_id: u128, frame: Vec<u8>) -> (outcome: Enqueued)
        requires
            old(self)@.is_bounded(),
        ensures
            final(self)@.is_bounded(),
            old(self)@.is_full(client_id) ==> {
                &&& outcome == Enqueued::QueueFull(frame)
                &&& final(self)@ == old(self)@
            },
            !old(self)@.is_full(client_id) ==> {
                &&& final(self)@ == old(self)@.enqueue(client_id, frame)
                &&& outcome == if old(self)@.active.contains(client_id) {
                    Enqueued::Waiting
                } else {
                    Enqueued::StartDrain
                }
            },
    {
        proof {
            law_operations_keep_the_bound(self@, client_id, frame);
        }
        match table_get_mut(&mut self.queues, client_id) {
            Some(queue) => {
                if queue.len() >= MAX_QUEUED_CLIENT_REQUESTS {
                    assert(self@.queued =~= old(self)@.queued);
                    return Enqueued::QueueFull(frame);
                }
                queue.push_back(frame);
            },
            None => {
                let mut queue: VecDeque<Vec<u8>> = VecDeque::new();
                queue.push_back(frame);
                table_insert(&mut self.queues, client_id, queue);
            },
        }
        if set_insert(&mut self.active, client_id) {
            Enqueued::StartDrain
        } else {
            Enqueued::Waiting
        }
    }

    /// Takes the oldest request of a client, and frees the client's entry with its
    /// last one.
    pub fn pop_next_client_request(&mut self, client_id: u128) -> (frame: Option<Vec<u8>>)
        requires
            old(self)@.is_bounded(),
        ensures
            final(self)@.is_bounded(),
            final(self)@ == old(self)@.pop(client_id),
            frame is Some <==> old(self)@.queue(client_id).len() > 0,
            frame is Some ==> frame->0 == old(self)@.queue(client_id)[0],
    {
        proof {
            law_operations_keep_the_bound(self@, client_id, arbitrary());
        }
        let mut emptied: bool = false;
        let frame: Option<Vec<u8>> = match table_get_mut(&mut self.queues, client_id) {
            Some(queue) => {
                let frame = queue.pop_front();
                emptied = queue.len() == 0;
                frame
            },
            None => None,
        };
        if emptied {
            table_remove(&mut self.queues, client_id);
        }
        proof {
            let ghost queue = old(self)@.queue(client_id);
            if old(self)@.queued.contains_key(client_id) {
                assert(queue.len() > 0);
                assert(queue.drop_first() =~= queue.subrange(1, queue.len() as int));
            }
            assert(self@.queued =~= old(self)@.pop(client_id).queued);
        }
        frame
    }

    /// Whether no client has a request queued.
    pub fn is_empty(&self) -> (is_empty: bool)
        requires
            self@.is_bounded(),
        ensures
            is_empty <==> forall|client_id: u128| #[trigger] self@.queue(client_id).len() == 0,
            is_empty <==> self@.queued == Map::<u128, Seq<Vec<u8>>>::empty(),
    {
        let is_empty: bool = table_is_empty(&self.queues);
        proof {
            if !is_empty {
                if forall|client_id: u128| #[trigger] self@.queue(client_id).len() == 0 {
                    assert forall|client_id: u128| !self@.queued.contains_key(client_id) by {
                        assert(self@.queue(client_id).len() == 0);
                    }
                    assert(self@.queued =~= Map::<u128, Seq<Vec<u8>>>::empty());
                }
            }
        }
        is_empty
    }

    /// Ends the drain of a client.
    pub fn release_drain(&mut self, client_id: u128)
        ensures
            final(self)@.queued == old(self)@.queued,
            final(self)@.active == old(self)@.active.remove(client_id),
    {
        set_remove(&mut self.active, client_id);
    }

    /// Forgets the requests of a client whose connection is gone. A drain that is
    /// still running keeps its slot and releases it itself.
    pub fn connection_lost(&mut self, client_id: u128)
        requires
            old(self)@.is_bounded(),
        ensures
            final(self)@.is_bounded(),
            final(self)@.queued == old(self)@.queued.remove(client_id),
            final(self)@.active == old(self)@.active,
    {
        proof {
            law_operations_keep_the_bound(self@, client_id, arbitrary());
        }
        table_remove(&mut self.queues, client_id);
    }
}

/// A client may have 1,024 requests queued. One more is handed back, and nothing
/// changes; any other goes behind those that its client has queued, and starts a drain
/// exactly where the client has none. No other client notices.
pub proof fn law_a_request_queues_behind_its_clients_own(
    queues: &mut ClientRequestQueues,
    client_id: u128,
    frame: Vec<u8>,
    outcome: Enqueued,
    other: u128,
)
    requires
        call_ensures(
            ClientRequestQueues::enqueue_client_request,
            (queues, client_id, frame),
            outcome,
        ),
        other != client_id,
    ensures
        ({
            let before = old(queues)@;
            let after = final(queues)@;
            let waiting = if before.queued.contains_key(client_id) {
                before.queued[client_id]
            } else {
                Seq::<Vec<u8>>::empty()
            };
            &&& outcome is QueueFull <==> waiting.len() >= 1_024
            &&& outcome matches Enqueued::QueueFull(returned) ==> returned == frame && after
                == before
            &&& !(outcome is QueueFull) ==> {
                &&& after.queued.contains_key(client_id)
                &&& after.queued[client_id] == waiting.push(frame)
                &&& after.active.contains(client_id)
                &&& outcome is StartDrain <==> !before.active.contains(client_id)
            }
            &&& after.queued.contains_key(other) <==> before.queued.contains_key(other)
            &&& before.queued.contains_key(other) ==> after.queued[other] == before.queued[other]
            &&& after.active.contains(other) <==> before.active.contains(other)
        }),
{
}

/// A drain gets the oldest request of its client, and none exactly where none is
/// queued. The others stay queued in their order, and with the last the client's entry
/// goes. No other client notices, and no drain ends by it.
pub proof fn law_a_drain_gets_the_oldest_request(
    queues: &mut ClientRequestQueues,
    client_id: u128,
    frame: Option<Vec<u8>>,
    other: u128,
)
    requires
        call_ensures(
            ClientRequestQueues::pop_next_client_request,
            (queues, client_id),
            frame,
        ),
        other != client_id,
    ensures
        ({
            let before = old(queues)@;
            let after = final(queues)@;
            let waiting = if before.queued.contains_key(client_id) {
                before.queued[client_id]
            } else {
                Seq::<Vec<u8>>::empty()
            };
            &&& frame is None <==> waiting.len() == 0
            &&& frame matches Some(oldest) ==> oldest == waiting[0]
            &&& after.queued.contains_key(client_id) <==> waiting.len() > 1
            &&& waiting.len() > 1 ==> after.queued[client_id] == waiting.subrange(
                1,
                waiting.len() as int,
            )
            &&& after.queued.contains_key(other) <==> before.queued.contains_key(other)
            &&& before.queued.contains_key(other) ==> after.queued[other] == before.queued[other]
            &&& after.active == before.active
        }),
{
    let waiting = old(queues)@.queue(client_id);
    if waiting.len() > 1 {
        assert(waiting.drop_first() =~= waiting.subrange(1, waiting.len() as int));
    }
}

/// Queues start with nothing queued and no drain.
pub proof fn law_queues_start_empty(queues: ClientRequestQueues, client_id: u128)
    requires
        call_ensures(ClientRequestQueues::new, (), queues),
    ensures
        !queues@.queued.contains_key(client_id),
        !queues@.active.contains(client_id),
{
}

/// The queues are empty exactly where no client has an entry, so never while a client
/// has a request waiting.
pub proof fn law_queues_are_empty_without_a_client(
    queues: ClientRequestQueues,
    is_empty: bool,
    client_id: u128,
)
    requires
        call_ensures(ClientRequestQueues::is_empty, (&queues,), is_empty),
    ensures
        queues@.queued.contains_key(client_id) ==> !is_empty,
        (forall|any: u128| !(#[trigger] queues@.queued.contains_key(any))) ==> is_empty,
{
    if forall|any: u128| !(#[trigger] queues@.queued.contains_key(any)) {
        assert(queues@.queued =~= Map::<u128, Seq<Vec<u8>>>::empty());
    }
}

/// Ending a drain leaves every request queued and every other drain running; losing a
/// connection forgets the requests of that client alone, and ends no drain.
pub proof fn law_drains_and_connections_end_apart(
    released: &mut ClientRequestQueues,
    lost: &mut ClientRequestQueues,
    client_id: u128,
    other: u128,
)
    requires
        call_ensures(ClientRequestQueues::release_drain, (released, client_id), ()),
        call_ensures(ClientRequestQueues::connection_lost, (lost, client_id), ()),
        other != client_id,
    ensures
        final(released)@.queued == old(released)@.queued,
        !final(released)@.active.contains(client_id),
        final(released)@.active.contains(other) <==> old(released)@.active.contains(other),
        final(lost)@.active == old(lost)@.active,
        !final(lost)@.queued.contains_key(client_id),
        final(lost)@.queued.contains_key(other) <==> old(lost)@.queued.contains_key(other),
        old(lost)@.queued.contains_key(other) ==> final(lost)@.queued[other]
            == old(lost)@.queued[other],
{
}

} // verus!
