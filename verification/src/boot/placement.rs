//! Which partitions a shard serves itself, which it only routes, and what the
//! outcome of loading each of its own means for the boot.

use crate::partition_helpers::error::PartitionLoadError;
use vstd::prelude::*;

verus! {

/// A partition as the metadata lists it, with the shard it is assigned to.
#[derive(Clone, Copy, Debug, PartialEq, Eq, Structural)]
pub struct PartitionRow {
    pub id: usize,
    pub created_revision: u64,
    pub owning_shard: u16,
}

/// A topic with its partitions in metadata order.
pub struct TopicRow {
    pub id: usize,
    pub partitions: Vec<PartitionRow>,
}

/// A stream with its topics in metadata order.
pub struct StreamRow {
    pub id: usize,
    pub topics: Vec<TopicRow>,
}

/// One partition of the whole server, under its full name.
#[derive(Clone, Copy, Debug, PartialEq, Eq, Structural)]
pub struct PlacedPartition {
    pub stream_id: usize,
    pub topic_id: usize,
    pub partition_id: usize,
    pub created_revision: u64,
    pub owning_shard: u16,
}

/// A shard's view of the server's partitions: those it serves and those that it
/// forwards to another shard, each in metadata order.
pub struct ShardPlacement {
    pub owned: Vec<PlacedPartition>,
    pub routed: Vec<PlacedPartition>,
}

/// What came of loading one owned partition.
#[derive(Clone, Copy, Debug, PartialEq, Eq, Structural)]
pub enum LoadOutcome {
    /// The partition is ready to serve.
    Loaded,
    /// The partition is fenced: its damaged files stay, and it serves nothing.
    Fenced,
    /// Its first offset reservation could not be written.
    ReservationClaimRefused,
    /// Any other failure.
    Failed,
}

/// What the boot does with a partition after trying to load it.
#[derive(Clone, Copy, Debug, PartialEq, Eq, Structural)]
pub enum BootStep {
    /// Serve it and route its name to this shard.
    Serve,
    /// Leave it out and go on.
    Skip,
    /// Fail the boot of the whole shard.
    Fail,
}

/// The named partitions of one topic, in order.
pub open spec fn topic_rows(stream_id: usize, topic: TopicRow) -> Seq<PlacedPartition> {
    topic.partitions@.map_values(
        |row: PartitionRow|
            PlacedPartition {
                stream_id,
                topic_id: topic.id,
                partition_id: row.id,
                created_revision: row.created_revision,
                owning_shard: row.owning_shard,
            },
    )
}

/// The named partitions of a run of topics of one stream, in order.
pub open spec fn stream_rows(stream_id: usize, topics: Seq<TopicRow>) -> Seq<PlacedPartition>
    decreases topics.len(),
{
    if topics.len() == 0 {
        Seq::empty()
    } else {
        stream_rows(stream_id, topics.drop_last()) + topic_rows(stream_id, topics.last())
    }
}

/// The named partitions of a run of streams, in order.
pub open spec fn server_rows(streams: Seq<StreamRow>) -> Seq<PlacedPartition>
    decreases streams.len(),
{
    if streams.len() == 0 {
        Seq::empty()
    } else {
        server_rows(streams.drop_last()) + stream_rows(streams.last().id, streams.last().topics@)
    }
}

/// The rows that `shard_id` serves.
pub open spec fn owned_rows(rows: Seq<PlacedPartition>, shard_id: u16) -> Seq<PlacedPartition> {
    rows.filter(|row: PlacedPartition| row.owning_shard == shard_id)
}

/// The rows that `shard_id` forwards.
pub open spec fn routed_rows(rows: Seq<PlacedPartition>, shard_id: u16) -> Seq<PlacedPartition> {
    rows.filter(|row: PlacedPartition| row.owning_shard != shard_id)
}

impl ShardPlacement {
    /// Whether this is the split of `rows` for `shard_id`.
    pub open spec fn splits(self, rows: Seq<PlacedPartition>, shard_id: u16) -> bool {
        &&& self.owned@ == owned_rows(rows, shard_id)
        &&& self.routed@ == routed_rows(rows, shard_id)
    }
}

/// A shorter run of topics holds no more partitions.
proof fn lemma_stream_rows_grow(stream_id: usize, topics: Seq<TopicRow>, count: int)
    requires
        0 <= count <= topics.len(),
    ensures
        stream_rows(stream_id, topics.take(count)).len() <= stream_rows(stream_id, topics).len(),
    decreases topics.len(),
{
    if count < topics.len() {
        lemma_stream_rows_grow(stream_id, topics.drop_last(), count);
        assert(topics.drop_last().take(count) =~= topics.take(count));
    } else {
        assert(topics.take(count) =~= topics);
    }
}

/// A shorter run of streams holds no more partitions.
proof fn lemma_server_rows_grow(streams: Seq<StreamRow>, count: int)
    requires
        0 <= count <= streams.len(),
    ensures
        server_rows(streams.take(count)).len() <= server_rows(streams).len(),
    decreases streams.len(),
{
    if count < streams.len() {
        lemma_server_rows_grow(streams.drop_last(), count);
        assert(streams.drop_last().take(count) =~= streams.take(count));
    } else {
        assert(streams.take(count) =~= streams);
    }
}

/// The number of partitions of one stream.
fn stream_partitions(stream: &StreamRow) -> (total: usize)
    requires
        stream_rows(stream.id, stream.topics@).len() <= usize::MAX,
    ensures
        total == stream_rows(stream.id, stream.topics@).len(),
{
    let mut total: usize = 0;
    let mut at: usize = 0;
    while at < stream.topics.len()
        invariant
            at <= stream.topics@.len(),
            stream_rows(stream.id, stream.topics@).len() <= usize::MAX,
            total == stream_rows(stream.id, stream.topics@.take(at as int)).len(),
        decreases stream.topics@.len() - at,
    {
        proof {
            lemma_stream_rows_grow(stream.id, stream.topics@, at + 1);
            assert(stream.topics@.take(at + 1).drop_last() =~= stream.topics@.take(at as int));
        }
        total += stream.topics[at].partitions.len();
        at += 1;
    }
    assert(stream.topics@.take(at as int) =~= stream.topics@);
    total
}

/// The number of partitions of the whole server.
pub fn total_partitions(streams: &Vec<StreamRow>) -> (total: usize)
    requires
        server_rows(streams@).len() <= usize::MAX,
    ensures
        total == server_rows(streams@).len(),
{
    let mut total: usize = 0;
    let mut at: usize = 0;
    while at < streams.len()
        invariant
            at <= streams@.len(),
            server_rows(streams@).len() <= usize::MAX,
            total == server_rows(streams@.take(at as int)).len(),
        decreases streams@.len() - at,
    {
        proof {
            lemma_server_rows_grow(streams@, at + 1);
            assert(streams@.take(at + 1).drop_last() =~= streams@.take(at as int));
        }
        total += stream_partitions(&streams[at]);
        at += 1;
    }
    assert(streams@.take(at as int) =~= streams@);
    total
}

/// The capacity a shard reserves for the partitions it serves: twice its even
/// share of the server's, rounded up, which absorbs a skewed assignment.
pub fn owned_partitions_capacity(total_partitions: usize, total_shards: u16) -> (capacity: usize)
    ensures
        capacity == owned_capacity(total_partitions as nat, total_shards),
{
    let shards: usize = if total_shards == 0 { 1 } else { total_shards as usize };
    let whole: usize = total_partitions / shards;
    let rest: usize = total_partitions % shards;
    proof {
        vstd::arithmetic::div_mod::lemma_fundamental_div_mod(
            total_partitions as int,
            shards as int,
        );
        assert(shards * whole == whole * shards) by (nonlinear_arith);
        if rest == 0 {
            vstd::arithmetic::div_mod::lemma_fundamental_div_mod_converse(
                total_partitions + shards - 1,
                shards as int,
                whole as int,
                shards - 1,
            );
        } else {
            assert(shards > 1);
            assert((whole + 1) * shards == whole * shards + shards) by (nonlinear_arith);
            vstd::arithmetic::div_mod::lemma_fundamental_div_mod_converse(
                total_partitions + shards - 1,
                shards as int,
                whole + 1,
                rest - 1,
            );
            vstd::arithmetic::div_mod::lemma_div_decreases(total_partitions as int, shards as int);
        }
    }
    let share: usize = if rest == 0 { whole } else { whole + 1 };
    if share <= usize::MAX / 2 {
        share * 2
    } else {
        usize::MAX
    }
}

/// Splits the partitions of one topic onto the end of a placement.
fn place_topic(placement: &mut ShardPlacement, stream_id: usize, topic: &TopicRow, shard_id: u16)
    ensures
        final(placement).owned@ == old(placement).owned@ + owned_rows(
            topic_rows(stream_id, *topic),
            shard_id,
        ),
        final(placement).routed@ == old(placement).routed@ + routed_rows(
            topic_rows(stream_id, *topic),
            shard_id,
        ),
{
    let ghost rows = topic_rows(stream_id, *topic);
    let mut at: usize = 0;
    proof {
        reveal(Seq::filter);
        assert(owned_rows(rows.take(0), shard_id) =~= Seq::empty());
        assert(routed_rows(rows.take(0), shard_id) =~= Seq::empty());
    }
    while at < topic.partitions.len()
        invariant
            at <= topic.partitions@.len(),
            rows == topic_rows(stream_id, *topic),
            placement.owned@ == old(placement).owned@ + owned_rows(rows.take(at as int), shard_id),
            placement.routed@ == old(placement).routed@ + routed_rows(
                rows.take(at as int),
                shard_id,
            ),
        decreases topic.partitions@.len() - at,
    {
        let row: PartitionRow = topic.partitions[at];
        let placed = PlacedPartition {
            stream_id,
            topic_id: topic.id,
            partition_id: row.id,
            created_revision: row.created_revision,
            owning_shard: row.owning_shard,
        };
        proof {
            reveal(Seq::filter);
            assert(rows.take(at + 1).drop_last() =~= rows.take(at as int));
            assert(rows.take(at + 1).last() == placed);
        }
        if row.owning_shard == shard_id {
            placement.owned.push(placed);
        } else {
            placement.routed.push(placed);
        }
        at += 1;
        assert(placement.owned@ =~= old(placement).owned@ + owned_rows(
            rows.take(at as int),
            shard_id,
        ));
        assert(placement.routed@ =~= old(placement).routed@ + routed_rows(
            rows.take(at as int),
            shard_id,
        ));
    }
    assert(rows.take(at as int) =~= rows);
}

/// Splits the partitions of one stream onto the end of a placement.
fn place_stream(placement: &mut ShardPlacement, stream: &StreamRow, shard_id: u16)
    ensures
        final(placement).owned@ == old(placement).owned@ + owned_rows(
            stream_rows(stream.id, stream.topics@),
            shard_id,
        ),
        final(placement).routed@ == old(placement).routed@ + routed_rows(
            stream_rows(stream.id, stream.topics@),
            shard_id,
        ),
{
    broadcast use Seq::filter_distributes_over_add;

    let mut at: usize = 0;
    proof {
        reveal(Seq::filter);
        assert(owned_rows(stream_rows(stream.id, stream.topics@.take(0)), shard_id)
            =~= Seq::empty());
        assert(routed_rows(stream_rows(stream.id, stream.topics@.take(0)), shard_id)
            =~= Seq::empty());
    }
    while at < stream.topics.len()
        invariant
            at <= stream.topics@.len(),
            placement.owned@ == old(placement).owned@ + owned_rows(
                stream_rows(stream.id, stream.topics@.take(at as int)),
                shard_id,
            ),
            placement.routed@ == old(placement).routed@ + routed_rows(
                stream_rows(stream.id, stream.topics@.take(at as int)),
                shard_id,
            ),
        decreases stream.topics@.len() - at,
    {
        place_topic(placement, stream.id, &stream.topics[at], shard_id);
        assert(stream.topics@.take(at + 1).drop_last() =~= stream.topics@.take(at as int));
        at += 1;
        assert(placement.owned@ =~= old(placement).owned@ + owned_rows(
            stream_rows(stream.id, stream.topics@.take(at as int)),
            shard_id,
        ));
        assert(placement.routed@ =~= old(placement).routed@ + routed_rows(
            stream_rows(stream.id, stream.topics@.take(at as int)),
            shard_id,
        ));
    }
    assert(stream.topics@.take(at as int) =~= stream.topics@);
}

/// Splits every partition of the server into those `shard_id` serves and those it
/// routes to the shard that does.
pub fn place_partitions(streams: &Vec<StreamRow>, shard_id: u16) -> (placement: ShardPlacement)
    ensures
        placement.splits(server_rows(streams@), shard_id),
{
    broadcast use Seq::filter_distributes_over_add;

    let mut placement = ShardPlacement { owned: Vec::new(), routed: Vec::new() };
    let mut at: usize = 0;
    proof {
        reveal(Seq::filter);
        assert(owned_rows(server_rows(streams@.take(0)), shard_id) =~= Seq::empty());
        assert(routed_rows(server_rows(streams@.take(0)), shard_id) =~= Seq::empty());
    }
    while at < streams.len()
        invariant
            at <= streams@.len(),
            placement.splits(server_rows(streams@.take(at as int)), shard_id),
        decreases streams@.len() - at,
    {
        place_stream(&mut placement, &streams[at], shard_id);
        assert(streams@.take(at + 1).drop_last() =~= streams@.take(at as int));
        at += 1;
    }
    assert(streams@.take(at as int) =~= streams@);
    placement
}

/// Every partition is placed once: a shard serves or routes each row of the
/// server, never both, and nothing besides.
pub proof fn law_placement_loses_nothing(
    placement: ShardPlacement,
    rows: Seq<PlacedPartition>,
    shard_id: u16,
)
    requires
        placement.splits(rows, shard_id),
    ensures
        placement.owned@.to_multiset().add(placement.routed@.to_multiset()) == rows.to_multiset(),
        placement.owned@.len() + placement.routed@.len() == rows.len(),
        forall|row: PlacedPartition| #[trigger]
            placement.owned@.contains(row) ==> row.owning_shard == shard_id,
        forall|row: PlacedPartition| #[trigger]
            placement.routed@.contains(row) ==> row.owning_shard != shard_id,
{
    lemma_split_multiset(rows, shard_id);
    broadcast use vstd::seq_lib::group_filter_ensures, vstd::seq_lib::group_to_multiset_ensures;

}

/// The two filters of a split divide its multiset.
proof fn lemma_split_multiset(rows: Seq<PlacedPartition>, shard_id: u16)
    ensures
        owned_rows(rows, shard_id).to_multiset().add(routed_rows(rows, shard_id).to_multiset())
            == rows.to_multiset(),
        owned_rows(rows, shard_id).len() + routed_rows(rows, shard_id).len() == rows.len(),
    decreases rows.len(),
{
    broadcast use vstd::seq_lib::group_to_multiset_ensures;

    reveal(Seq::filter);
    if rows.len() == 0 {
        assert(rows =~= Seq::empty());
        assert(owned_rows(rows, shard_id).to_multiset().add(
            routed_rows(rows, shard_id).to_multiset(),
        ) =~= rows.to_multiset());
    } else {
        lemma_split_multiset(rows.drop_last(), shard_id);
        assert(rows =~= rows.drop_last().push(rows.last()));
        assert(owned_rows(rows, shard_id).to_multiset().add(
            routed_rows(rows, shard_id).to_multiset(),
        ) =~= rows.to_multiset());
    }
}

/// Exactly one shard of the server serves a given partition.
pub proof fn law_one_shard_serves_each(
    rows: Seq<PlacedPartition>,
    row: PlacedPartition,
    left: ShardPlacement,
    left_shard: u16,
    right: ShardPlacement,
    right_shard: u16,
)
    requires
        rows.contains(row),
        left.splits(rows, left_shard),
        right.splits(rows, right_shard),
    ensures
        left.owned@.contains(row) <==> row.owning_shard == left_shard,
        left.owned@.contains(row) && right.owned@.contains(row) ==> left_shard == right_shard,
{
    broadcast use vstd::seq_lib::group_filter_ensures;

}

/// What came of loading a partition, as the boot takes it.
pub fn load_outcome<P, E>(loaded: &Result<Option<P>, PartitionLoadError<E>>) -> (outcome:
    LoadOutcome)
    ensures
        outcome == match *loaded {
            Ok(Some(_)) => LoadOutcome::Loaded,
            Ok(None) => LoadOutcome::Fenced,
            Err(PartitionLoadError::OffsetReservationClaim { .. }) => {
                LoadOutcome::ReservationClaimRefused
            },
            Err(_) => LoadOutcome::Failed,
        },
{
    match loaded {
        Ok(Some(_)) => LoadOutcome::Loaded,
        Ok(None) => LoadOutcome::Fenced,
        Err(PartitionLoadError::OffsetReservationClaim { .. }) => {
            LoadOutcome::ReservationClaimRefused
        },
        Err(_) => LoadOutcome::Failed,
    }
}

/// What the boot does after loading a partition. A refused reservation claim is a
/// failed write and not damage, so it costs that partition its start only; any
/// other failure stops the shard.
pub fn settle_loaded_partition(outcome: LoadOutcome) -> (step: BootStep)
    ensures
        step == BootStep::Serve <==> outcome == LoadOutcome::Loaded,
        step == BootStep::Fail <==> outcome == LoadOutcome::Failed,
{
    match outcome {
        LoadOutcome::Loaded => BootStep::Serve,
        LoadOutcome::Fenced => BootStep::Skip,
        LoadOutcome::ReservationClaimRefused => BootStep::Skip,
        LoadOutcome::Failed => BootStep::Fail,
    }
}

/// The owned partitions that came up, of those whose loading has been settled.
pub open spec fn served_rows(
    owned: Seq<PlacedPartition>,
    outcomes: Seq<LoadOutcome>,
) -> Seq<PlacedPartition>
    recommends
        outcomes.len() <= owned.len(),
    decreases outcomes.len(),
{
    if outcomes.len() == 0 {
        Seq::empty()
    } else {
        let earlier = served_rows(owned, outcomes.drop_last());
        if outcomes.last() == LoadOutcome::Loaded {
            earlier.push(owned[outcomes.len() - 1])
        } else {
            earlier
        }
    }
}

/// The boot of one shard, partition by partition: what it routes from the start,
/// and what it comes to serve.
pub struct ShardBoot {
    placement: ShardPlacement,
    settled: usize,
    routes: Vec<PlacedPartition>,
    outcomes: Ghost<Seq<LoadOutcome>>,
}

impl ShardBoot {
    /// The placement this boot works through.
    pub closed spec fn placement(self) -> ShardPlacement {
        self.placement
    }

    /// What came of the partitions settled so far, in order.
    pub closed spec fn outcomes(self) -> Seq<LoadOutcome> {
        self.outcomes@
    }

    /// The routing table so far: every row names a partition, its shard and the
    /// revision it was created at.
    pub closed spec fn routes(self) -> Seq<PlacedPartition> {
        self.routes@
    }

    /// The partition to load next.
    pub open spec fn pending(self) -> Option<PlacedPartition> {
        if self.outcomes().len() < self.placement().owned@.len() {
            Some(self.placement().owned@[self.outcomes().len() as int])
        } else {
            None
        }
    }

    /// The routing table holds the foreign partitions and the served ones.
    #[verifier::type_invariant]
    closed spec fn is_valid(self) -> bool {
        &&& self.settled == self.outcomes@.len()
        &&& self.settled <= self.placement.owned@.len()
        &&& self.routes@ == self.placement.routed@ + served_rows(
            self.placement.owned@,
            self.outcomes@,
        )
    }

    /// Whether the routing table is what the history says: the foreign partitions,
    /// then the owned ones that loaded.
    pub open spec fn routes_follow_outcomes(self) -> bool {
        &&& self.outcomes().len() <= self.placement().owned@.len()
        &&& self.routes() == self.placement().routed@ + served_rows(
            self.placement().owned@,
            self.outcomes(),
        )
    }

    /// Starts the boot of a shard with the foreign partitions routed.
    pub fn start(placement: ShardPlacement) -> (boot: ShardBoot)
        ensures
            boot.placement() == placement,
            boot.outcomes() == Seq::<LoadOutcome>::empty(),
            boot.routes() == placement.routed@,
            boot.routes_follow_outcomes(),
    {
        let mut routes: Vec<PlacedPartition> = Vec::new();
        let mut at: usize = 0;
        while at < placement.routed.len()
            invariant
                at <= placement.routed@.len(),
                routes@ == placement.routed@.take(at as int),
            decreases placement.routed@.len() - at,
        {
            routes.push(placement.routed[at]);
            at += 1;
            assert(routes@ =~= placement.routed@.take(at as int));
        }
        assert(placement.routed@.take(at as int) =~= placement.routed@);
        assert(routes@ =~= placement.routed@ + served_rows(placement.owned@, Seq::empty()));
        ShardBoot { placement, settled: 0, routes, outcomes: Ghost(Seq::empty()) }
    }

    /// The partition to load next, or `None` when every one has been settled.
    pub fn next_partition(&self) -> (next: Option<PlacedPartition>)
        ensures
            next == self.pending(),
    {
        proof {
            use_type_invariant(self);
        }
        if self.settled < self.placement.owned.len() {
            Some(self.placement.owned[self.settled])
        } else {
            None
        }
    }

    /// Settles the partition that was loaded: a loaded one is routed to this
    /// shard, and a skipped or fatal one leaves the table as it was.
    pub fn settle(self, outcome: LoadOutcome) -> (settled: (ShardBoot, BootStep))
        requires
            self.pending() is Some,
        ensures
            settled.0.placement() == self.placement(),
            settled.0.outcomes() == self.outcomes().push(outcome),
            settled.0.routes() == if outcome == LoadOutcome::Loaded {
                self.routes().push(self.pending()->0)
            } else {
                self.routes()
            },
            settled.0.routes_follow_outcomes(),
            settled.1 == BootStep::Serve <==> outcome == LoadOutcome::Loaded,
            settled.1 == BootStep::Fail <==> outcome == LoadOutcome::Failed,
    {
        proof {
            use_type_invariant(&self);
        }
        let ghost before = self;
        let ShardBoot { placement, settled, mut routes, outcomes } = self;
        let step = settle_loaded_partition(outcome);
        if step == BootStep::Serve {
            routes.push(placement.owned[settled]);
        }
        assert(settled < placement.owned.len());
        let ghost history = outcomes@.push(outcome);
        proof {
            assert(history.drop_last() =~= before.outcomes@);
            assert(routes@ =~= placement.routed@ + served_rows(placement.owned@, history));
        }
        (ShardBoot { placement, settled: settled + 1, routes, outcomes: Ghost(history) }, step)
    }

    /// The finished routing table.
    pub fn into_routes(self) -> (routes: Vec<PlacedPartition>)
        ensures
            routes@ == self.routes(),
            self.routes_follow_outcomes(),
    {
        proof {
            use_type_invariant(&self);
        }
        self.routes
    }
}

/// With every outcome a success, what is served is all that is owned.
proof fn lemma_served_all(owned: Seq<PlacedPartition>, outcomes: Seq<LoadOutcome>)
    requires
        outcomes.len() <= owned.len(),
        forall|i: int| 0 <= i < outcomes.len() ==> outcomes[i] == LoadOutcome::Loaded,
    ensures
        served_rows(owned, outcomes) == owned.take(outcomes.len() as int),
    decreases outcomes.len(),
{
    if outcomes.len() == 0 {
        assert(owned.take(0) =~= Seq::empty());
    } else {
        lemma_served_all(owned, outcomes.drop_last());
        assert(owned.take(outcomes.len() as int) =~= owned.take(outcomes.len() - 1).push(
            owned[outcomes.len() - 1],
        ));
    }
}

/// A boot in which every owned partition loads leaves a routing table with each
/// partition of the server in it exactly as often as the metadata lists it.
pub proof fn law_clean_boot_routes_everything(
    boot: ShardBoot,
    rows: Seq<PlacedPartition>,
    shard_id: u16,
)
    requires
        boot.routes_follow_outcomes(),
        boot.placement().splits(rows, shard_id),
        boot.pending() is None,
        forall|i: int|
            0 <= i < boot.outcomes().len() ==> boot.outcomes()[i] == LoadOutcome::Loaded,
    ensures
        boot.routes().to_multiset() == rows.to_multiset(),
{
    let owned = boot.placement().owned@;
    let routed = boot.placement().routed@;
    lemma_served_all(owned, boot.outcomes());
    assert(owned.take(owned.len() as int) =~= owned);
    lemma_split_multiset(rows, shard_id);
    vstd::seq_lib::lemma_multiset_commutative(routed, owned);
    assert(routed.to_multiset().add(owned.to_multiset()) =~= owned.to_multiset().add(
        routed.to_multiset(),
    ));
}

/// All shards together reserve room for at least twice the partitions there are,
/// unless the machine's limit cuts the reservation short.
pub proof fn law_capacity_covers_an_even_share(total_partitions: nat, total_shards: u16)
    requires
        total_shards > 0,
        owned_capacity(total_partitions, total_shards) < usize::MAX,
    ensures
        owned_capacity(total_partitions, total_shards) * total_shards >= 2 * total_partitions,
{
    let shards = total_shards as int;
    let share = (total_partitions + shards - 1) / shards;
    vstd::arithmetic::div_mod::lemma_fundamental_div_mod(total_partitions + shards - 1, shards);
    vstd::arithmetic::div_mod::lemma_mod_bound(total_partitions + shards - 1, shards);
    assert(shards * share >= total_partitions);
    assert((2 * share) * shards == 2 * (shards * share)) by (nonlinear_arith);
}

/// How the build of a shard starts: the sizes of its tables, and its partitions.
pub struct ShardBuildPlan {
    /// The size of the routing table, which names every partition of the server.
    pub routes_capacity: usize,
    /// The size of the table of partitions that the shard serves.
    pub owned_capacity: usize,
    pub placement: ShardPlacement,
}

/// The capacity for the partitions of one shard.
pub open spec fn owned_capacity(total_partitions: nat, total_shards: u16) -> int {
    let shards: int = if total_shards == 0 {
        1
    } else {
        total_shards as int
    };
    let share = (total_partitions + shards - 1) / shards;
    if 2 * share <= usize::MAX {
        2 * share
    } else {
        usize::MAX as int
    }
}

/// Starts the build of a shard from the metadata: how large its tables are, which
/// partitions it loads, and which it routes elsewhere.
pub fn build_shard_for_thread(shard_id: u16, total_shards: u16, streams: &Vec<StreamRow>) -> (plan:
    ShardBuildPlan)
    requires
        server_rows(streams@).len() <= usize::MAX,
    ensures
        plan.routes_capacity == server_rows(streams@).len(),
        plan.owned_capacity == owned_capacity(server_rows(streams@).len(), total_shards),
        plan.placement.splits(server_rows(streams@), shard_id),
{
    let total: usize = total_partitions(streams);
    ShardBuildPlan {
        routes_capacity: total,
        owned_capacity: owned_partitions_capacity(total, total_shards),
        placement: place_partitions(streams, shard_id),
    }
}

/// The number of partitions of a run of topics.
pub open spec fn topics_total(topics: Seq<TopicRow>) -> nat
    decreases topics.len(),
{
    if topics.len() == 0 {
        0
    } else {
        topics_total(topics.drop_last()) + topics.last().partitions@.len()
    }
}

/// The number of partitions of all topics of a run of streams.
pub open spec fn streams_total(streams: Seq<StreamRow>) -> nat
    decreases streams.len(),
{
    if streams.len() == 0 {
        0
    } else {
        streams_total(streams.drop_last()) + topics_total(streams.last().topics@)
    }
}

/// The rows of a stream's topics are as many as their partitions.
proof fn lemma_stream_rows_total(stream_id: usize, topics: Seq<TopicRow>)
    ensures
        stream_rows(stream_id, topics).len() == topics_total(topics),
    decreases topics.len(),
{
    if topics.len() > 0 {
        lemma_stream_rows_total(stream_id, topics.drop_last());
    }
}

/// The rows of the server are as many as its partitions.
proof fn lemma_server_rows_total(streams: Seq<StreamRow>)
    ensures
        server_rows(streams).len() == streams_total(streams),
    decreases streams.len(),
{
    if streams.len() > 0 {
        lemma_server_rows_total(streams.drop_last());
        lemma_stream_rows_total(streams.last().id, streams.last().topics@);
    }
}

/// The row of a partition is among those of its stream.
proof fn lemma_stream_rows_hold(stream_id: usize, topics: Seq<TopicRow>, topic: int, partition: int)
    requires
        0 <= topic < topics.len(),
        0 <= partition < topics[topic].partitions@.len(),
    ensures
        stream_rows(stream_id, topics).contains(
            PlacedPartition {
                stream_id,
                topic_id: topics[topic].id,
                partition_id: topics[topic].partitions@[partition].id,
                created_revision: topics[topic].partitions@[partition].created_revision,
                owning_shard: topics[topic].partitions@[partition].owning_shard,
            },
        ),
    decreases topics.len(),
{
    let row = PlacedPartition {
        stream_id,
        topic_id: topics[topic].id,
        partition_id: topics[topic].partitions@[partition].id,
        created_revision: topics[topic].partitions@[partition].created_revision,
        owning_shard: topics[topic].partitions@[partition].owning_shard,
    };
    let earlier = stream_rows(stream_id, topics.drop_last());
    let last = topic_rows(stream_id, topics.last());
    let all = stream_rows(stream_id, topics);
    assert(all == earlier + last);
    if topic < topics.len() - 1 {
        lemma_stream_rows_hold(stream_id, topics.drop_last(), topic, partition);
        let at = choose|at: int| 0 <= at < earlier.len() && earlier[at] == row;
        assert(all[at] == row);
    } else {
        assert(last[partition] == row);
        assert(all[earlier.len() + partition] == row);
    }
}

/// The row of a partition is among those of the server.
proof fn lemma_server_rows_hold(
    streams: Seq<StreamRow>,
    stream: int,
    topic: int,
    partition: int,
)
    requires
        0 <= stream < streams.len(),
        0 <= topic < streams[stream].topics@.len(),
        0 <= partition < streams[stream].topics@[topic].partitions@.len(),
    ensures
        server_rows(streams).contains(
            PlacedPartition {
                stream_id: streams[stream].id,
                topic_id: streams[stream].topics@[topic].id,
                partition_id: streams[stream].topics@[topic].partitions@[partition].id,
                created_revision:
                    streams[stream].topics@[topic].partitions@[partition].created_revision,
                owning_shard: streams[stream].topics@[topic].partitions@[partition].owning_shard,
            },
        ),
    decreases streams.len(),
{
    let found = streams[stream].topics@[topic].partitions@[partition];
    let row = PlacedPartition {
        stream_id: streams[stream].id,
        topic_id: streams[stream].topics@[topic].id,
        partition_id: found.id,
        created_revision: found.created_revision,
        owning_shard: found.owning_shard,
    };
    let earlier = server_rows(streams.drop_last());
    let last = stream_rows(streams.last().id, streams.last().topics@);
    let all = server_rows(streams);
    assert(all == earlier + last);
    if stream < streams.len() - 1 {
        lemma_server_rows_hold(streams.drop_last(), stream, topic, partition);
        let at = choose|at: int| 0 <= at < earlier.len() && earlier[at] == row;
        assert(all[at] == row);
    } else {
        lemma_stream_rows_hold(streams.last().id, streams.last().topics@, topic, partition);
        let at = choose|at: int| 0 <= at < last.len() && last[at] == row;
        assert(all[earlier.len() + at] == row);
    }
}

/// The rows of two runs of streams, one after the other.
proof fn lemma_server_rows_add(front: Seq<StreamRow>, back: Seq<StreamRow>)
    ensures
        server_rows(front + back) == server_rows(front) + server_rows(back),
    decreases back.len(),
{
    if back.len() == 0 {
        assert(front + back =~= front);
        assert(server_rows(front) + server_rows(back) =~= server_rows(front));
    } else {
        lemma_server_rows_add(front, back.drop_last());
        assert((front + back).drop_last() =~= front + back.drop_last());
        assert((front + back).last() == back.last());
        assert(server_rows(front + back) =~= server_rows(front) + server_rows(back));
    }
}

/// The rows of two runs of topics of one stream, one after the other.
proof fn lemma_stream_rows_add(stream_id: usize, front: Seq<TopicRow>, back: Seq<TopicRow>)
    ensures
        stream_rows(stream_id, front + back) == stream_rows(stream_id, front) + stream_rows(
            stream_id,
            back,
        ),
    decreases back.len(),
{
    if back.len() == 0 {
        assert(front + back =~= front);
        assert(stream_rows(stream_id, front) + stream_rows(stream_id, back) =~= stream_rows(
            stream_id,
            front,
        ));
    } else {
        lemma_stream_rows_add(stream_id, front, back.drop_last());
        assert((front + back).drop_last() =~= front + back.drop_last());
        assert((front + back).last() == back.last());
        assert(stream_rows(stream_id, front + back) =~= stream_rows(stream_id, front)
            + stream_rows(stream_id, back));
    }
}

/// Every partition of every topic of every stream is placed, under its own name,
/// revision and shard: among the owned where its shard is this one, and among the
/// routed where it is another. It is never on the other side.
pub proof fn law_every_partition_is_placed(
    streams: Vec<StreamRow>,
    shard_id: u16,
    placement: ShardPlacement,
    stream: int,
    topic: int,
    partition: int,
)
    requires
        call_ensures(place_partitions, (&streams, shard_id), placement),
        0 <= stream < streams@.len(),
        0 <= topic < streams@[stream].topics@.len(),
        0 <= partition < streams@[stream].topics@[topic].partitions@.len(),
    ensures
        ({
            let listed = streams@[stream].topics@[topic].partitions@[partition];
            let row = PlacedPartition {
                stream_id: streams@[stream].id,
                topic_id: streams@[stream].topics@[topic].id,
                partition_id: listed.id,
                created_revision: listed.created_revision,
                owning_shard: listed.owning_shard,
            };
            &&& placement.owned@.contains(row) <==> listed.owning_shard == shard_id
            &&& placement.routed@.contains(row) <==> listed.owning_shard != shard_id
        }),
{
    broadcast use vstd::seq_lib::group_filter_ensures;

    lemma_server_rows_hold(streams@, stream, topic, partition);
}

/// Nothing is counted or placed but the partitions of all topics of all streams:
/// the total is their sum, and so is what a shard owns and routes together, row for
/// row each on the side its shard says.
pub proof fn law_the_total_is_the_sum_over_topics(
    streams: Vec<StreamRow>,
    shard_id: u16,
    placement: ShardPlacement,
    total: usize,
    at: int,
)
    requires
        call_ensures(place_partitions, (&streams, shard_id), placement),
        call_ensures(total_partitions, (&streams,), total),
    ensures
        total == streams_total(streams@),
        placement.owned@.len() + placement.routed@.len() == streams_total(streams@),
        0 <= at < placement.owned@.len() ==> placement.owned@[at].owning_shard == shard_id,
        0 <= at < placement.routed@.len() ==> placement.routed@[at].owning_shard != shard_id,
{
    lemma_server_rows_total(streams@);
    law_placement_loses_nothing(placement, server_rows(streams@), shard_id);
    if 0 <= at < placement.owned@.len() {
        assert(placement.owned@.contains(placement.owned@[at]));
    }
    if 0 <= at < placement.routed@.len() {
        assert(placement.routed@.contains(placement.routed@[at]));
    }
}

/// Streams are placed in the order of the metadata and apart from one another: what
/// two runs of streams are placed as is what the first is placed as, followed by the
/// second.
pub proof fn law_streams_are_placed_in_order(
    front: Vec<StreamRow>,
    back: Vec<StreamRow>,
    whole: Vec<StreamRow>,
    shard_id: u16,
    front_placed: ShardPlacement,
    back_placed: ShardPlacement,
    whole_placed: ShardPlacement,
)
    requires
        whole@ == front@ + back@,
        call_ensures(place_partitions, (&front, shard_id), front_placed),
        call_ensures(place_partitions, (&back, shard_id), back_placed),
        call_ensures(place_partitions, (&whole, shard_id), whole_placed),
    ensures
        whole_placed.owned@ == front_placed.owned@ + back_placed.owned@,
        whole_placed.routed@ == front_placed.routed@ + back_placed.routed@,
{
    broadcast use Seq::filter_distributes_over_add;

    lemma_server_rows_add(front@, back@);
}

/// Topics are placed in order within their stream: a stream cut in two, with its
/// first topics in one part and the others in the next, is placed as it was whole.
pub proof fn law_topics_are_placed_in_order(
    stream: StreamRow,
    front: StreamRow,
    back: StreamRow,
    shard_id: u16,
    whole: Vec<StreamRow>,
    cut: Vec<StreamRow>,
    whole_placed: ShardPlacement,
    cut_placed: ShardPlacement,
)
    requires
        stream.id == front.id == back.id,
        stream.topics@ == front.topics@ + back.topics@,
        whole@ == seq![stream],
        cut@ == seq![front, back],
        call_ensures(place_partitions, (&whole, shard_id), whole_placed),
        call_ensures(place_partitions, (&cut, shard_id), cut_placed),
    ensures
        whole_placed.owned@ == cut_placed.owned@,
        whole_placed.routed@ == cut_placed.routed@,
{
    lemma_stream_rows_add(stream.id, front.topics@, back.topics@);
    reveal_with_fuel(server_rows, 3);
    assert(whole@.drop_last() =~= Seq::<StreamRow>::empty());
    assert(cut@.drop_last() =~= seq![front]);
    assert(cut@.drop_last().drop_last() =~= Seq::<StreamRow>::empty());
    assert(server_rows(whole@) =~= stream_rows(stream.id, stream.topics@));
    assert(server_rows(cut@) =~= stream_rows(front.id, front.topics@) + stream_rows(
        back.id,
        back.topics@,
    ));
}

/// Partitions are placed in order within their topic: a topic cut in two, with its
/// first partitions in one part and the others in the next, is placed as it was
/// whole.
pub proof fn law_partitions_are_placed_in_order(
    topic: TopicRow,
    front: TopicRow,
    back: TopicRow,
    shard_id: u16,
    stream: StreamRow,
    cut_stream: StreamRow,
    whole: Vec<StreamRow>,
    cut: Vec<StreamRow>,
    whole_placed: ShardPlacement,
    cut_placed: ShardPlacement,
)
    requires
        topic.id == front.id == back.id,
        topic.partitions@ == front.partitions@ + back.partitions@,
        stream.id == cut_stream.id,
        stream.topics@ == seq![topic],
        cut_stream.topics@ == seq![front, back],
        whole@ == seq![stream],
        cut@ == seq![cut_stream],
        call_ensures(place_partitions, (&whole, shard_id), whole_placed),
        call_ensures(place_partitions, (&cut, shard_id), cut_placed),
    ensures
        whole_placed.owned@ == cut_placed.owned@,
        whole_placed.routed@ == cut_placed.routed@,
{
    reveal_with_fuel(server_rows, 2);
    reveal_with_fuel(stream_rows, 3);
    assert(whole@.drop_last() =~= Seq::<StreamRow>::empty());
    assert(cut@.drop_last() =~= Seq::<StreamRow>::empty());
    assert(stream.topics@.drop_last() =~= Seq::<TopicRow>::empty());
    assert(cut_stream.topics@.drop_last() =~= seq![front]);
    assert(cut_stream.topics@.drop_last().drop_last() =~= Seq::<TopicRow>::empty());
    assert(server_rows(whole@) =~= topic_rows(stream.id, topic));
    assert(server_rows(cut@) =~= topic_rows(stream.id, front) + topic_rows(stream.id, back));
    assert(server_rows(whole@) =~= server_rows(cut@));
}

/// A shard reserves room for twice its even share: the least even number that times
/// the number of shards comes to twice the partitions, with no shards counted as
/// one, and the machine's limit where that number is past it.
pub proof fn law_capacity_is_twice_the_rounded_share(
    total_partitions: usize,
    total_shards: u16,
    capacity: usize,
)
    requires
        call_ensures(owned_partitions_capacity, (total_partitions, total_shards), capacity),
    ensures
        ({
            let shards: int = if total_shards == 0 {
                1
            } else {
                total_shards as int
            };
            &&& capacity < usize::MAX ==> {
                &&& capacity % 2 == 0
                &&& capacity * shards >= 2 * total_partitions
                &&& (capacity - 2) * shards < 2 * total_partitions
            }
            &&& capacity == usize::MAX ==> capacity * shards < 2 * (total_partitions + shards)
        }),
{
    let shards: int = if total_shards == 0 {
        1
    } else {
        total_shards as int
    };
    let share = (total_partitions + shards - 1) / shards;
    vstd::arithmetic::div_mod::lemma_fundamental_div_mod(total_partitions + shards - 1, shards);
    vstd::arithmetic::div_mod::lemma_mod_bound(total_partitions + shards - 1, shards);
    assert(total_partitions <= shards * share < total_partitions + shards);
    assert((2 * share) * shards == 2 * (shards * share)) by (nonlinear_arith);
    assert((2 * share - 2) * shards == 2 * (shards * share) - 2 * shards) by (nonlinear_arith);
    if capacity == usize::MAX {
        assert(2 * share >= capacity);
        assert(capacity * shards <= (2 * share) * shards) by (nonlinear_arith)
            requires
                capacity <= 2 * share,
                shards > 0,
        ;
    }
}

/// A shard is built for the partitions of the metadata: a routing table for all of
/// them, room for its share, and the placement of each.
pub proof fn law_a_shard_is_built_for_the_metadata(
    shard_id: u16,
    total_shards: u16,
    streams: Vec<StreamRow>,
    plan: ShardBuildPlan,
    placement: ShardPlacement,
    capacity: usize,
)
    requires
        streams_total(streams@) <= usize::MAX,
        call_ensures(build_shard_for_thread, (shard_id, total_shards, &streams), plan),
        call_ensures(place_partitions, (&streams, shard_id), placement),
        call_ensures(
            owned_partitions_capacity,
            (streams_total(streams@) as usize, total_shards),
            capacity,
        ),
    ensures
        plan.routes_capacity == streams_total(streams@),
        plan.owned_capacity == capacity,
        plan.placement.owned@ == placement.owned@,
        plan.placement.routed@ == placement.routed@,
{
    lemma_server_rows_total(streams@);
}

/// A boot loads its partitions in the order it owns them, and stops asking when all
/// are settled.
pub proof fn law_a_boot_loads_in_order(boot: ShardBoot, next: Option<PlacedPartition>)
    requires
        call_ensures(ShardBoot::next_partition, (&boot,), next),
    ensures
        next is None <==> boot.outcomes().len() >= boot.placement().owned@.len(),
        next matches Some(partition) ==> partition
            == boot.placement().owned@[boot.outcomes().len() as int],
{
}

/// Only a loaded partition is routed to this shard, at the end of the table and under
/// its own row; a fenced one and one whose claim was refused are left out, and any
/// other failure fails the boot. The table keeps every earlier row.
pub proof fn law_only_loaded_partitions_are_routed(
    boot: ShardBoot,
    outcome: LoadOutcome,
    settled: (ShardBoot, BootStep),
)
    requires
        boot.outcomes().len() < boot.placement().owned@.len(),
        call_ensures(ShardBoot::settle, (boot, outcome), settled),
    ensures
        match outcome {
            LoadOutcome::Loaded => settled.1 == BootStep::Serve,
            LoadOutcome::Fenced => settled.1 == BootStep::Skip,
            LoadOutcome::ReservationClaimRefused => settled.1 == BootStep::Skip,
            LoadOutcome::Failed => settled.1 == BootStep::Fail,
        },
        settled.0.outcomes() == boot.outcomes().push(outcome),
        settled.0.placement() == boot.placement(),
        outcome == LoadOutcome::Loaded ==> settled.0.routes() == boot.routes().push(
            boot.placement().owned@[boot.outcomes().len() as int],
        ),
        outcome != LoadOutcome::Loaded ==> settled.0.routes() == boot.routes(),
{
}

/// What came of loading a partition is taken for what it is: a partition that came
/// up, one that is fenced, a claim that was refused, and any other error.
pub proof fn law_load_outcomes_are_told_apart<P, E>(
    loaded: Result<Option<P>, PartitionLoadError<E>>,
    outcome: LoadOutcome,
    step: BootStep,
)
    requires
        call_ensures(load_outcome::<P, E>, (&loaded,), outcome),
        call_ensures(settle_loaded_partition, (outcome,), step),
    ensures
        step == BootStep::Serve <==> loaded is Ok && loaded->Ok_0 is Some,
        step == BootStep::Fail <==> loaded is Err && !(loaded->Err_0 is OffsetReservationClaim),
        outcome == LoadOutcome::Fenced <==> loaded is Ok && loaded->Ok_0 is None,
        outcome == LoadOutcome::ReservationClaimRefused <==> loaded is Err && loaded->Err_0
            is OffsetReservationClaim,
{
}

/// A boot starts with the foreign partitions routed and nothing settled, and hands over
/// the table it has: the foreign partitions first, and after them, in order, exactly
/// the owned ones that loaded.
pub proof fn law_a_boot_hands_over_what_loaded(
    placement: ShardPlacement,
    started: ShardBoot,
    boot: ShardBoot,
    routes: Vec<PlacedPartition>,
    at: int,
)
    requires
        call_ensures(ShardBoot::start, (placement,), started),
        call_ensures(ShardBoot::into_routes, (boot,), routes),
    ensures
        started.placement() == placement,
        started.outcomes().len() == 0,
        started.routes() == placement.routed@,
        routes@ == boot.routes(),
        boot.outcomes().len() <= boot.placement().owned@.len(),
        routes@.take(boot.placement().routed@.len() as int) == boot.placement().routed@,
        0 <= at < boot.outcomes().len() && boot.outcomes()[at] == LoadOutcome::Loaded ==> {
            let before = boot.outcomes().take(at).filter(
                |outcome: LoadOutcome| outcome == LoadOutcome::Loaded,
            ).len();
            routes@[boot.placement().routed@.len() + before as int]
                == boot.placement().owned@[at]
        },
        routes@.len() == boot.placement().routed@.len() + boot.outcomes().filter(
            |outcome: LoadOutcome| outcome == LoadOutcome::Loaded,
        ).len(),
{
    let routed = boot.placement().routed@;
    let owned = boot.placement().owned@;
    let outcomes = boot.outcomes();
    assert(routes@ == routed + served_rows(owned, outcomes));
    assert(routes@.take(routed.len() as int) =~= routed);
    lemma_served_rows_count(owned, outcomes);
    if 0 <= at < outcomes.len() && outcomes[at] == LoadOutcome::Loaded {
        lemma_served_row_is_found(owned, outcomes, at);
    }
}

/// What is served is as much as loaded.
proof fn lemma_served_rows_count(owned: Seq<PlacedPartition>, outcomes: Seq<LoadOutcome>)
    ensures
        served_rows(owned, outcomes).len() == outcomes.filter(
            |outcome: LoadOutcome| outcome == LoadOutcome::Loaded,
        ).len(),
    decreases outcomes.len(),
{
    reveal(Seq::filter);
    if outcomes.len() > 0 {
        lemma_served_rows_count(owned, outcomes.drop_last());
    }
}

/// A partition that loaded is served behind those that loaded before it.
proof fn lemma_served_row_is_found(
    owned: Seq<PlacedPartition>,
    outcomes: Seq<LoadOutcome>,
    at: int,
)
    requires
        0 <= at < outcomes.len() <= owned.len(),
        outcomes[at] == LoadOutcome::Loaded,
    ensures
        ({
            let before = outcomes.take(at).filter(
                |outcome: LoadOutcome| outcome == LoadOutcome::Loaded,
            ).len();
            before < served_rows(owned, outcomes).len() && served_rows(owned, outcomes)[before as int]
                == owned[at]
        }),
    decreases outcomes.len(),
{
    if at < outcomes.len() - 1 {
        lemma_served_row_is_found(owned, outcomes.drop_last(), at);
        assert(outcomes.drop_last().take(at) =~= outcomes.take(at));
    } else {
        assert(outcomes.take(at) =~= outcomes.drop_last());
        lemma_served_rows_count(owned, outcomes.drop_last());
    }
}

} // verus!
