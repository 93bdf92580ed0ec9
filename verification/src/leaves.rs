//! Leaf decay: every leaf block stores its distance to the nearest log, and a
//! non-persistent leaf that ends up too far from any log decays.

use vstd::prelude::*;

verus! {

/// The maximum (and default) distance a leaf can be from a log before it decays.
pub const MAX_DISTANCE: u8 = 7;

/// Delay, in ticks, of the recompute that a neighbour update schedules.
pub const RECOMPUTE_DELAY_TICKS: u8 = 1;

/// The state shared by all blocks of the `minecraft:leaves` tag.
#[derive(Clone, Copy, Debug, PartialEq, Eq, Structural)]
pub struct LeavesProperties {
    /// Distance to the nearest log, `1..=MAX_DISTANCE` in a well-formed state.
    pub distance: u8,
    /// Player-placed leaves never decay.
    pub persistent: bool,
    pub waterlogged: bool,
}

/// What the leaf logic reads of a block in the world.
#[derive(Clone, Copy, Debug, PartialEq, Eq, Structural)]
pub struct BlockState {
    /// The block carries the `minecraft:logs` tag.
    pub is_log: bool,
    /// `Some` with the state's leaf properties when the block carries the
    /// `minecraft:leaves` tag, `None` otherwise.
    pub leaves: Option<LeavesProperties>,
}

/// All leaf blocks share the same behaviour, so one value handles the whole tag.
#[derive(Clone, Copy, Debug, PartialEq, Eq, Structural)]
pub struct LeavesBlock;

/// What a neighbour update answers: the (unchanged) state, and whether a
/// recompute of the distance must be scheduled `RECOMPUTE_DELAY_TICKS` later.
#[derive(Clone, Copy, Debug, PartialEq, Eq, Structural)]
pub struct NeighborUpdate {
    pub state: LeavesProperties,
    pub schedule_tick: bool,
}

/// What a scheduled tick does to the leaf block at its position.
#[derive(Clone, Copy, Debug, PartialEq, Eq, Structural)]
pub enum TickAction {
    /// Leave the world unchanged.
    Keep,
    /// Break the leaf and drop its items.
    Decay,
    /// Write this state at the position, notifying neighbours.
    SetState(LeavesProperties),
}

pub open spec fn min_int(a: int, b: int) -> int {
    if a <= b {
        a
    } else {
        b
    }
}

/// `a + b` on `u8`, saturating at `u8::MAX`.
pub open spec fn saturating_add_u8(a: u8, b: u8) -> u8 {
    if a + b > u8::MAX {
        u8::MAX
    } else {
        (a + b) as u8
    }
}

/// A log contributes `0`, a leaf its own `distance`, anything else `MAX_DISTANCE`.
pub open spec fn spec_distance_from_log(block: BlockState) -> u8 {
    if block.is_log {
        0
    } else {
        match block.leaves {
            Some(props) => props.distance,
            None => MAX_DISTANCE,
        }
    }
}

/// `1 +` the smallest contribution, capped at `MAX_DISTANCE`.
pub open spec fn combined_distance(contributions: Seq<u8>) -> int
    decreases contributions.len(),
{
    if contributions.len() == 0 {
        MAX_DISTANCE as int
    } else {
        min_int(
            combined_distance(contributions.drop_last()),
            contributions.last() + 1,
        )
    }
}

/// The contributions of a sequence of neighbouring blocks.
pub open spec fn contributions_of(neighbors: Seq<BlockState>) -> Seq<u8> {
    neighbors.map_values(|block: BlockState| spec_distance_from_log(block))
}

/// The neighbour `block` holds a leaf at `distance`: it is a log and the
/// distance is 1, or it is a leaf one closer to a log.
pub open spec fn supports_at(block: BlockState, distance: int) -> bool {
    ||| block.is_log && distance == 1
    ||| !block.is_log && block.leaves is Some && distance == block.leaves->0.distance + 1
}

/// The distance of a leaf whose neighbours are `neighbors`.
pub open spec fn spec_calculate_distance(neighbors: Seq<BlockState>) -> int {
    combined_distance(contributions_of(neighbors))
}

/// The state a placed leaf gets.
pub open spec fn spec_on_place(replacing_water_source: bool, neighbors: Seq<BlockState>) -> LeavesProperties {
    LeavesProperties {
        distance: spec_calculate_distance(neighbors) as u8,
        persistent: true,
        waterlogged: replacing_water_source,
    }
}

/// Whether an update of the neighbour `neighbor` calls for a recompute.
pub open spec fn spec_needs_recompute(state: LeavesProperties, neighbor: BlockState) -> bool {
    let neighbor_distance = saturating_add_u8(spec_distance_from_log(neighbor), 1);
    neighbor_distance != 1 || state.distance != neighbor_distance
}

/// What a scheduled tick does, given the block now at the position and its neighbours.
pub open spec fn spec_on_scheduled_tick(current: BlockState, neighbors: Seq<BlockState>) -> TickAction {
    match current.leaves {
        None => TickAction::Keep,
        Some(props) => {
            let distance = spec_calculate_distance(neighbors);
            if distance == MAX_DISTANCE && !props.persistent {
                TickAction::Decay
            } else if props.distance != distance {
                TickAction::SetState(LeavesProperties { distance: distance as u8, ..props })
            } else {
                TickAction::Keep
            }
        }
    }
}

/// `combined_distance` is the smallest of `MAX_DISTANCE` and every
/// contribution plus one.
pub proof fn lemma_combined_distance_is_capped_minimum(contributions: Seq<u8>)
    ensures
        1 <= combined_distance(contributions) <= MAX_DISTANCE,
        forall|i: int|
            0 <= i < contributions.len() ==> combined_distance(contributions) <= contributions[i]
                + 1,
        combined_distance(contributions) == MAX_DISTANCE || exists|i: int|
            0 <= i < contributions.len() && combined_distance(contributions) == contributions[i]
                + 1,
    decreases contributions.len(),
{
    if contributions.len() > 0 {
        let init = contributions.drop_last();
        let last_index = contributions.len() - 1;
        lemma_combined_distance_is_capped_minimum(init);
        assert forall|i: int| 0 <= i < contributions.len() implies combined_distance(contributions)
            <= contributions[i] + 1 by {
            if i < last_index {
                assert(init[i] == contributions[i]);
            }
        }
        if combined_distance(contributions) != MAX_DISTANCE {
            if combined_distance(contributions) == contributions[last_index] + 1 {
                assert(0 <= last_index < contributions.len());
            } else {
                let j = choose|j: int|
                    0 <= j < init.len() && combined_distance(init) == init[j] + 1;
                assert(init[j] == contributions[j]);
            }
        }
    }
}

/// A value that is at most `MAX_DISTANCE`, at most every contribution plus
/// one, and equal to one of them, is `combined_distance`.
pub proof fn lemma_capped_minimum_is_combined_distance(contributions: Seq<u8>, distance: int)
    requires
        distance <= MAX_DISTANCE,
        forall|i: int| 0 <= i < contributions.len() ==> distance <= contributions[i] + 1,
        distance == MAX_DISTANCE || exists|i: int|
            0 <= i < contributions.len() && distance == contributions[i] + 1,
    ensures
        distance == combined_distance(contributions),
{
    lemma_combined_distance_is_capped_minimum(contributions);
    if distance != MAX_DISTANCE {
        let i = choose|i: int| 0 <= i < contributions.len() && distance == contributions[i] + 1;
        assert(combined_distance(contributions) <= contributions[i] + 1);
    }
    if combined_distance(contributions) != MAX_DISTANCE {
        let i = choose|i: int|
            0 <= i < contributions.len() && combined_distance(contributions) == contributions[i]
                + 1;
        assert(distance <= contributions[i] + 1);
    }
}

/// Folds the neighbour contributions into a distance: `1 +` the minimum
/// contribution, capped at `MAX_DISTANCE`. Stops once the minimum possible
/// value (`1`) is reached.
pub fn combine_neighbor_distances(contributions: &[u8]) -> (distance: u8)
    ensures
        distance == combined_distance(contributions@),
        1 <= distance <= MAX_DISTANCE,
        forall|i: int| 0 <= i < contributions@.len() ==> distance <= contributions@[i] + 1,
        distance == MAX_DISTANCE || exists|i: int|
            0 <= i < contributions@.len() && distance == contributions@[i] + 1,
{
    let mut distance: u8 = MAX_DISTANCE;
    let mut i: usize = 0;
    assert(contributions@.take(contributions@.len() as int) =~= contributions@);
    while i < contributions.len()
        invariant_except_break
            i <= contributions.len(),
            contributions@.take(contributions@.len() as int) == contributions@,
            distance == combined_distance(contributions@.take(i as int)),
        ensures
            distance == combined_distance(contributions@),
        decreases contributions.len() - i,
    {
        let contribution = contributions[i];
        distance = distance.min(contribution.saturating_add(1));
        assert(contributions@.take(i + 1).drop_last() =~= contributions@.take(i as int));
        i = i + 1;
        if distance == 1 {
            proof {
                let prefix = contributions@.take(i as int);
                lemma_combined_distance_is_capped_minimum(prefix);
                let j = choose|j: int| 0 <= j < prefix.len() && 1 == prefix[j] + 1;
                assert(prefix[j] == contributions@[j]);
                lemma_capped_minimum_is_combined_distance(contributions@, 1);
            }
            break;
        }
    }
    proof {
        lemma_combined_distance_is_capped_minimum(contributions@);
    }
    distance
}

/// A log contributes `0`, another leaf contributes its own `distance`, and
/// anything else contributes `MAX_DISTANCE`.
pub fn get_distance_from_log(block: &BlockState) -> (contribution: u8)
    ensures
        contribution == spec_distance_from_log(*block),
        block.is_log ==> contribution == 0,
        !block.is_log ==> match block.leaves {
            Some(props) => contribution == props.distance,
            None => contribution == MAX_DISTANCE,
        },
{
    if block.is_log {
        0
    } else {
        match &block.leaves {
            Some(props) => props.distance,
            None => MAX_DISTANCE,
        }
    }
}

/// The leaf's distance given its neighbours (the six blocks around it):
/// `1 +` the smallest neighbour contribution, capped at `MAX_DISTANCE`.
pub fn calculate_distance(neighbors: &[BlockState]) -> (distance: u8)
    ensures
        distance == spec_calculate_distance(neighbors@),
        1 <= distance <= MAX_DISTANCE,
        forall|i: int| 0 <= i < neighbors@.len() && #[trigger] neighbors@[i].is_log ==> distance == 1,
        forall|i: int|
            0 <= i < neighbors@.len() && !neighbors@[i].is_log && #[trigger] neighbors@[i].leaves
                is Some ==> distance <= neighbors@[i].leaves->0.distance + 1,
        distance == MAX_DISTANCE || exists|i: int|
            0 <= i < neighbors@.len() && supports_at(neighbors@[i], distance as int),
{
    let mut contributions: Vec<u8> = Vec::new();
    let mut i: usize = 0;
    while i < neighbors.len()
        invariant
            i <= neighbors.len(),
            contributions@ =~= contributions_of(neighbors@.take(i as int)),
        decreases neighbors.len() - i,
    {
        let contribution = get_distance_from_log(&neighbors[i]);
        contributions.push(contribution);
        assert(neighbors@.take(i + 1).drop_last() =~= neighbors@.take(i as int));
        i = i + 1;
    }
    assert(neighbors@.take(neighbors@.len() as int) =~= neighbors@);
    proof {
        lemma_calculated_distance_is_nearest_support(neighbors@);
    }
    combine_neighbor_distances(contributions.as_slice())
}

impl LeavesBlock {
    /// Placement: player-placed leaves are `persistent`, waterlogged when they
    /// replace a water source, and their `distance` is computed from the
    /// surrounding blocks.
    pub fn on_place(&self, replacing_water_source: bool, neighbors: &[BlockState]) -> (state:
        LeavesProperties)
        ensures
            state == spec_on_place(replacing_water_source, neighbors@),
            state.persistent,
            state.waterlogged == replacing_water_source,
            state.distance == spec_calculate_distance(neighbors@),
            1 <= state.distance <= MAX_DISTANCE,
            (exists|i: int| 0 <= i < neighbors@.len() && #[trigger] neighbors@[i].is_log) ==> state.distance
                == 1,
    {
        LeavesProperties {
            distance: calculate_distance(neighbors),
            persistent: true,
            waterlogged: replacing_water_source,
        }
    }

    /// A neighbour changed: the state itself is returned unchanged, and a tick
    /// is scheduled to recompute the distance unless this update cannot change
    /// it (the neighbour is a log and the leaf is already at distance 1).
    pub fn get_state_for_neighbor_update(&self, state: LeavesProperties, neighbor: &BlockState) -> (update:
        NeighborUpdate)
        ensures
            update.state == state,
            update.schedule_tick == spec_needs_recompute(state, *neighbor),
            !update.schedule_tick <==> (state.distance == 1 && (neighbor.is_log || (
            neighbor.leaves matches Some(p) && p.distance == 0))),
    {
        let neighbor_distance = get_distance_from_log(neighbor).saturating_add(1);
        let schedule_tick = neighbor_distance != 1 || state.distance != neighbor_distance;
        proof {
            lemma_recompute_skipped_only_next_to_log(state, *neighbor);
        }
        NeighborUpdate { state, schedule_tick }
    }

    /// A scheduled tick: recompute the distance and either decay the leaf
    /// (non-persistent and out of range) or update its `distance`. The block at
    /// the position may have changed since the tick was scheduled; when it is
    /// no longer a leaf nothing is written.
    pub fn on_scheduled_tick(&self, current: &BlockState, neighbors: &[BlockState]) -> (action:
        TickAction)
        ensures
            action == spec_on_scheduled_tick(*current, neighbors@),
            current.leaves is None ==> action == TickAction::Keep,
            current.leaves matches Some(props) ==> {
                let distance = spec_calculate_distance(neighbors@);
                &&& (distance == MAX_DISTANCE && !props.persistent) ==> action == TickAction::Decay
                &&& (!(distance == MAX_DISTANCE && !props.persistent) && props.distance != distance)
                    ==> action == TickAction::SetState(
                    LeavesProperties {
                        distance: distance as u8,
                        persistent: props.persistent,
                        waterlogged: props.waterlogged,
                    },
                )
                &&& (!(distance == MAX_DISTANCE && !props.persistent) && props.distance == distance)
                    ==> action == TickAction::Keep
            },
    {
        match &current.leaves {
            None => TickAction::Keep,
            Some(props) => {
                let distance = calculate_distance(neighbors);
                if distance == MAX_DISTANCE && !props.persistent {
                    TickAction::Decay
                } else if props.distance != distance {
                    TickAction::SetState(
                        LeavesProperties {
                            distance,
                            persistent: props.persistent,
                            waterlogged: props.waterlogged,
                        },
                    )
                } else {
                    TickAction::Keep
                }
            }
        }
    }
}

/// The distance depends only on which contributions occur, not on their order
/// or on how often each occurs.
pub proof fn lemma_distance_ignores_neighbor_order(a: Seq<u8>, b: Seq<u8>)
    requires
        forall|x: u8| a.contains(x) <==> b.contains(x),
    ensures
        combined_distance(a) == combined_distance(b),
{
    let d = combined_distance(a);
    lemma_combined_distance_is_capped_minimum(a);
    assert forall|j: int| 0 <= j < b.len() implies d <= b[j] + 1 by {
        assert(b.contains(b[j]));
        let i = choose|i: int| 0 <= i < a.len() && a[i] == b[j];
    }
    if d != MAX_DISTANCE {
        let i = choose|i: int| 0 <= i < a.len() && d == a[i] + 1;
        assert(a.contains(a[i]));
        let j = choose|j: int| 0 <= j < b.len() && b[j] == a[i];
    }
    lemma_capped_minimum_is_combined_distance(b, d);
}

/// A leaf next to a log is at distance 1.
pub proof fn lemma_log_neighbor_gives_distance_one(neighbors: Seq<BlockState>, i: int)
    requires
        0 <= i < neighbors.len(),
        neighbors[i].is_log,
    ensures
        spec_calculate_distance(neighbors) == 1,
{
    let cs = contributions_of(neighbors);
    assert(cs[i] == 0);
    lemma_combined_distance_is_capped_minimum(cs);
    lemma_capped_minimum_is_combined_distance(cs, 1);
}

/// A leaf with no log within reach (every neighbour contributes at least
/// `MAX_DISTANCE - 1`, which holds when no neighbour is a log or a leaf) is at
/// `MAX_DISTANCE`.
pub proof fn lemma_unsupported_leaf_is_at_max_distance(neighbors: Seq<BlockState>)
    requires
        forall|i: int|
            0 <= i < neighbors.len() ==> spec_distance_from_log(#[trigger] neighbors[i]) + 1
                >= MAX_DISTANCE,
    ensures
        spec_calculate_distance(neighbors) == MAX_DISTANCE,
{
    let cs = contributions_of(neighbors);
    assert forall|i: int| 0 <= i < cs.len() implies MAX_DISTANCE <= cs[i] + 1 by {
        assert(cs[i] == spec_distance_from_log(neighbors[i]));
    }
    lemma_capped_minimum_is_combined_distance(cs, MAX_DISTANCE as int);
}

/// Persistent leaves never decay.
pub proof fn lemma_persistent_leaves_never_decay(current: BlockState, neighbors: Seq<BlockState>)
    requires
        current.leaves matches Some(props) && props.persistent,
    ensures
        spec_on_scheduled_tick(current, neighbors) != TickAction::Decay,
{
}

/// Leaves placed by a player never decay, whatever surrounds them later.
pub proof fn lemma_placed_leaves_never_decay(
    replacing_water_source: bool,
    place_neighbors: Seq<BlockState>,
    current: BlockState,
    tick_neighbors: Seq<BlockState>,
)
    requires
        current.leaves == Some(spec_on_place(replacing_water_source, place_neighbors)),
    ensures
        spec_on_scheduled_tick(current, tick_neighbors) != TickAction::Decay,
{
}

/// A tick never writes over a block that is no longer a leaf.
pub proof fn lemma_tick_leaves_non_leaves_alone(current: BlockState, neighbors: Seq<BlockState>)
    requires
        current.leaves is None,
    ensures
        spec_on_scheduled_tick(current, neighbors) == TickAction::Keep,
{
}

/// A leaf decays exactly when it is not persistent and the recomputed distance
/// is `MAX_DISTANCE`.
pub proof fn lemma_decay_condition(props: LeavesProperties, current: BlockState, neighbors: Seq<
    BlockState,
>)
    requires
        current.leaves == Some(props),
    ensures
        (spec_on_scheduled_tick(current, neighbors) == TickAction::Decay) <==> (!props.persistent
            && spec_calculate_distance(neighbors) == MAX_DISTANCE),
{
}

/// The state a tick writes differs from the old one in its distance only, and
/// that distance is the recomputed one.
pub proof fn lemma_tick_changes_only_distance(
    props: LeavesProperties,
    current: BlockState,
    neighbors: Seq<BlockState>,
    new_props: LeavesProperties,
)
    requires
        current.leaves == Some(props),
        spec_on_scheduled_tick(current, neighbors) == TickAction::SetState(new_props),
    ensures
        new_props.persistent == props.persistent,
        new_props.waterlogged == props.waterlogged,
        new_props.distance == spec_calculate_distance(neighbors),
        new_props.distance != props.distance,
{
    lemma_combined_distance_is_capped_minimum(contributions_of(neighbors));
}

/// After a tick has written its state, a second tick with the same
/// neighbourhood changes nothing.
pub proof fn lemma_tick_is_stable(
    current: BlockState,
    neighbors: Seq<BlockState>,
    new_props: LeavesProperties,
    updated: BlockState,
)
    requires
        spec_on_scheduled_tick(current, neighbors) == TickAction::SetState(new_props),
        updated.leaves == Some(new_props),
    ensures
        spec_on_scheduled_tick(updated, neighbors) == TickAction::Keep,
{
    lemma_combined_distance_is_capped_minimum(contributions_of(neighbors));
}

/// A neighbour update skips the recompute only when the neighbour is a log (or
/// a leaf at distance 0) and the leaf is already at distance 1, the one case
/// in which the update cannot change the distance.
pub proof fn lemma_recompute_skipped_only_next_to_log(state: LeavesProperties, neighbor: BlockState)
    ensures
        !spec_needs_recompute(state, neighbor) <==> (state.distance == 1 && (neighbor.is_log || (
        neighbor.leaves matches Some(p) && p.distance == 0))),
{
}

/// The distance of a leaf is that of its nearest support: 1 next to a log, at
/// most one more than any neighbouring leaf (persistent or not, waterlogged or
/// not), at most `MAX_DISTANCE`, and either `MAX_DISTANCE` or reached through
/// one neighbour.
pub proof fn lemma_calculated_distance_is_nearest_support(neighbors: Seq<BlockState>)
    ensures
        1 <= spec_calculate_distance(neighbors) <= MAX_DISTANCE,
        forall|i: int|
            0 <= i < neighbors.len() && #[trigger] neighbors[i].is_log ==> spec_calculate_distance(
                neighbors,
            ) == 1,
        forall|i: int|
            0 <= i < neighbors.len() && !neighbors[i].is_log && #[trigger] neighbors[i].leaves is Some
                ==> spec_calculate_distance(neighbors) <= neighbors[i].leaves->0.distance + 1,
        spec_calculate_distance(neighbors) == MAX_DISTANCE || exists|i: int|
            0 <= i < neighbors.len() && supports_at(neighbors[i], spec_calculate_distance(neighbors)),
{
    let cs = contributions_of(neighbors);
    let d = spec_calculate_distance(neighbors);
    lemma_combined_distance_is_capped_minimum(cs);
    assert forall|i: int| 0 <= i < neighbors.len() && #[trigger] neighbors[i].is_log implies d
        == 1 by {
        assert(cs[i] == spec_distance_from_log(neighbors[i]));
    }
    assert forall|i: int|
        0 <= i < neighbors.len() && !neighbors[i].is_log && #[trigger] neighbors[i].leaves is Some
        implies d <= neighbors[i].leaves->0.distance + 1 by {
        assert(cs[i] == spec_distance_from_log(neighbors[i]));
    }
    if d != MAX_DISTANCE {
        let j = choose|j: int| 0 <= j < cs.len() && d == cs[j] + 1;
        assert(cs[j] == spec_distance_from_log(neighbors[j]));
        assert(supports_at(neighbors[j], d));
    }
}

/// The flags of a neighbouring leaf (persistent, waterlogged) do not change the
/// distance: only its own distance counts.
pub proof fn lemma_leaf_flags_do_not_affect_distance(
    neighbors: Seq<BlockState>,
    i: int,
    replacement: BlockState,
)
    requires
        0 <= i < neighbors.len(),
        replacement.is_log == neighbors[i].is_log,
        neighbors[i].leaves is Some,
        replacement.leaves is Some,
        replacement.leaves->0.distance == neighbors[i].leaves->0.distance,
    ensures
        spec_calculate_distance(neighbors.update(i, replacement)) == spec_calculate_distance(
            neighbors,
        ),
{
    assert(contributions_of(neighbors.update(i, replacement)) =~= contributions_of(neighbors));
}

/// A neighbour that is neither a log nor a leaf does not change the distance.
pub proof fn lemma_unrelated_neighbor_does_not_affect_distance(
    neighbors: Seq<BlockState>,
    block: BlockState,
)
    requires
        !block.is_log,
        block.leaves is None,
    ensures
        spec_calculate_distance(neighbors.push(block)) == spec_calculate_distance(neighbors),
{
    let cs = contributions_of(neighbors);
    let pushed = contributions_of(neighbors.push(block));
    assert(pushed.drop_last() =~= cs);
    assert(pushed.last() == MAX_DISTANCE);
    lemma_combined_distance_is_capped_minimum(cs);
}

/// A placed leaf is persistent, waterlogged exactly when it replaced a water
/// source, whatever surrounds it, and its distance is computed from all of its
/// neighbours; next to a log it is 1.
pub proof fn lemma_placed_leaf(replacing_water_source: bool, neighbors: Seq<BlockState>)
    ensures
        spec_on_place(replacing_water_source, neighbors).persistent,
        spec_on_place(replacing_water_source, neighbors).waterlogged == replacing_water_source,
        spec_on_place(replacing_water_source, neighbors).distance == spec_calculate_distance(
            neighbors,
        ),
        (exists|i: int| 0 <= i < neighbors.len() && #[trigger] neighbors[i].is_log) ==> spec_on_place(
            replacing_water_source,
            neighbors,
        ).distance == 1,
{
    lemma_calculated_distance_is_nearest_support(neighbors);
}

/// A tick on a leaf decays it when it is not persistent and out of reach;
/// otherwise it writes the recomputed distance whenever that differs from the
/// stored one (in either direction, persistent or not), keeping the other
/// properties, and leaves the block alone when it does not.
pub proof fn lemma_tick_outcome(props: LeavesProperties, current: BlockState, neighbors: Seq<
    BlockState,
>)
    requires
        current.leaves == Some(props),
    ensures
        ({
            let distance = spec_calculate_distance(neighbors);
            let decays = distance == MAX_DISTANCE && !props.persistent;
            &&& decays ==> spec_on_scheduled_tick(current, neighbors) == TickAction::Decay
            &&& !decays && props.distance != distance ==> spec_on_scheduled_tick(current, neighbors)
                == TickAction::SetState(
                LeavesProperties {
                    distance: distance as u8,
                    persistent: props.persistent,
                    waterlogged: props.waterlogged,
                },
            )
            &&& !decays && props.distance == distance ==> spec_on_scheduled_tick(current, neighbors)
                == TickAction::Keep
        }),
{
}

} // verus!
