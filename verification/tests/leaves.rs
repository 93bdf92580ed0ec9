use pumpkin::leaves::{
    calculate_distance, combine_neighbor_distances, get_distance_from_log, BlockState,
    LeavesBlock, LeavesProperties, NeighborUpdate, TickAction, MAX_DISTANCE,
};

fn leaf_state_with_distance(distance: u8) -> BlockState {
    BlockState {
        is_log: false,
        leaves: Some(LeavesProperties { distance, persistent: false, waterlogged: false }),
    }
}

fn oak_log() -> BlockState {
    BlockState { is_log: true, leaves: None }
}

fn stone() -> BlockState {
    BlockState { is_log: false, leaves: None }
}

#[test]
fn log_contributes_zero() {
    assert_eq!(get_distance_from_log(&oak_log()), 0);
}

#[test]
fn non_log_non_leaf_contributes_max() {
    assert_eq!(get_distance_from_log(&stone()), MAX_DISTANCE);
}

#[test]
fn leaf_contributes_its_own_distance() {
    let state = leaf_state_with_distance(3);
    assert_eq!(get_distance_from_log(&state), 3);
}

#[test]
fn adjacent_to_log_is_distance_one() {
    // One neighbor is a log (contribution 0), the rest are unrelated (7).
    assert_eq!(
        combine_neighbor_distances(&[0, MAX_DISTANCE, MAX_DISTANCE, MAX_DISTANCE]),
        1
    );
}

#[test]
fn chained_leaves_increase_distance() {
    // Nearest leaf neighbor has distance 1, so this leaf is 2.
    assert_eq!(
        combine_neighbor_distances(&[1, 4, MAX_DISTANCE, MAX_DISTANCE]),
        2
    );
}

#[test]
fn isolated_leaf_caps_at_max() {
    // No log or leaf nearby: every neighbor contributes MAX_DISTANCE.
    assert_eq!(combine_neighbor_distances(&[MAX_DISTANCE; 6]), MAX_DISTANCE);
}

#[test]
fn no_neighbors_is_max_distance() {
    assert_eq!(combine_neighbor_distances(&[]), MAX_DISTANCE);
}

#[test]
fn large_contribution_saturates_and_caps() {
    assert_eq!(combine_neighbor_distances(&[255, 254, 6]), MAX_DISTANCE);
    assert_eq!(combine_neighbor_distances(&[255, 5]), 6);
}

#[test]
fn log_after_other_neighbors_still_gives_one() {
    assert_eq!(combine_neighbor_distances(&[6, 3, 0, 2]), 1);
}

#[test]
fn distance_ignores_neighbor_order() {
    assert_eq!(
        combine_neighbor_distances(&[5, 2, 7, 3]),
        combine_neighbor_distances(&[7, 3, 2, 5])
    );
    assert_eq!(combine_neighbor_distances(&[5, 2, 7, 3]), 3);
}

#[test]
fn calculate_distance_from_neighbors() {
    let neighbors = [
        stone(),
        leaf_state_with_distance(4),
        stone(),
        leaf_state_with_distance(2),
        stone(),
        stone(),
    ];
    assert_eq!(calculate_distance(&neighbors), 3);
    let with_log = [stone(), stone(), stone(), stone(), stone(), oak_log()];
    assert_eq!(calculate_distance(&with_log), 1);
    assert_eq!(calculate_distance(&[stone(); 6]), MAX_DISTANCE);
}

#[test]
fn placed_leaves_are_persistent() {
    let neighbors = [stone(), stone(), leaf_state_with_distance(1), stone(), stone(), stone()];
    assert_eq!(
        LeavesBlock.on_place(true, &neighbors),
        LeavesProperties { distance: 2, persistent: true, waterlogged: true }
    );
    assert_eq!(
        LeavesBlock.on_place(false, &[stone(); 6]),
        LeavesProperties { distance: MAX_DISTANCE, persistent: true, waterlogged: false }
    );
}

#[test]
fn neighbor_update_keeps_state_and_schedules() {
    let state = LeavesProperties { distance: 1, persistent: false, waterlogged: false };
    // A log next to a leaf already at distance 1: nothing can change.
    assert_eq!(
        LeavesBlock.get_state_for_neighbor_update(state, &oak_log()),
        NeighborUpdate { state, schedule_tick: false }
    );
    // Any other neighbour schedules a recompute.
    assert_eq!(
        LeavesBlock.get_state_for_neighbor_update(state, &stone()),
        NeighborUpdate { state, schedule_tick: true }
    );
    let far = LeavesProperties { distance: 5, persistent: true, waterlogged: true };
    assert_eq!(
        LeavesBlock.get_state_for_neighbor_update(far, &oak_log()),
        NeighborUpdate { state: far, schedule_tick: true }
    );
    let saturated = leaf_state_with_distance(255);
    assert_eq!(
        LeavesBlock.get_state_for_neighbor_update(far, &saturated),
        NeighborUpdate { state: far, schedule_tick: true }
    );
}

#[test]
fn tick_decays_unsupported_leaf() {
    let current = leaf_state_with_distance(3);
    assert_eq!(LeavesBlock.on_scheduled_tick(&current, &[stone(); 6]), TickAction::Decay);
}

#[test]
fn tick_never_decays_persistent_leaf() {
    let current = BlockState {
        is_log: false,
        leaves: Some(LeavesProperties { distance: 3, persistent: true, waterlogged: true }),
    };
    assert_eq!(
        LeavesBlock.on_scheduled_tick(&current, &[stone(); 6]),
        TickAction::SetState(LeavesProperties {
            distance: MAX_DISTANCE,
            persistent: true,
            waterlogged: true
        })
    );
}

#[test]
fn tick_updates_distance_then_is_stable() {
    let current = leaf_state_with_distance(6);
    let neighbors = [stone(), oak_log(), stone(), stone(), stone(), stone()];
    let action = LeavesBlock.on_scheduled_tick(&current, &neighbors);
    let expected = LeavesProperties { distance: 1, persistent: false, waterlogged: false };
    assert_eq!(action, TickAction::SetState(expected));
    let updated = BlockState { is_log: false, leaves: Some(expected) };
    assert_eq!(LeavesBlock.on_scheduled_tick(&updated, &neighbors), TickAction::Keep);
}

#[test]
fn tick_leaves_non_leaf_alone() {
    let neighbors = [stone(); 6];
    assert_eq!(LeavesBlock.on_scheduled_tick(&stone(), &neighbors), TickAction::Keep);
    assert_eq!(LeavesBlock.on_scheduled_tick(&oak_log(), &neighbors), TickAction::Keep);
}
