use pumpkin::frog::{
    variant_from_name, variant_name, is_tempt_item, Feeding, FrogEntity, FrogGoal, GoalEntry,
    TrackedDataInit, VARIANT_COLD, VARIANT_TEMPERATE, VARIANT_WARM,
};

const FOOD_ITEM: u16 = 1005;

#[test]
fn new_frog_is_temperate() {
    assert_eq!(FrogEntity::new().variant, VARIANT_TEMPERATE);
}

#[test]
fn names_map_to_variants() {
    assert_eq!(variant_from_name("minecraft:cold"), VARIANT_COLD);
    assert_eq!(variant_from_name("cold"), VARIANT_COLD);
    assert_eq!(variant_from_name("minecraft:warm"), VARIANT_WARM);
    assert_eq!(variant_from_name("warm"), VARIANT_WARM);
    assert_eq!(variant_from_name("minecraft:temperate"), VARIANT_TEMPERATE);
    assert_eq!(variant_from_name("temperate"), VARIANT_TEMPERATE);
    assert_eq!(variant_from_name("Cold"), VARIANT_TEMPERATE);
    assert_eq!(variant_from_name(""), VARIANT_TEMPERATE);
    assert_eq!(variant_from_name("colder"), VARIANT_TEMPERATE);
}

#[test]
fn variants_map_to_names() {
    assert_eq!(variant_name(0), "minecraft:cold");
    assert_eq!(variant_name(1), "minecraft:temperate");
    assert_eq!(variant_name(2), "minecraft:warm");
    assert_eq!(variant_name(9), "minecraft:temperate");
}

#[test]
fn saved_variant_loads_back() {
    for variant in 0..=255u8 {
        let mut frog = FrogEntity { variant };
        let saved = frog.write_nbt();
        frog.read_nbt_non_mut(Some(saved));
        let expected = if variant == 0 || variant == 2 { variant } else { 1 };
        assert_eq!(frog.variant, expected);
    }
}

#[test]
fn missing_nbt_variant_keeps_frog() {
    let mut frog = FrogEntity { variant: VARIANT_WARM };
    frog.read_nbt_non_mut(None);
    assert_eq!(frog.variant, VARIANT_WARM);
    frog.read_nbt_non_mut(Some("cold"));
    assert_eq!(frog.variant, VARIANT_COLD);
}

#[test]
fn set_variant_name_changes_variant() {
    let mut frog = FrogEntity::new();
    frog.mob_set_variant_name("warm");
    assert_eq!(frog.variant, VARIANT_WARM);
    assert_eq!(frog.write_nbt(), "minecraft:warm");
    frog.mob_set_variant_name("minecraft:cold");
    assert_eq!(frog.variant, VARIANT_COLD);
    frog.mob_set_variant_name("something else");
    assert_eq!(frog.variant, VARIANT_TEMPERATE);
}

#[test]
fn feeding_needs_food_readiness_and_no_love() {
    let frog = FrogEntity::new();
    let tempt = [FOOD_ITEM];
    assert_eq!(
        frog.mob_interact(FOOD_ITEM, &tempt, true, false),
        Some(Feeding { items_consumed: 1, love_ticks: 600 })
    );
    assert_eq!(frog.mob_interact(FOOD_ITEM + 1, &tempt, true, false), None);
    assert_eq!(frog.mob_interact(FOOD_ITEM, &tempt, false, false), None);
    assert_eq!(frog.mob_interact(FOOD_ITEM, &tempt, true, true), None);
    assert_eq!(frog.mob_interact(FOOD_ITEM, &[], true, false), None);
}

#[test]
fn tempt_item_membership() {
    assert!(is_tempt_item(3, &[1, 2, 3]));
    assert!(!is_tempt_item(4, &[1, 2, 3]));
    assert!(!is_tempt_item(4, &[]));
}

#[test]
fn data_tracker_sends_baby_and_variant() {
    let frog = FrogEntity { variant: VARIANT_WARM };
    assert_eq!(frog.mob_init_data_tracker(-1), TrackedDataInit { send_baby: true, variant: 2 });
    assert_eq!(frog.mob_init_data_tracker(0), TrackedDataInit { send_baby: false, variant: 2 });
    assert_eq!(frog.mob_init_data_tracker(25), TrackedDataInit { send_baby: false, variant: 2 });
}

#[test]
fn frog_goals_in_priority_order() {
    let goals = FrogEntity::goals();
    let expected = vec![
        GoalEntry { priority: 0, goal: FrogGoal::Swim },
        GoalEntry { priority: 1, goal: FrogGoal::Breed },
        GoalEntry { priority: 2, goal: FrogGoal::Tempt },
        GoalEntry { priority: 3, goal: FrogGoal::FollowParent },
        GoalEntry { priority: 4, goal: FrogGoal::WanderAround },
        GoalEntry { priority: 5, goal: FrogGoal::LookAtPlayer },
        GoalEntry { priority: 6, goal: FrogGoal::RandomLookAround },
    ];
    assert_eq!(goals, expected);
}
