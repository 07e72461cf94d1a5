//! Build placement snapping, the build event pipeline, production timers,
//! and the small state machines around them.

use railtown::items::{Inventory, Item};
use railtown::placement::{
    confirm_placement, find_nearest_build_location, find_nearest_within, on_build,
    produce_resources, BuildCandidate, BuildEvent, BuildLocation, Building, BuildingType,
    ProductionTimer, ResourceProduction, Vec2i, FARM_PRODUCTION_INTERVAL_MS,
    MAX_CONSTRUCTION_SNAPPING,
};
use railtown::train::{
    advance_allowed, arrive_at_stop, start_advancing, train_phase, TrainState, TrainStats,
    ARRIVING_DISTANCE, CAR_SIZE,
};
use railtown::ui::{toggle_build_menu, InMenu};
use railtown::world::{generate_world, CurrentStop, NumberedStop, Stop};

fn candidate(entity: u64, parent: u64, x: i64, y: i64) -> BuildCandidate {
    BuildCandidate {
        location_entity: entity,
        parent,
        offset: Vec2i { x: 0, y: 0 },
        world_pos: Vec2i { x, y },
    }
}

#[test]
fn nearest_candidate_within_the_snap_radius_wins() {
    let cursor = Vec2i { x: 0, y: 0 };
    // squared distances 900 and 100
    let candidates = vec![candidate(1, 10, 30, 0), candidate(2, 20, 10, 0)];
    assert_eq!(find_nearest_build_location(cursor, &candidates), Some(1));
}

#[test]
fn snapping_returns_none_beyond_the_radius() {
    let cursor = Vec2i { x: 0, y: 0 };
    // squared distance 41^2 = 1681 > 1600
    let candidates = vec![candidate(1, 10, 41, 0)];
    assert_eq!(find_nearest_build_location(cursor, &candidates), None);
    // exactly on the radius: 40^2 = 1600 is still eligible
    let on_edge = vec![candidate(1, 10, 40, 0)];
    assert_eq!(find_nearest_build_location(cursor, &on_edge), Some(0));
}

#[test]
fn snapping_at_squared_distances_100_and_900_prefers_the_nearer() {
    let cursor = Vec2i { x: 0, y: 0 };
    let candidates = vec![candidate(1, 10, 0, 10), candidate(2, 20, 0, 30)];
    // snap radius 40 -> squared 1600: the nearer one (100) is chosen
    assert_eq!(find_nearest_within(cursor, &candidates, 1600), Some(0));
    // squared snap limit 64: neither 100 nor 900 qualifies
    assert_eq!(find_nearest_within(cursor, &candidates, 64), None);
}

#[test]
fn snapping_is_deterministic_and_ties_go_to_the_first() {
    let cursor = Vec2i { x: 0, y: 0 };
    let candidates = vec![
        candidate(1, 10, 0, 20),
        candidate(2, 20, 20, 0),
        candidate(3, 30, 0, -20),
    ];
    let first = find_nearest_build_location(cursor, &candidates);
    for _ in 0..10 {
        assert_eq!(find_nearest_build_location(cursor, &candidates), first);
    }
    assert_eq!(first, Some(0), "equal distances break toward the first candidate");
}

#[test]
fn confirmed_placement_names_the_candidate_parent_and_offset() {
    let cursor = Vec2i { x: 5, y: 5 };
    let mut near = candidate(7, 77, 5, 8);
    near.offset = Vec2i { x: -30, y: 0 };
    let candidates = vec![candidate(4, 44, 500, 500), near];
    let (index, event) = confirm_placement(cursor, &candidates, BuildingType::Farm)
        .expect("a candidate lies within the snap radius");
    assert_eq!(index, 1);
    assert_eq!(
        event,
        BuildEvent {
            child_of: 77,
            offset: Vec2i { x: -30, y: 0 },
            building_type: BuildingType::Farm,
        }
    );
    // far from everything: the confirm is a no-op
    let lonely = vec![candidate(4, 44, 500, 500)];
    assert!(confirm_placement(cursor, &lonely, BuildingType::Farm).is_none());
}

#[test]
fn build_events_with_a_dead_parent_are_dropped() {
    let event = BuildEvent {
        child_of: 3,
        offset: Vec2i { x: 0, y: 40 },
        building_type: BuildingType::Housing,
    };
    assert!(on_build(&event, false).is_none());
    assert!(on_build(&event, true).is_some());
}

#[test]
fn spawned_buildings_carry_their_kind_specific_parts() {
    let offset = Vec2i { x: 30, y: 0 };
    let housing = on_build(
        &BuildEvent { child_of: 9, offset, building_type: BuildingType::Housing },
        true,
    )
    .unwrap();
    assert_eq!(housing.building, Building(BuildingType::Housing));
    assert_eq!(housing.build_locations, vec![BuildLocation(Vec2i { x: 0, y: 40 })]);
    assert!(housing.production.is_none());
    assert!(housing.inventory.is_none());

    let farm = on_build(
        &BuildEvent { child_of: 9, offset, building_type: BuildingType::Farm },
        true,
    )
    .unwrap();
    assert!(farm.build_locations.is_empty());
    assert_eq!(
        farm.production,
        Some(ResourceProduction(
            ProductionTimer { elapsed_ms: 0, interval_ms: FARM_PRODUCTION_INTERVAL_MS },
            Item::Food,
        ))
    );
    assert!(farm.inventory.is_none());

    let storage = on_build(
        &BuildEvent { child_of: 9, offset, building_type: BuildingType::Storage },
        true,
    )
    .unwrap();
    assert_eq!(storage.build_locations, vec![BuildLocation(Vec2i { x: 0, y: 40 })]);
    assert!(storage.production.is_none());
    let inventory = storage.inventory.expect("storage buildings start with an inventory");
    assert_eq!(inventory.get(Item::Food), 0);
    assert_eq!(inventory.get(Item::Money), 0);
}

#[test]
fn blueprint_listing_and_names() {
    let kinds = BuildingType::iterator();
    assert_eq!(kinds.len(), 3);
    assert_eq!(kinds[0].name(), "Housing");
    assert_eq!(kinds[1].name(), "Farm");
    assert_eq!(kinds[2].name(), "Storage");
}

#[test]
fn production_credits_the_first_inventory_on_each_elapse() {
    let farm = |elapsed| {
        ResourceProduction(
            ProductionTimer { elapsed_ms: elapsed, interval_ms: FARM_PRODUCTION_INTERVAL_MS },
            Item::Food,
        )
    };
    let mut producers = vec![farm(0), farm(1900)];
    let mut inventories = vec![Inventory::new(), Inventory::new()];
    // 100 ms: only the farm at 1900 ms elapses
    produce_resources(&mut producers, &mut inventories, 100);
    assert_eq!(inventories[0].get(Item::Food), 1);
    assert_eq!(inventories[1].get(Item::Food), 0);
    assert_eq!(producers[0].0.elapsed_ms, 100);
    assert_eq!(producers[1].0.elapsed_ms, 0);
    // a full interval later both elapse, still into the first inventory
    produce_resources(&mut producers, &mut inventories, 2000);
    assert_eq!(inventories[0].get(Item::Food), 3);
    assert_eq!(inventories[1].get(Item::Food), 0);
}

#[test]
fn production_with_no_inventory_drops_the_yield() {
    let mut producers = vec![ResourceProduction(
        ProductionTimer { elapsed_ms: 1999, interval_ms: 2000 },
        Item::Food,
    )];
    let mut inventories: Vec<Inventory> = Vec::new();
    produce_resources(&mut producers, &mut inventories, 1);
    assert!(inventories.is_empty());
    assert_eq!(producers[0].0.elapsed_ms, 0);
}

#[test]
fn production_timer_wraps_like_a_repeating_timer() {
    let mut timer = ProductionTimer { elapsed_ms: 0, interval_ms: 2000 };
    assert!(!timer.tick(1999));
    assert_eq!(timer.elapsed_ms, 1999);
    assert!(timer.tick(1));
    assert_eq!(timer.elapsed_ms, 0);
    assert!(timer.tick(4100));
    assert_eq!(timer.elapsed_ms, 100);
}

#[test]
fn build_button_toggles_the_build_menu() {
    assert_eq!(toggle_build_menu(&InMenu::NoMenu), InMenu::BuildMenu);
    assert_eq!(toggle_build_menu(&InMenu::BuildMenu), InMenu::NoMenu);
}

#[test]
fn train_phase_thresholds() {
    assert_eq!(train_phase(0), TrainState::Stopped);
    assert_eq!(train_phase(1), TrainState::Arriving);
    assert_eq!(train_phase(ARRIVING_DISTANCE - 1), TrainState::Arriving);
    assert_eq!(train_phase(ARRIVING_DISTANCE), TrainState::Advancing);
    assert_eq!(train_phase(10_000), TrainState::Advancing);
}

#[test]
fn advance_waits_for_every_blocker_to_hide() {
    assert!(advance_allowed(&Vec::new()));
    assert!(advance_allowed(&vec![false, false]));
    assert!(!advance_allowed(&vec![false, true, false]));
}

#[test]
fn train_size_scales_with_length() {
    let stats = TrainStats { length: 2, acceleration: 1, max_velocity: 27 };
    assert_eq!(stats.train_size(), 2 * CAR_SIZE);
}

#[test]
fn arrival_records_the_stop_and_advancing_clears_it() {
    let (_world, mut current, next) = generate_world(460);
    let ev = arrive_at_stop(&mut current, &next);
    assert_eq!(ev.name, next.name);
    match &current.0 {
        Some(NumberedStop(stop, number)) => {
            assert_eq!(*number, next.stop.1);
            assert_eq!(
                matches!(stop, Stop::GoblinAttack { .. }),
                matches!(next.stop.0, Stop::GoblinAttack { .. })
            );
        }
        None => panic!("arrival must set the current stop"),
    }
    let state = start_advancing(&mut current);
    assert_eq!(state, TrainState::Advancing);
    assert!(current.0.is_none());
}

#[test]
fn snap_radius_constant_matches_the_design() {
    assert_eq!(MAX_CONSTRUCTION_SNAPPING, 40);
    assert_eq!(
        (MAX_CONSTRUCTION_SNAPPING * MAX_CONSTRUCTION_SNAPPING) as i64,
        1600
    );
}
