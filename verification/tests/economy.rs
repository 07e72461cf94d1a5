//! The contract economy: generation bounds, the reward formula, inventory
//! conservation, and ledger settlement.

use railtown::contracts::{generate_stop_offers, reward_amount, Contract};
use railtown::items::{Inventory, Item};
use railtown::ledger::{evaluate_contracts, settle_contract, ActiveContracts};
use railtown::world::{generate_world, CurrentStop, NumberedStop, Stop};

fn inventory_with(items: &[(Item, u64)]) -> Inventory {
    let mut inv = Inventory::new();
    for (item, amount) in items {
        inv.add(*item, *amount);
    }
    inv
}

#[test]
fn generated_contracts_meet_their_bounds() {
    let (mut world, _current, _next) = generate_world(460);
    for _ in 0..200 {
        let c = Contract::generate_random(&mut world, 10);
        assert!((15..100).contains(&c.required.1));
        assert!(c.reward.1 >= c.required.1 * 6 / 5, "reward below the 1.2x floor");
        assert!((12..=16).contains(&c.stop_number));
    }
}

#[test]
fn reward_formula_matches_known_values() {
    // floor(50 * sqrt(50 / 10)) = floor(50 * 2.236...) = 111
    assert_eq!(reward_amount(50), 111);
    // the tightest case of the 1.2x floor: floor(15 * sqrt(1.5)) = 18 = floor(15 * 1.2)
    assert_eq!(reward_amount(15), 18);
    assert_eq!(reward_amount(99), 311);
    assert_eq!(reward_amount(40), 80);
}

#[test]
fn offers_fill_every_booth_at_a_town_and_none_elsewhere() {
    let (mut world, _current, _next) = generate_world(460);
    let at_town = CurrentStop(Some(NumberedStop(Stop::Town, 10)));
    let offers = generate_stop_offers(&mut world, &at_town, 6);
    assert_eq!(offers.len(), 6);
    for c in &offers {
        assert!((12..=16).contains(&c.stop_number));
    }
    let at_ambush = CurrentStop(Some(NumberedStop(Stop::GoblinAttack { waves: vec![] }, 10)));
    assert!(generate_stop_offers(&mut world, &at_ambush, 6).is_empty());
    let nowhere = CurrentStop(None);
    assert!(generate_stop_offers(&mut world, &nowhere, 6).is_empty());
}

#[test]
fn add_other_conserves_every_item() {
    let mut into = inventory_with(&[(Item::Food, 90), (Item::Wood, 5)]);
    let mut from = inventory_with(&[(Item::Food, 40), (Item::Wood, 3), (Item::Clay, 7)]);
    into.add_other(&mut from, 100);
    // food: only 10 fit under the cap of 100
    assert_eq!(into.get(Item::Food), 100);
    assert_eq!(from.get(Item::Food), 30);
    // wood and clay fit whole
    assert_eq!(into.get(Item::Wood), 8);
    assert_eq!(from.get(Item::Wood), 0);
    assert_eq!(into.get(Item::Clay), 7);
    assert_eq!(from.get(Item::Clay), 0);
    // conservation, item by item
    assert_eq!(into.get(Item::Food) + from.get(Item::Food), 130);
    assert_eq!(into.get(Item::Wood) + from.get(Item::Wood), 8);
    assert_eq!(into.get(Item::Clay) + from.get(Item::Clay), 7);
}

#[test]
fn add_other_moves_nothing_into_a_full_stack() {
    let mut into = inventory_with(&[(Item::Metal, 64)]);
    let mut from = inventory_with(&[(Item::Metal, 20)]);
    into.add_other(&mut from, 64);
    assert_eq!(into.get(Item::Metal), 64);
    assert_eq!(from.get(Item::Metal), 20);
}

#[test]
fn underfunded_contract_fails_and_moves_nothing() {
    let mut inventories = vec![inventory_with(&[(Item::Food, 30)])];
    let contract = Contract {
        required: (Item::Food, 50),
        reward: (Item::Money, 111),
        stop_number: 12,
    };
    let mut ledger = ActiveContracts(vec![contract]);
    evaluate_contracts(&mut ledger, &mut inventories, 12);
    assert!(ledger.0.is_empty(), "an evaluated contract leaves the ledger even when it fails");
    assert_eq!(inventories[0].get(Item::Food), 30, "a failed contract moves nothing");
    assert_eq!(inventories[0].get(Item::Money), 0);
}

#[test]
fn funded_contract_deducts_greedily_and_rewards_the_first_inventory() {
    let mut inventories = vec![
        inventory_with(&[(Item::Food, 30)]),
        inventory_with(&[(Item::Food, 35)]),
    ];
    let contract = Contract {
        required: (Item::Food, 50),
        reward: (Item::Money, 111),
        stop_number: 12,
    };
    let mut ledger = ActiveContracts(vec![contract]);
    evaluate_contracts(&mut ledger, &mut inventories, 12);
    assert!(ledger.0.is_empty());
    // greedy left to right: the first inventory gives all 30, the second 20
    assert_eq!(inventories[0].get(Item::Food), 0);
    assert_eq!(inventories[1].get(Item::Food), 15);
    // the reward lands in the first inventory only
    assert_eq!(inventories[0].get(Item::Money), 111);
    assert_eq!(inventories[1].get(Item::Money), 0);
}

#[test]
fn exactly_funded_contract_succeeds() {
    let mut inventories = vec![inventory_with(&[(Item::Brick, 50)])];
    let contract = Contract {
        required: (Item::Brick, 50),
        reward: (Item::Glass, 60),
        stop_number: 3,
    };
    let fulfilled = settle_contract(&mut inventories, &contract);
    assert!(fulfilled);
    assert_eq!(inventories[0].get(Item::Brick), 0);
    assert_eq!(inventories[0].get(Item::Glass), 60);
}

#[test]
fn contract_with_matching_required_and_reward_item_nets_the_difference() {
    let mut inventories = vec![inventory_with(&[(Item::Food, 50)])];
    let contract = Contract {
        required: (Item::Food, 50),
        reward: (Item::Food, 111),
        stop_number: 5,
    };
    let fulfilled = settle_contract(&mut inventories, &contract);
    assert!(fulfilled);
    assert_eq!(inventories[0].get(Item::Food), 111);
}

#[test]
fn only_contracts_at_their_expiry_stop_are_evaluated() {
    let mut inventories = vec![inventory_with(&[(Item::Food, 200)])];
    let due = Contract { required: (Item::Food, 20), reward: (Item::Money, 40), stop_number: 8 };
    let early = Contract { required: (Item::Food, 20), reward: (Item::Money, 40), stop_number: 9 };
    let mut ledger = ActiveContracts(vec![due, early]);
    evaluate_contracts(&mut ledger, &mut inventories, 8);
    assert_eq!(ledger.0.len(), 1, "the undue contract stays signed");
    assert_eq!(ledger.0[0].stop_number, 9);
    assert_eq!(inventories[0].get(Item::Food), 180);
    assert_eq!(inventories[0].get(Item::Money), 40);
}

#[test]
fn evaluating_an_empty_ledger_twice_is_a_no_op_both_times() {
    let mut inventories = vec![inventory_with(&[(Item::Water, 17)])];
    let mut ledger = ActiveContracts(Vec::new());
    evaluate_contracts(&mut ledger, &mut inventories, 4);
    assert!(ledger.0.is_empty());
    assert_eq!(inventories[0].get(Item::Water), 17);
    evaluate_contracts(&mut ledger, &mut inventories, 4);
    assert!(ledger.0.is_empty());
    assert_eq!(inventories[0].get(Item::Water), 17);
}

#[test]
fn a_second_evaluation_at_the_same_stop_changes_nothing() {
    let mut inventories = vec![inventory_with(&[(Item::Food, 100)])];
    let due = Contract { required: (Item::Food, 20), reward: (Item::Money, 40), stop_number: 8 };
    let later = Contract { required: (Item::Food, 20), reward: (Item::Money, 40), stop_number: 11 };
    let mut ledger = ActiveContracts(vec![due, later]);
    evaluate_contracts(&mut ledger, &mut inventories, 8);
    let food = inventories[0].get(Item::Food);
    let money = inventories[0].get(Item::Money);
    let remaining = ledger.0.len();
    evaluate_contracts(&mut ledger, &mut inventories, 8);
    assert_eq!(inventories[0].get(Item::Food), food);
    assert_eq!(inventories[0].get(Item::Money), money);
    assert_eq!(ledger.0.len(), remaining);
}

#[test]
fn contracts_sharing_an_expiry_are_settled_in_signing_order() {
    // 70 food in stock; the first contract takes 60, starving the second.
    let mut inventories = vec![inventory_with(&[(Item::Food, 70)])];
    let first = Contract { required: (Item::Food, 60), reward: (Item::Money, 90), stop_number: 2 };
    let second = Contract { required: (Item::Food, 20), reward: (Item::Money, 30), stop_number: 2 };
    let mut ledger = ActiveContracts(vec![first, second]);
    evaluate_contracts(&mut ledger, &mut inventories, 2);
    assert!(ledger.0.is_empty());
    assert_eq!(inventories[0].get(Item::Food), 10);
    assert_eq!(inventories[0].get(Item::Money), 90, "only the first contract could be funded");
}

#[test]
fn settling_with_no_inventories_fails_for_any_positive_demand() {
    let mut inventories: Vec<Inventory> = Vec::new();
    let contract = Contract {
        required: (Item::Food, 15),
        reward: (Item::Money, 18),
        stop_number: 2,
    };
    let fulfilled = settle_contract(&mut inventories, &contract);
    assert!(!fulfilled);
    assert!(inventories.is_empty());
}
