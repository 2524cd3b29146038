use skinbridge::dispatch::affected_player_for_circle_event;
use skinbridge::dispatch::affected_player_for_entity_update;
use skinbridge::dispatch::process_player_state_change;
use skinbridge::dispatch::subscribe_to_game_tables;
use skinbridge::snapshot::calculate_player_total_mass;
use skinbridge::snapshot::CircleRow;
use skinbridge::snapshot::EntityRow;
use skinbridge::snapshot::PlayerRow;
use skinbridge::snapshot::Snapshot;
use skinbridge::tiers::evaluate;
use skinbridge::tiers::SkinType;

fn player(player_id: u32, aptos_address: &str) -> PlayerRow {
    PlayerRow {
        player_id,
        name: format!("player-{}", player_id),
        aptos_address: aptos_address.to_string(),
    }
}

fn two_circle_snapshot() -> Snapshot {
    Snapshot::new(
        vec![player(7, "0x5")],
        vec![
            EntityRow { entity_id: 1, mass: 30 },
            EntityRow { entity_id: 2, mass: 25 },
        ],
        vec![
            CircleRow { entity_id: 1, player_id: 7 },
            CircleRow { entity_id: 2, player_id: 7 },
        ],
    )
    .unwrap()
}

#[test]
fn total_mass_sums_owned_circles() {
    let snapshot = two_circle_snapshot();
    assert_eq!(calculate_player_total_mass(7, &snapshot), 55);
}

#[test]
fn total_mass_is_deterministic() {
    let snapshot = two_circle_snapshot();
    assert_eq!(
        calculate_player_total_mass(7, &snapshot),
        calculate_player_total_mass(7, &snapshot)
    );
}

#[test]
fn total_mass_zero_without_circles() {
    let snapshot = Snapshot::new(
        vec![player(7, "0x5")],
        vec![EntityRow { entity_id: 1, mass: 30 }],
        vec![],
    )
    .unwrap();
    assert_eq!(calculate_player_total_mass(7, &snapshot), 0);
}

#[test]
fn total_mass_ignores_other_players_circles() {
    let snapshot = two_circle_snapshot();
    assert_eq!(calculate_player_total_mass(8, &snapshot), 0);
}

#[test]
fn missing_entity_contributes_zero() {
    let snapshot = Snapshot::new(
        vec![player(7, "0x5")],
        vec![EntityRow { entity_id: 1, mass: 30 }],
        vec![
            CircleRow { entity_id: 1, player_id: 7 },
            CircleRow { entity_id: 99, player_id: 7 },
        ],
    )
    .unwrap();
    assert_eq!(calculate_player_total_mass(7, &snapshot), 30);
}

#[test]
fn snapshot_rejects_duplicate_player_ids() {
    let r = Snapshot::new(vec![player(7, "0x5"), player(7, "0x6")], vec![], vec![]);
    assert!(r.is_none());
}

#[test]
fn snapshot_rejects_duplicate_circle_ids() {
    let r = Snapshot::new(
        vec![player(7, "0x5")],
        vec![],
        vec![
            CircleRow { entity_id: 1, player_id: 7 },
            CircleRow { entity_id: 1, player_id: 8 },
        ],
    );
    assert!(r.is_none());
}

#[test]
fn evaluator_scenario_two_circles() {
    // Mass 55 meets the 50 threshold only: the 50 tier, not the 100 tier.
    let snapshot = two_circle_snapshot();
    let mass = calculate_player_total_mass(7, &snapshot);
    assert_eq!(mass, 55);
    assert_eq!(evaluate(mass), Some(SkinType::Pink));
}

#[test]
fn evaluator_thresholds_exact() {
    assert_eq!(evaluate(0), None);
    assert_eq!(evaluate(49), None);
    assert_eq!(evaluate(50), Some(SkinType::Pink));
    assert_eq!(evaluate(99), Some(SkinType::Pink));
    assert_eq!(evaluate(100), Some(SkinType::Rainbow));
    assert_eq!(evaluate(u64::MAX), Some(SkinType::Rainbow));
}

#[test]
fn plan_for_player_picks_highest_tier_only() {
    let snapshot = two_circle_snapshot();
    let plan = process_player_state_change(7, &snapshot);
    assert_eq!(plan.mass, 55);
    assert_eq!(plan.skin, Some(SkinType::Pink));

    let rich = Snapshot::new(
        vec![player(7, "0x5")],
        vec![EntityRow { entity_id: 1, mass: 250 }],
        vec![CircleRow { entity_id: 1, player_id: 7 }],
    )
    .unwrap();
    let plan = process_player_state_change(7, &rich);
    assert_eq!(plan.mass, 250);
    assert_eq!(plan.skin, Some(SkinType::Rainbow));
}

#[test]
fn entity_update_with_unchanged_mass_is_noop() {
    let snapshot = two_circle_snapshot();
    let old = EntityRow { entity_id: 1, mass: 30 };
    let new = EntityRow { entity_id: 1, mass: 30 };
    assert!(affected_player_for_entity_update(&old, &new, &snapshot).is_none());
}

#[test]
fn entity_update_resolves_owner() {
    let snapshot = two_circle_snapshot();
    let old = EntityRow { entity_id: 1, mass: 30 };
    let new = EntityRow { entity_id: 1, mass: 42 };
    let idx = affected_player_for_entity_update(&old, &new, &snapshot).unwrap();
    assert_eq!(snapshot.player_at(idx).player_id, 7);
}

#[test]
fn entity_update_without_circle_is_noop() {
    // An entity no circle references is a non-player object.
    let snapshot = Snapshot::new(
        vec![player(7, "0x5")],
        vec![EntityRow { entity_id: 1, mass: 30 }],
        vec![],
    )
    .unwrap();
    let old = EntityRow { entity_id: 1, mass: 30 };
    let new = EntityRow { entity_id: 1, mass: 42 };
    assert!(affected_player_for_entity_update(&old, &new, &snapshot).is_none());
}

#[test]
fn circle_event_resolves_owner() {
    let snapshot = two_circle_snapshot();
    let circle = CircleRow { entity_id: 1, player_id: 7 };
    let idx = affected_player_for_circle_event(&circle, &snapshot).unwrap();
    assert_eq!(snapshot.player_at(idx).player_id, 7);
}

#[test]
fn circle_event_with_missing_player_is_skipped() {
    // The feed has not delivered the owner's row yet.
    let snapshot = two_circle_snapshot();
    let circle = CircleRow { entity_id: 3, player_id: 12 };
    assert!(affected_player_for_circle_event(&circle, &snapshot).is_none());
}

#[test]
fn subscription_covers_the_three_tables() {
    let queries = subscribe_to_game_tables();
    assert_eq!(
        queries,
        vec![
            "SELECT * FROM player",
            "SELECT * FROM circle",
            "SELECT * FROM entity",
        ]
    );
}
