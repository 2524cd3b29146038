//! Event dispatch: resolving the player a row event affects and planning
//! the pipeline evaluation for that player.
//!
//! The feed delivers row events on its own thread; the callbacks around this
//! library only resolve the affected player and enqueue one evaluation, they
//! never block on remote calls.  The resolution rules live here:
//!
//! * player insert/update: the affected player is the row itself;
//! * entity update: a no-op when the mass did not change, otherwise the
//!   owner of the circle wrapping the entity, if both rows are present;
//! * circle insert/delete: the circle's owner, skipped when the player row
//!   has not arrived yet (a later event will retry the evaluation).

use vstd::prelude::*;
use crate::snapshot::CircleRow;
use crate::snapshot::EntityRow;
use crate::snapshot::Snapshot;
use crate::snapshot::calculate_player_total_mass;
use crate::snapshot::spec_player_index;
use crate::snapshot::spec_total_mass;
use crate::tiers::SkinType;
use crate::tiers::evaluate;
use crate::tiers::spec_evaluate;

verus! {

/// The owner of the circle that wraps `entity_id`, when both are known.
pub open spec fn spec_entity_owner(s: Snapshot, entity_id: u32) -> Option<u32> {
    if exists|i: int|
        0 <= i < s.circles_seq().len() && s.circles_seq()[i].entity_id == entity_id {
        Some(
            s.circles_seq()[choose|i: int|
                0 <= i < s.circles_seq().len() && s.circles_seq()[i].entity_id == entity_id].player_id,
        )
    } else {
        None
    }
}

/// The player an entity update affects: none when the mass is unchanged or
/// when no circle references the entity or the owner's row is missing.
pub open spec fn spec_affected_player_for_entity_update(
    s: Snapshot,
    old_mass: u32,
    new_mass: u32,
    entity_id: u32,
) -> Option<int> {
    if old_mass == new_mass {
        None
    } else {
        match spec_entity_owner(s, entity_id) {
            Some(player_id) => spec_player_index(s, player_id),
            None => None,
        }
    }
}

/// Resolves the player affected by an entity update.  An update that leaves
/// the mass unchanged is an explicit no-op; an entity referenced by no
/// circle (a non-player object) is ignored; a missing owner row is skipped.
pub fn affected_player_for_entity_update(
    old_entity: &EntityRow,
    new_entity: &EntityRow,
    snapshot: &Snapshot,
) -> (r: Option<usize>)
    requires
        snapshot.wf(),
    ensures
        match r {
            Some(i) => spec_affected_player_for_entity_update(
                *snapshot,
                old_entity.mass,
                new_entity.mass,
                new_entity.entity_id,
            ) == Some(i as int),
            None => spec_affected_player_for_entity_update(
                *snapshot,
                old_entity.mass,
                new_entity.mass,
                new_entity.entity_id,
            ) is None,
        },
{
    if old_entity.mass == new_entity.mass {
        return None;
    }
    match snapshot.find_circle_by_entity(new_entity.entity_id) {
        Some(c) => {
            let circle = snapshot.circle_at(c);
            proof {
                let w = choose|i: int|
                    0 <= i < snapshot.circles_seq().len() && snapshot.circles_seq()[i].entity_id
                        == new_entity.entity_id;
                assert(w == c as int);
            }
            snapshot.find_player(circle.player_id)
        },
        None => None,
    }
}

/// Resolves the player a circle insert or delete affects: the row of the
/// circle's owner, or none when the feed has not delivered that row yet.
pub fn affected_player_for_circle_event(circle: &CircleRow, snapshot: &Snapshot) -> (r: Option<
    usize>)
    requires
        snapshot.wf(),
    ensures
        match r {
            Some(i) => spec_player_index(*snapshot, circle.player_id) == Some(i as int),
            None => spec_player_index(*snapshot, circle.player_id) is None,
        },
{
    snapshot.find_player(circle.player_id)
}

/// One pipeline evaluation planned for a player: the aggregated mass and
/// the single tier to attempt, if any.
pub struct GrantPlan {
    pub mass: u64,
    pub skin: Option<SkinType>,
}

/// Aggregates the player's total mass from the snapshot and picks the
/// highest tier that mass satisfies.  Only that tier is processed for the
/// event; lower tiers are superseded, not granted.
pub fn process_player_state_change(player_id: u32, snapshot: &Snapshot) -> (plan: GrantPlan)
    requires
        snapshot.wf(),
    ensures
        plan.mass == spec_total_mass(*snapshot, player_id),
        plan.skin == spec_evaluate(plan.mass),
{
    let mass = calculate_player_total_mass(player_id, snapshot);
    GrantPlan { mass, skin: evaluate(mass) }
}

/// The declarative row queries the bridge subscribes to: the whole player,
/// circle and entity tables.
pub fn subscribe_to_game_tables() -> (queries: Vec<&'static str>)
    ensures
        queries@.len() == 3,
        queries@[0]@ == "SELECT * FROM player"@,
        queries@[1]@ == "SELECT * FROM circle"@,
        queries@[2]@ == "SELECT * FROM entity"@,
{
    let mut queries: Vec<&'static str> = Vec::new();
    queries.push("SELECT * FROM player");
    queries.push("SELECT * FROM circle");
    queries.push("SELECT * FROM entity");
    queries
}

} // verus!
