//! The relational snapshot of game state and the mass aggregator.
//!
//! The change feed maintains three normalized tables: players, entities and
//! circles.  The bridge only reads them; every pipeline evaluation receives a
//! point-in-time copy as a [`Snapshot`].  A player's total mass is the sum of
//! the masses of the entities referenced by the circles that player owns.

use vstd::prelude::*;

verus! {

/// A player row.  The external-account address is whatever the game backend
/// stored for the player; it may be empty or not a valid ledger address.
pub struct PlayerRow {
    pub player_id: u32,
    pub name: String,
    pub aptos_address: String,
}

/// An entity row: any simulated game object carrying mass.
#[derive(Clone, Copy, PartialEq, Eq, Structural)]
pub struct EntityRow {
    pub entity_id: u32,
    pub mass: u32,
}

/// A circle row.  A circle is identified by the entity it wraps, and links
/// that entity to the player who owns it.
#[derive(Clone, Copy, PartialEq, Eq, Structural)]
pub struct CircleRow {
    pub entity_id: u32,
    pub player_id: u32,
}

/// Row identifiers are unique per table, and the circle table is small
/// enough that every identifier is a distinct `u32`.
pub open spec fn rows_consistent(
    players: Seq<PlayerRow>,
    entities: Seq<EntityRow>,
    circles: Seq<CircleRow>,
) -> bool {
    &&& forall|i: int, j: int|
        0 <= i < j < players.len() ==> players[i].player_id != players[j].player_id
    &&& forall|i: int, j: int|
        0 <= i < j < entities.len() ==> entities[i].entity_id != entities[j].entity_id
    &&& forall|i: int, j: int|
        0 <= i < j < circles.len() ==> circles[i].entity_id != circles[j].entity_id
    &&& circles.len() <= 0x1_0000_0000
}

/// A validated point-in-time copy of the three game tables.
pub struct Snapshot {
    players: Vec<PlayerRow>,
    entities: Vec<EntityRow>,
    circles: Vec<CircleRow>,
}

/// Index of the row for `player_id`, unique when [`rows_consistent`] holds.
pub open spec fn spec_player_index(s: Snapshot, player_id: u32) -> Option<int> {
    if exists|i: int| 0 <= i < s.players_seq().len() && s.players_seq()[i].player_id == player_id {
        Some(
            choose|i: int|
                0 <= i < s.players_seq().len() && s.players_seq()[i].player_id == player_id,
        )
    } else {
        None
    }
}

/// Mass of the entity identified by `entity_id`, or zero when no such row is
/// in the snapshot.  A circle referencing a missing entity is an expected
/// transient race between row arrival orders, not an error.
pub open spec fn spec_entity_mass(entities: Seq<EntityRow>, entity_id: u32) -> u32 {
    if exists|i: int| 0 <= i < entities.len() && entities[i].entity_id == entity_id {
        entities[choose|i: int|
            0 <= i < entities.len() && entities[i].entity_id == entity_id].mass
    } else {
        0
    }
}

/// Sum of the contributions of the first `n` circles: a circle owned by
/// `player_id` contributes the mass of its referenced entity, any other
/// circle contributes nothing.
pub open spec fn spec_mass_prefix(
    circles: Seq<CircleRow>,
    entities: Seq<EntityRow>,
    player_id: u32,
    n: int,
) -> int
    decreases n,
{
    if n <= 0 {
        0
    } else {
        spec_mass_prefix(circles, entities, player_id, n - 1) + if circles[n
            - 1].player_id == player_id {
            spec_entity_mass(entities, circles[n - 1].entity_id) as int
        } else {
            0
        }
    }
}

/// The total mass of `player_id` in snapshot `s`.
pub open spec fn spec_total_mass(s: Snapshot, player_id: u32) -> int {
    spec_mass_prefix(s.circles_seq(), s.entities_seq(), player_id, s.circles_seq().len() as int)
}

impl Snapshot {
    pub closed spec fn players_seq(self) -> Seq<PlayerRow> {
        self.players@
    }

    pub closed spec fn entities_seq(self) -> Seq<EntityRow> {
        self.entities@
    }

    pub closed spec fn circles_seq(self) -> Seq<CircleRow> {
        self.circles@
    }

    pub open spec fn wf(self) -> bool {
        rows_consistent(self.players_seq(), self.entities_seq(), self.circles_seq())
    }

    /// Builds a snapshot from raw rows, validating that each table keys its
    /// rows by a unique identifier.  Returns `None` when the rows could not
    /// have come from the feed's tables.
    pub fn new(players: Vec<PlayerRow>, entities: Vec<EntityRow>, circles: Vec<CircleRow>) -> (r:
        Option<Snapshot>)
        ensures
            r is Some <==> rows_consistent(players@, entities@, circles@),
            r matches Some(s) ==> s.wf() && s.players_seq() == players@ && s.entities_seq()
                == entities@ && s.circles_seq() == circles@,
    {
        let player_ids = collect_player_ids(&players);
        let entity_ids = collect_entity_ids(&entities);
        let circle_ids = collect_circle_ids(&circles);
        if !ids_distinct(&player_ids) {
            return None;
        }
        if !ids_distinct(&entity_ids) {
            return None;
        }
        if !ids_distinct(&circle_ids) {
            return None;
        }
        if circles.len() as u64 > 0x1_0000_0000u64 {
            return None;
        }
        proof {
            assert forall|i: int, j: int|
                0 <= i < j < players@.len() implies players@[i].player_id != players@[
                j].player_id by {
                assert(player_ids@[i] == players@[i].player_id);
                assert(player_ids@[j] == players@[j].player_id);
            }
            assert forall|i: int, j: int|
                0 <= i < j < entities@.len() implies entities@[i].entity_id != entities@[
                j].entity_id by {
                assert(entity_ids@[i] == entities@[i].entity_id);
                assert(entity_ids@[j] == entities@[j].entity_id);
            }
            assert forall|i: int, j: int|
                0 <= i < j < circles@.len() implies circles@[i].entity_id != circles@[
                j].entity_id by {
                assert(circle_ids@[i] == circles@[i].entity_id);
                assert(circle_ids@[j] == circles@[j].entity_id);
            }
        }
        Some(Snapshot { players, entities, circles })
    }

    pub fn player_at(&self, i: usize) -> (p: &PlayerRow)
        requires
            i < self.players_seq().len(),
        ensures
            *p == self.players_seq()[i as int],
    {
        &self.players[i]
    }

    /// Looks the player row up by its identifier.
    pub fn find_player(&self, player_id: u32) -> (r: Option<usize>)
        requires
            self.wf(),
        ensures
            match r {
                Some(i) => spec_player_index(*self, player_id) == Some(i as int),
                None => spec_player_index(*self, player_id) is None,
            },
    {
        let ghost players = self.players_seq();
        let mut i: usize = 0;
        while i < self.players.len()
            invariant
                i <= players.len(),
                players == self.players_seq(),
                self.wf(),
                forall|k: int| 0 <= k < i ==> players[k].player_id != player_id,
            decreases players.len() - i,
        {
            if self.players[i].player_id == player_id {
                proof {
                    let w = choose|k: int|
                        0 <= k < players.len() && players[k].player_id == player_id;
                    assert(players[i as int].player_id == player_id);
                    assert(w == i as int);
                }
                return Some(i);
            }
            i += 1;
        }
        None
    }

    /// Looks up the circle that wraps `entity_id`, if any.
    pub fn find_circle_by_entity(&self, entity_id: u32) -> (r: Option<usize>)
        requires
            self.wf(),
        ensures
            match r {
                Some(i) => 0 <= i < self.circles_seq().len() && self.circles_seq()[i
                    as int].entity_id == entity_id,
                None => forall|k: int|
                    0 <= k < self.circles_seq().len() ==> self.circles_seq()[k].entity_id
                        != entity_id,
            },
    {
        let ghost circles = self.circles_seq();
        let mut i: usize = 0;
        while i < self.circles.len()
            invariant
                i <= circles.len(),
                circles == self.circles_seq(),
                forall|k: int| 0 <= k < i ==> circles[k].entity_id != entity_id,
            decreases circles.len() - i,
        {
            if self.circles[i].entity_id == entity_id {
                return Some(i);
            }
            i += 1;
        }
        None
    }

    pub fn circle_at(&self, i: usize) -> (c: CircleRow)
        requires
            i < self.circles_seq().len(),
        ensures
            c == self.circles_seq()[i as int],
    {
        self.circles[i]
    }
}

/// Iterates the circles owned by `player_id_to_find`, looks each referenced
/// entity up by identifier, and sums the masses; a missing entity
/// contributes zero, and a player with no circles has total mass zero.  The
/// result is exactly [`spec_total_mass`], so aggregation is a deterministic
/// function of the snapshot alone.
pub fn calculate_player_total_mass(player_id_to_find: u32, snapshot: &Snapshot) -> (total_mass:
    u64)
    requires
        snapshot.wf(),
    ensures
        total_mass == spec_total_mass(*snapshot, player_id_to_find),
{
    let ghost circles = snapshot.circles_seq();
    let ghost entities = snapshot.entities_seq();
    let mut total: u64 = 0;
    let mut i: usize = 0;
    while i < snapshot.circles.len()
        invariant
            i <= circles.len(),
            circles == snapshot.circles_seq(),
            entities == snapshot.entities_seq(),
            snapshot.wf(),
            total == spec_mass_prefix(circles, entities, player_id_to_find, i as int),
            total <= (i as int) * 0xFFFF_FFFF,
        decreases circles.len() - i,
    {
        let c = snapshot.circles[i];
        if c.player_id == player_id_to_find {
            let m = entity_mass(&snapshot.entities, c.entity_id);
            assert(total + m <= (i as int + 1) * 0xFFFF_FFFF) by (nonlinear_arith)
                requires
                    total <= (i as int) * 0xFFFF_FFFF,
                    m <= 0xFFFF_FFFF,
            ;
            assert((i as int + 1) * 0xFFFF_FFFF <= 0x1_0000_0000 * 0xFFFF_FFFF)
                by (nonlinear_arith)
                requires
                    i as int + 1 <= 0x1_0000_0000,
            ;
            total = total + m as u64;
        }
        assert(total <= (i as int + 1) * 0xFFFF_FFFF) by (nonlinear_arith)
            requires
                total <= (i as int) * 0xFFFF_FFFF || total <= (i as int + 1) * 0xFFFF_FFFF,
        ;
        i += 1;
    }
    total
}

/// Mass of the entity with identifier `entity_id`, zero when absent.
fn entity_mass(entities: &Vec<EntityRow>, entity_id: u32) -> (m: u32)
    requires
        forall|i: int, j: int|
            0 <= i < j < entities@.len() ==> entities@[i].entity_id != entities@[j].entity_id,
    ensures
        m == spec_entity_mass(entities@, entity_id),
{
    let mut i: usize = 0;
    while i < entities.len()
        invariant
            i <= entities@.len(),
            forall|k: int| 0 <= k < i ==> entities@[k].entity_id != entity_id,
            forall|a: int, b: int|
                0 <= a < b < entities@.len() ==> entities@[a].entity_id != entities@[b].entity_id,
        decreases entities@.len() - i,
    {
        if entities[i].entity_id == entity_id {
            proof {
                let w = choose|k: int|
                    0 <= k < entities@.len() && entities@[k].entity_id == entity_id;
                assert(entities@[i as int].entity_id == entity_id);
                assert(w == i as int);
            }
            return entities[i].mass;
        }
        i += 1;
    }
    0
}

/// A total mass is never negative: every circle contributes its entity's
/// mass or nothing.
pub proof fn lemma_total_mass_nonnegative(s: Snapshot, player_id: u32)
    ensures
        spec_total_mass(s, player_id) >= 0,
{
    lemma_mass_prefix_nonnegative(
        s.circles_seq(),
        s.entities_seq(),
        player_id,
        s.circles_seq().len() as int,
    );
}

proof fn lemma_mass_prefix_nonnegative(
    circles: Seq<CircleRow>,
    entities: Seq<EntityRow>,
    player_id: u32,
    n: int,
)
    ensures
        spec_mass_prefix(circles, entities, player_id, n) >= 0,
    decreases n,
{
    if n > 0 {
        lemma_mass_prefix_nonnegative(circles, entities, player_id, n - 1);
    }
}

/// A player none of whose circles are in the snapshot has total mass zero.
pub proof fn lemma_mass_zero_without_circles(s: Snapshot, player_id: u32)
    requires
        forall|i: int|
            0 <= i < s.circles_seq().len() ==> s.circles_seq()[i].player_id != player_id,
    ensures
        spec_total_mass(s, player_id) == 0,
{
    lemma_mass_prefix_zero(s.circles_seq(), s.entities_seq(), player_id, s.circles_seq().len() as int);
}

proof fn lemma_mass_prefix_zero(
    circles: Seq<CircleRow>,
    entities: Seq<EntityRow>,
    player_id: u32,
    n: int,
)
    requires
        n <= circles.len(),
        forall|i: int| 0 <= i < circles.len() ==> circles[i].player_id != player_id,
    ensures
        spec_mass_prefix(circles, entities, player_id, n) == 0,
    decreases n,
{
    if n > 0 {
        lemma_mass_prefix_zero(circles, entities, player_id, n - 1);
    }
}

fn collect_player_ids(rows: &Vec<PlayerRow>) -> (ids: Vec<u32>)
    ensures
        ids@.len() == rows@.len(),
        forall|i: int| 0 <= i < ids@.len() ==> ids@[i] == rows@[i].player_id,
{
    let mut ids: Vec<u32> = Vec::new();
    let mut i: usize = 0;
    while i < rows.len()
        invariant
            i <= rows@.len(),
            ids@.len() == i,
            forall|k: int| 0 <= k < i ==> ids@[k] == rows@[k].player_id,
        decreases rows@.len() - i,
    {
        ids.push(rows[i].player_id);
        i += 1;
    }
    ids
}

fn collect_entity_ids(rows: &Vec<EntityRow>) -> (ids: Vec<u32>)
    ensures
        ids@.len() == rows@.len(),
        forall|i: int| 0 <= i < ids@.len() ==> ids@[i] == rows@[i].entity_id,
{
    let mut ids: Vec<u32> = Vec::new();
    let mut i: usize = 0;
    while i < rows.len()
        invariant
            i <= rows@.len(),
            ids@.len() == i,
            forall|k: int| 0 <= k < i ==> ids@[k] == rows@[k].entity_id,
        decreases rows@.len() - i,
    {
        ids.push(rows[i].entity_id);
        i += 1;
    }
    ids
}

fn collect_circle_ids(rows: &Vec<CircleRow>) -> (ids: Vec<u32>)
    ensures
        ids@.len() == rows@.len(),
        forall|i: int| 0 <= i < ids@.len() ==> ids@[i] == rows@[i].entity_id,
{
    let mut ids: Vec<u32> = Vec::new();
    let mut i: usize = 0;
    while i < rows.len()
        invariant
            i <= rows@.len(),
            ids@.len() == i,
            forall|k: int| 0 <= k < i ==> ids@[k] == rows@[k].entity_id,
        decreases rows@.len() - i,
    {
        ids.push(rows[i].entity_id);
        i += 1;
    }
    ids
}

/// Whether the identifiers are pairwise distinct.
fn ids_distinct(ids: &Vec<u32>) -> (r: bool)
    ensures
        r <==> forall|i: int, j: int| 0 <= i < j < ids@.len() ==> ids@[i] != ids@[j],
{
    let mut i: usize = 0;
    while i < ids.len()
        invariant
            i <= ids@.len(),
            forall|a: int, b: int| 0 <= a < b < ids@.len() && a < i ==> ids@[a] != ids@[b],
        decreases ids@.len() - i,
    {
        let mut j: usize = i + 1;
        while j < ids.len()
            invariant
                i < j <= ids@.len() || (i as int == ids@.len() && j as int == ids@.len()),
                i < ids@.len(),
                forall|b: int| i < b < j ==> ids@[i as int] != ids@[b],
            decreases ids@.len() - j,
        {
            if ids[i] == ids[j] {
                return false;
            }
            j += 1;
        }
        i += 1;
    }
    true
}

} // verus!
