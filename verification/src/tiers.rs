//! Skin tiers, their mass thresholds, and the threshold evaluator.

use vstd::prelude::*;

verus! {

/// Mass a player must reach for the pink skin.
pub const PINK_SKIN_MASS_THRESHOLD: u64 = 50;

/// Mass a player must reach for the rainbow skin.
pub const RAINBOW_SKIN_MASS_THRESHOLD: u64 = 100;

/// The closed set of skin tiers the bridge can grant.  Thresholds are
/// strictly increasing from `Pink` to `Rainbow`; each tier has a distinct
/// remote "already has" query, a distinct remote grant action, and a
/// distinct cache key.
#[derive(Clone, Copy, Debug, PartialEq, Eq, Structural)]
pub enum SkinType {
    Pink,
    Rainbow,
}

impl SkinType {
    /// Name of the ledger entry function that grants this skin.
    pub fn grant_function_name(&self) -> (name: &'static str)
        ensures
            *self is Pink ==> name@ == "grant_pink_skin"@,
            *self is Rainbow ==> name@ == "grant_rainbow_skin"@,
    {
        match self {
            SkinType::Pink => "grant_pink_skin",
            SkinType::Rainbow => "grant_rainbow_skin",
        }
    }

    /// Name of the ledger view function that reports whether an account
    /// already has this skin.
    pub fn has_function_name(&self) -> (name: &'static str)
        ensures
            *self is Pink ==> name@ == "has_pink_skin"@,
            *self is Rainbow ==> name@ == "has_rainbow_skin"@,
    {
        match self {
            SkinType::Pink => "has_pink_skin",
            SkinType::Rainbow => "has_rainbow_skin",
        }
    }

    /// Key under which a confirmed grant of this skin is cached.
    pub fn to_cache_key(&self) -> (key: String)
        ensures
            *self is Pink ==> key@ == "pink"@,
            *self is Rainbow ==> key@ == "rainbow"@,
    {
        match self {
            SkinType::Pink => "pink".to_owned(),
            SkinType::Rainbow => "rainbow".to_owned(),
        }
    }

    /// The threshold this tier asks of a player's total mass.
    pub open spec fn spec_threshold(self) -> u64 {
        match self {
            SkinType::Pink => PINK_SKIN_MASS_THRESHOLD,
            SkinType::Rainbow => RAINBOW_SKIN_MASS_THRESHOLD,
        }
    }

    /// Executable twin of [`Self::spec_threshold`].
    pub fn threshold(&self) -> (t: u64)
        ensures
            t == self.spec_threshold(),
    {
        match self {
            SkinType::Pink => PINK_SKIN_MASS_THRESHOLD,
            SkinType::Rainbow => RAINBOW_SKIN_MASS_THRESHOLD,
        }
    }
}

/// The tier a given total mass earns: the highest tier whose threshold is
/// met, or none.  Tiers are cumulative, so once the rainbow threshold is
/// reached only the rainbow tier is processed; the pink tier is never
/// selected for such a mass.
pub open spec fn spec_evaluate(mass: u64) -> Option<SkinType> {
    if mass >= RAINBOW_SKIN_MASS_THRESHOLD {
        Some(SkinType::Rainbow)
    } else if mass >= PINK_SKIN_MASS_THRESHOLD {
        Some(SkinType::Pink)
    } else {
        None
    }
}

/// Scans the tiers from the highest threshold down and returns the first
/// tier whose threshold is at most `mass`, or `None` when even the lowest
/// threshold is missed.
pub fn evaluate(mass: u64) -> (tier: Option<SkinType>)
    ensures
        tier == spec_evaluate(mass),
{
    if mass >= RAINBOW_SKIN_MASS_THRESHOLD {
        Some(SkinType::Rainbow)
    } else if mass >= PINK_SKIN_MASS_THRESHOLD {
        Some(SkinType::Pink)
    } else {
        None
    }
}

/// Tier selection is monotonic: whenever the mass reaches the higher
/// threshold, evaluation yields the higher tier and never the lower one,
/// and the tier returned for any mass has its own threshold met.
pub proof fn lemma_tier_selection_monotonic(mass: u64)
    ensures
        mass >= RAINBOW_SKIN_MASS_THRESHOLD ==> spec_evaluate(mass) == Some(SkinType::Rainbow),
        mass >= RAINBOW_SKIN_MASS_THRESHOLD ==> spec_evaluate(mass) != Some(SkinType::Pink),
        spec_evaluate(mass) matches Some(tier) ==> mass >= tier.spec_threshold(),
        spec_evaluate(mass) is None ==> mass < PINK_SKIN_MASS_THRESHOLD,
{
}

} // verus!
