//! The grant coordinator: two-layer deduplication of grant attempts.
//!
//! The coordinator owns the confirmed-grant cache and the in-flight guard.
//! An attempt for one grant key — an (account, tier) pair — moves through
//! `begin_attempt`, which screens the address, consults the cache and
//! atomically test-and-inserts the key into the guard, and
//! `finish_attempt`, which records a confirmed grant and unconditionally
//! releases the guard on every exit path.  Callers keep each call under one
//! exclusion scope and never hold that scope across a remote call.

use vstd::prelude::*;
use crate::address::AccountAddr;
use crate::address::AddressScreen;
use crate::address::screen_address;
use crate::address::spec_addr_bytes;
use crate::address::spec_unlinked;
use crate::address::well_formed_hex_literal;
use crate::tiers::SkinType;

verus! {

/// The unit of deduplication: one account and one tier.
pub struct GrantKey {
    pub addr: AccountAddr,
    pub skin: SkinType,
}

/// The mathematical value of a grant key.
pub open spec fn key_view(k: GrantKey) -> (Seq<u8>, SkinType) {
    (k.addr@, k.skin)
}

/// The set of key values a vector of keys holds.
pub open spec fn key_set(keys: Seq<GrantKey>) -> Set<(Seq<u8>, SkinType)> {
    Set::new(|p: (Seq<u8>, SkinType)| exists|i: int| 0 <= i < keys.len() && key_view(keys[i]) == p)
}

/// No two keys in the vector stand for the same (account, tier) pair.
pub open spec fn keys_distinct(keys: Seq<GrantKey>) -> bool {
    forall|i: int, j: int| 0 <= i < j < keys.len() ==> key_view(keys[i]) != key_view(keys[j])
}

/// The coordinator's state as two sets of key values.
#[verifier::ext_equal]
pub struct CoordinatorView {
    /// Keys known to be granted on chain; a conservative subset of the
    /// ledger's true state, never proactively invalidated.
    pub granted: Set<(Seq<u8>, SkinType)>,
    /// Keys with an attempt currently in flight.
    pub pending: Set<(Seq<u8>, SkinType)>,
}

/// The confirmed-grant cache and the in-flight guard.
pub struct GrantCoordinator {
    granted: Vec<GrantKey>,
    pending: Vec<GrantKey>,
}

impl View for GrantCoordinator {
    type V = CoordinatorView;

    closed spec fn view(&self) -> CoordinatorView {
        CoordinatorView { granted: key_set(self.granted@), pending: key_set(self.pending@) }
    }
}

/// What `begin_attempt` decided for the event that triggered it.
pub enum BeginOutcome {
    /// The player has no linked account: a silent no-op, not retried and
    /// not an error.
    SkippedUnlinked,
    /// The stored address is a malformed literal: a data error, surfaced.
    RejectedMalformed,
    /// The cache already marks the key granted: nothing to do, no remote
    /// calls.
    AlreadyGranted,
    /// Another evaluation is handling exactly this key right now: yield to
    /// it, no remote calls.
    AlreadyInFlight,
    /// The key was inserted into the in-flight guard; the caller runs the
    /// on-chain check and submission and must conclude with
    /// `finish_attempt`.
    Proceed(AccountAddr),
}

/// Terminal result of one grant attempt's remote work.
#[derive(Clone, Copy, Debug, PartialEq, Eq, Structural)]
pub enum AttemptOutcome {
    /// The submission was accepted on chain.
    GrantedNow,
    /// The on-chain check reported the account already has the tier.
    AlreadyOnChain,
    /// The on-chain check failed or returned no boolean; nothing cached.
    CheckFailed,
    /// The submission protocol exhausted its attempts; nothing cached.
    SubmitFailed,
}

/// Whether an outcome confirms that the grant holds on chain.
pub open spec fn outcome_confirms(outcome: AttemptOutcome) -> bool {
    outcome is GrantedNow || outcome is AlreadyOnChain
}

/// The address is a well-formed literal of a linked account.
pub open spec fn spec_linked(s: Seq<char>) -> bool {
    !spec_unlinked(s) && well_formed_hex_literal(s)
}

/// `begin_attempt` hands the attempt to its caller exactly when the
/// address is linked and the key is neither cached nor in flight.
pub open spec fn spec_begin_proceeds(v: CoordinatorView, s: Seq<char>, skin: SkinType) -> bool {
    &&& spec_linked(s)
    &&& !v.granted.contains((spec_addr_bytes(s), skin))
    &&& !v.pending.contains((spec_addr_bytes(s), skin))
}

/// A subsequent `begin_attempt` for this state short-circuits at the
/// fast-path cache check.
pub open spec fn spec_begin_reports_granted(
    v: CoordinatorView,
    s: Seq<char>,
    skin: SkinType,
) -> bool {
    spec_linked(s) && v.granted.contains((spec_addr_bytes(s), skin))
}

/// State after `begin_attempt`: the key enters the guard exactly when the
/// attempt proceeds.
pub open spec fn spec_begin_post(v: CoordinatorView, s: Seq<char>, skin: SkinType) -> CoordinatorView {
    if spec_begin_proceeds(v, s, skin) {
        CoordinatorView { granted: v.granted, pending: v.pending.insert((spec_addr_bytes(s), skin)) }
    } else {
        v
    }
}

/// State after `finish_attempt`: the guard entry is removed on every
/// outcome, and the cache grows exactly on a confirming outcome.
pub open spec fn spec_finish_post(
    v: CoordinatorView,
    addr: Seq<u8>,
    skin: SkinType,
    outcome: AttemptOutcome,
) -> CoordinatorView {
    CoordinatorView {
        granted: if outcome_confirms(outcome) {
            v.granted.insert((addr, skin))
        } else {
            v.granted
        },
        pending: v.pending.remove((addr, skin)),
    }
}

impl GrantCoordinator {
    pub open spec fn wf(self) -> bool {
        keys_distinct(self.keys_granted()) && keys_distinct(self.keys_pending())
    }

    pub closed spec fn keys_granted(self) -> Seq<GrantKey> {
        self.granted@
    }

    pub closed spec fn keys_pending(self) -> Seq<GrantKey> {
        self.pending@
    }

    /// A coordinator with an empty cache and an empty guard.
    pub fn new() -> (r: GrantCoordinator)
        ensures
            r.wf(),
            r@.granted == Set::<(Seq<u8>, SkinType)>::empty(),
            r@.pending == Set::<(Seq<u8>, SkinType)>::empty(),
    {
        let r = GrantCoordinator { granted: Vec::new(), pending: Vec::new() };
        proof {
            assert(r@.granted =~= Set::<(Seq<u8>, SkinType)>::empty());
            assert(r@.pending =~= Set::<(Seq<u8>, SkinType)>::empty());
        }
        r
    }

    /// Whether the cache marks the key granted.
    pub fn is_granted(&self, addr: &AccountAddr, skin: SkinType) -> (r: bool)
        ensures
            r == self@.granted.contains((addr@, skin)),
    {
        contains_key(&self.granted, addr, skin)
    }

    /// Whether an attempt for the key is in flight.
    pub fn is_pending(&self, addr: &AccountAddr, skin: SkinType) -> (r: bool)
        ensures
            r == self@.pending.contains((addr@, skin)),
    {
        contains_key(&self.pending, addr, skin)
    }

    /// Opens a grant attempt for the player's stored address and the chosen
    /// tier.  Screens the address, takes the fast path when the cache
    /// already marks the key, and otherwise test-and-inserts the key into
    /// the in-flight guard in this single call, so that for one key at
    /// most one caller is ever handed `Proceed` before that attempt
    /// finishes.  Only a `Proceed` caller performs remote calls, and it
    /// must later call `finish_attempt` with the same key.
    pub fn begin_attempt(&mut self, address: &str, skin: SkinType) -> (r: BeginOutcome)
        requires
            old(self).wf(),
        ensures
            final(self).wf(),
            final(self)@ == spec_begin_post(old(self)@, address@, skin),
            r is SkippedUnlinked <==> spec_unlinked(address@),
            r is RejectedMalformed <==> !spec_unlinked(address@) && !well_formed_hex_literal(
                address@,
            ),
            r is AlreadyGranted <==> spec_begin_reports_granted(old(self)@, address@, skin),
            r is AlreadyInFlight <==> spec_linked(address@) && !old(self)@.granted.contains(
                (spec_addr_bytes(address@), skin),
            ) && old(self)@.pending.contains((spec_addr_bytes(address@), skin)),
            r is Proceed <==> spec_begin_proceeds(old(self)@, address@, skin),
            r matches BeginOutcome::Proceed(a) ==> a.wf() && a@ == spec_addr_bytes(address@),
    {
        let addr = match screen_address(address) {
            AddressScreen::Unlinked => {
                return BeginOutcome::SkippedUnlinked;
            },
            AddressScreen::Malformed => {
                return BeginOutcome::RejectedMalformed;
            },
            AddressScreen::Linked(a) => a,
        };
        if contains_key(&self.granted, &addr, skin) {
            return BeginOutcome::AlreadyGranted;
        }
        if contains_key(&self.pending, &addr, skin) {
            return BeginOutcome::AlreadyInFlight;
        }
        let ghost pre = self@;
        self.pending.push(GrantKey { addr: addr.duplicate(), skin });
        proof {
            lemma_key_set_push(old(self).keys_pending(), self.keys_pending().last());
            assert(key_set(self.keys_pending()) =~= pre.pending.insert((addr@, skin)));
            assert(self@ =~= spec_begin_post(old(self)@, address@, skin));
        }
        BeginOutcome::Proceed(addr)
    }

    /// Concludes the attempt opened for this key.  The in-flight guard
    /// entry is removed whatever the outcome was — success, failure or
    /// skip — and the confirmed-grant cache is extended exactly when the
    /// outcome confirms the grant on chain.
    pub fn finish_attempt(&mut self, addr: &AccountAddr, skin: SkinType, outcome: AttemptOutcome)
        requires
            old(self).wf(),
        ensures
            final(self).wf(),
            final(self)@ == spec_finish_post(old(self)@, addr@, skin, outcome),
    {
        let confirms = match outcome {
            AttemptOutcome::GrantedNow => true,
            AttemptOutcome::AlreadyOnChain => true,
            AttemptOutcome::CheckFailed => false,
            AttemptOutcome::SubmitFailed => false,
        };
        let ghost pre = self@;
        if confirms {
            if !contains_key(&self.granted, addr, skin) {
                self.granted.push(GrantKey { addr: addr.duplicate(), skin });
                proof {
                    lemma_key_set_push(old(self).keys_granted(), self.keys_granted().last());
                }
            }
            proof {
                assert(key_set(self.keys_granted()) =~= pre.granted.insert((addr@, skin)));
            }
        }
        remove_key(&mut self.pending, addr, skin);
        proof {
            assert(self@ =~= spec_finish_post(pre, addr@, skin, outcome));
        }
    }
}

/// For a fixed grant key, once an evaluation has been handed the attempt,
/// no concurrent evaluation is handed it again until the first one
/// finishes: the guard entry blocks every later `begin_attempt`, and each
/// blocked call returns with the state unchanged, so any number of
/// concurrent triggers yields exactly one remote check/grant sequence.
pub proof fn lemma_at_most_one_in_flight(v: CoordinatorView, s: Seq<char>, skin: SkinType)
    requires
        spec_begin_proceeds(v, s, skin),
    ensures
        !spec_begin_proceeds(spec_begin_post(v, s, skin), s, skin),
        spec_begin_post(spec_begin_post(v, s, skin), s, skin) == spec_begin_post(v, s, skin),
{
}

/// After a successful grant or an on-chain check reporting the tier
/// already granted, a subsequent attempt for the same key short-circuits
/// at the fast-path cache check, changes nothing and proceeds to no remote
/// calls.
pub proof fn lemma_cache_convergence(
    v: CoordinatorView,
    s: Seq<char>,
    skin: SkinType,
    outcome: AttemptOutcome,
)
    requires
        outcome_confirms(outcome),
        spec_linked(s),
    ensures
        spec_begin_reports_granted(spec_finish_post(v, spec_addr_bytes(s), skin, outcome), s, skin),
        !spec_begin_proceeds(spec_finish_post(v, spec_addr_bytes(s), skin, outcome), s, skin),
        spec_begin_post(spec_finish_post(v, spec_addr_bytes(s), skin, outcome), s, skin)
            == spec_finish_post(v, spec_addr_bytes(s), skin, outcome),
{
}

/// After any terminal outcome of an attempt — success, failure or skip —
/// the key is absent from the in-flight guard, so a future event may retry
/// it.
pub proof fn lemma_guard_cleanup(
    v: CoordinatorView,
    addr: Seq<u8>,
    skin: SkinType,
    outcome: AttemptOutcome,
)
    ensures
        !spec_finish_post(v, addr, skin, outcome).pending.contains((addr, skin)),
{
}

proof fn lemma_key_set_push(keys: Seq<GrantKey>, k: GrantKey)
    ensures
        key_set(keys.push(k)) =~= key_set(keys).insert(key_view(k)),
{
    let post = keys.push(k);
    assert forall|p: (Seq<u8>, SkinType)|
        key_set(keys).insert(key_view(k)).contains(p) implies key_set(post).contains(p) by {
        if p == key_view(k) {
            assert(key_view(post[keys.len() as int]) == p);
        } else {
            let i = choose|i: int| 0 <= i < keys.len() && key_view(keys[i]) == p;
            assert(key_view(post[i]) == p);
        }
    }
}

/// Whether some key in the vector stands for this (account, tier) pair.
fn contains_key(keys: &Vec<GrantKey>, addr: &AccountAddr, skin: SkinType) -> (r: bool)
    ensures
        r == key_set(keys@).contains((addr@, skin)),
{
    let mut i: usize = 0;
    while i < keys.len()
        invariant
            i <= keys@.len(),
            forall|k: int| 0 <= k < i ==> key_view(keys@[k]) != (addr@, skin),
        decreases keys@.len() - i,
    {
        if keys[i].addr.same_account(addr) && keys[i].skin == skin {
            proof {
                assert(key_view(keys@[i as int]) == (addr@, skin));
            }
            return true;
        }
        i += 1;
    }
    false
}

/// Removes the key for this (account, tier) pair, if present.
fn remove_key(keys: &mut Vec<GrantKey>, addr: &AccountAddr, skin: SkinType)
    requires
        keys_distinct(old(keys)@),
    ensures
        keys_distinct(final(keys)@),
        key_set(final(keys)@) =~= key_set(old(keys)@).remove((addr@, skin)),
{
    let mut i: usize = 0;
    while i < keys.len()
        invariant
            i <= keys@.len(),
            keys@ == old(keys)@,
            keys_distinct(keys@),
            forall|k: int| 0 <= k < i ==> key_view(keys@[k]) != (addr@, skin),
        decreases keys@.len() - i,
    {
        if keys[i].addr.same_account(addr) && keys[i].skin == skin {
            let ghost pre = keys@;
            let ghost target = i as int;
            proof {
                assert(key_view(pre[target]) == (addr@, skin));
            }
            keys.remove(i);
            proof {
                pre.remove_ensures(target);
                assert(keys@ == pre.remove(target));
                assert forall|p: (Seq<u8>, SkinType)|
                    key_set(keys@).contains(p) implies key_set(pre).remove(
                    (addr@, skin),
                ).contains(p) by {
                    let j = choose|j: int| 0 <= j < keys@.len() && key_view(keys@[j]) == p;
                    if j < target {
                        assert(keys@[j] == pre[j]);
                        assert(key_view(pre[j]) == p);
                        assert(key_view(pre[j]) != (addr@, skin));
                    } else {
                        assert(keys@[j] == pre[j + 1]);
                        assert(key_view(pre[j + 1]) == p);
                        assert(key_view(pre[target]) != key_view(pre[j + 1]));
                    }
                }
                assert forall|p: (Seq<u8>, SkinType)|
                    key_set(pre).remove((addr@, skin)).contains(p) implies key_set(
                    keys@,
                ).contains(p) by {
                    let j = choose|j: int| 0 <= j < pre.len() && key_view(pre[j]) == p;
                    if j < target {
                        assert(keys@[j] == pre[j]);
                        assert(key_view(keys@[j]) == p);
                    } else {
                        assert(j != target);
                        assert(keys@[j - 1] == pre[j]);
                        assert(key_view(keys@[j - 1]) == p);
                    }
                }
                assert forall|a: int, b: int|
                    0 <= a < b < keys@.len() implies key_view(keys@[a]) != key_view(keys@[b]) by {
                    let pa = if a < target { a } else { a + 1 };
                    let pb = if b < target { b } else { b + 1 };
                    assert(keys@[a] == pre[pa]);
                    assert(keys@[b] == pre[pb]);
                    assert(key_view(pre[pa]) != key_view(pre[pb]));
                }
            }
            return;
        }
        i += 1;
    }
    proof {
        assert(key_set(keys@) =~= key_set(old(keys)@).remove((addr@, skin)));
    }
}

} // verus!
