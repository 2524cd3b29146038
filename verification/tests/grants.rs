use skinbridge::coordinator::AttemptOutcome;
use skinbridge::coordinator::BeginOutcome;
use skinbridge::coordinator::GrantCoordinator;
use skinbridge::tiers::SkinType;

#[test]
fn empty_address_is_a_silent_noop() {
    // A player who never linked an account: success with zero remote calls.
    let mut c = GrantCoordinator::new();
    let r = c.begin_attempt("", SkinType::Pink);
    assert!(matches!(r, BeginOutcome::SkippedUnlinked));
    // Nothing was recorded, so a later attempt for a real address proceeds.
    let r = c.begin_attempt("0x5", SkinType::Pink);
    assert!(matches!(r, BeginOutcome::Proceed(_)));
}

#[test]
fn zero_sentinel_and_prefixless_addresses_are_skipped() {
    let mut c = GrantCoordinator::new();
    assert!(matches!(
        c.begin_attempt("0x0", SkinType::Rainbow),
        BeginOutcome::SkippedUnlinked
    ));
    assert!(matches!(
        c.begin_attempt("not-an-address", SkinType::Rainbow),
        BeginOutcome::SkippedUnlinked
    ));
    assert!(matches!(
        c.begin_attempt("   ", SkinType::Rainbow),
        BeginOutcome::SkippedUnlinked
    ));
}

#[test]
fn malformed_literal_is_rejected() {
    let mut c = GrantCoordinator::new();
    assert!(matches!(
        c.begin_attempt("0xnothex", SkinType::Pink),
        BeginOutcome::RejectedMalformed
    ));
    // Bare "0x" names no account.
    assert!(matches!(
        c.begin_attempt("0x", SkinType::Pink),
        BeginOutcome::RejectedMalformed
    ));
    // 65 digits overflow the 32-byte account.
    let long = format!("0x{}", "1".repeat(65));
    assert!(matches!(
        c.begin_attempt(&long, SkinType::Pink),
        BeginOutcome::RejectedMalformed
    ));
}

#[test]
fn concurrent_triggers_share_one_attempt() {
    // Two circle-insert events for the same player while the mass already
    // exceeds the tier threshold: the remote check/grant sequence runs
    // exactly once combined.
    let mut c = GrantCoordinator::new();
    let mut remote_sequences = 0;

    // First evaluation wins the guard.
    let first = c.begin_attempt("0x5", SkinType::Pink);
    let addr = match first {
        BeginOutcome::Proceed(a) => {
            remote_sequences += 1;
            a
        }
        _ => panic!("first evaluation must proceed"),
    };

    // Second evaluation arrives while the attempt is in flight.
    match c.begin_attempt("0x5", SkinType::Pink) {
        BeginOutcome::AlreadyInFlight => {}
        _ => panic!("second evaluation must observe the in-flight guard"),
    }

    // The first attempt succeeds and records the grant.
    c.finish_attempt(&addr, SkinType::Pink, AttemptOutcome::GrantedNow);

    // Any later evaluation takes the fast path.
    match c.begin_attempt("0x5", SkinType::Pink) {
        BeginOutcome::AlreadyGranted => {}
        _ => panic!("later evaluation must hit the cache"),
    }
    assert_eq!(remote_sequences, 1);
}

#[test]
fn cache_converges_after_grant() {
    let mut c = GrantCoordinator::new();
    let addr = match c.begin_attempt("0xabc", SkinType::Rainbow) {
        BeginOutcome::Proceed(a) => a,
        _ => panic!("expected to proceed"),
    };
    c.finish_attempt(&addr, SkinType::Rainbow, AttemptOutcome::GrantedNow);
    assert!(c.is_granted(&addr, SkinType::Rainbow));
    assert!(!c.is_pending(&addr, SkinType::Rainbow));
    assert!(matches!(
        c.begin_attempt("0xabc", SkinType::Rainbow),
        BeginOutcome::AlreadyGranted
    ));
}

#[test]
fn cache_converges_after_already_on_chain() {
    let mut c = GrantCoordinator::new();
    let addr = match c.begin_attempt("0xabc", SkinType::Pink) {
        BeginOutcome::Proceed(a) => a,
        _ => panic!("expected to proceed"),
    };
    c.finish_attempt(&addr, SkinType::Pink, AttemptOutcome::AlreadyOnChain);
    assert!(matches!(
        c.begin_attempt("0xabc", SkinType::Pink),
        BeginOutcome::AlreadyGranted
    ));
}

#[test]
fn guard_is_released_on_every_outcome() {
    for outcome in [
        AttemptOutcome::GrantedNow,
        AttemptOutcome::AlreadyOnChain,
        AttemptOutcome::CheckFailed,
        AttemptOutcome::SubmitFailed,
    ] {
        let mut c = GrantCoordinator::new();
        let addr = match c.begin_attempt("0x77", SkinType::Pink) {
            BeginOutcome::Proceed(a) => a,
            _ => panic!("expected to proceed"),
        };
        assert!(c.is_pending(&addr, SkinType::Pink));
        c.finish_attempt(&addr, SkinType::Pink, outcome);
        assert!(!c.is_pending(&addr, SkinType::Pink));
    }
}

#[test]
fn failed_attempt_is_eligible_for_retry() {
    let mut c = GrantCoordinator::new();
    let addr = match c.begin_attempt("0x77", SkinType::Pink) {
        BeginOutcome::Proceed(a) => a,
        _ => panic!("expected to proceed"),
    };
    c.finish_attempt(&addr, SkinType::Pink, AttemptOutcome::CheckFailed);
    assert!(!c.is_granted(&addr, SkinType::Pink));
    // A future event retries the same key.
    assert!(matches!(
        c.begin_attempt("0x77", SkinType::Pink),
        BeginOutcome::Proceed(_)
    ));
}

#[test]
fn tiers_deduplicate_independently() {
    let mut c = GrantCoordinator::new();
    assert!(matches!(
        c.begin_attempt("0x5", SkinType::Pink),
        BeginOutcome::Proceed(_)
    ));
    // The same account's rainbow grant is a different key.
    assert!(matches!(
        c.begin_attempt("0x5", SkinType::Rainbow),
        BeginOutcome::Proceed(_)
    ));
}

#[test]
fn address_spellings_share_one_key() {
    // "0x5", "0x05" and zero-padded long form name the same account.
    let mut c = GrantCoordinator::new();
    assert!(matches!(
        c.begin_attempt("0x5", SkinType::Pink),
        BeginOutcome::Proceed(_)
    ));
    assert!(matches!(
        c.begin_attempt("0x05", SkinType::Pink),
        BeginOutcome::AlreadyInFlight
    ));
    let long = format!("0x{}5", "0".repeat(63));
    assert!(matches!(
        c.begin_attempt(&long, SkinType::Pink),
        BeginOutcome::AlreadyInFlight
    ));
}

#[test]
fn parsed_address_bytes_are_canonical() {
    let mut c = GrantCoordinator::new();
    let addr = match c.begin_attempt("0x1a2B", SkinType::Pink) {
        BeginOutcome::Proceed(a) => a,
        _ => panic!("expected to proceed"),
    };
    let bytes = addr.as_bytes();
    assert_eq!(bytes.len(), 32);
    assert_eq!(bytes[31], 0x2b);
    assert_eq!(bytes[30], 0x1a);
    assert!(bytes[..30].iter().all(|b| *b == 0));
}

#[test]
fn skin_names_and_cache_keys() {
    assert_eq!(SkinType::Pink.grant_function_name(), "grant_pink_skin");
    assert_eq!(SkinType::Rainbow.grant_function_name(), "grant_rainbow_skin");
    assert_eq!(SkinType::Pink.has_function_name(), "has_pink_skin");
    assert_eq!(SkinType::Rainbow.has_function_name(), "has_rainbow_skin");
    assert_eq!(SkinType::Pink.to_cache_key(), "pink");
    assert_eq!(SkinType::Rainbow.to_cache_key(), "rainbow");
    assert_eq!(SkinType::Pink.threshold(), 50);
    assert_eq!(SkinType::Rainbow.threshold(), 100);
}
