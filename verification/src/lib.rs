//! Coordination layer between a live game-state change feed and an on-chain
//! entitlement ledger.
//!
//! The library holds the decision logic of the bridge: aggregating a player's
//! total mass from a relational snapshot, picking the highest skin tier that
//! the mass satisfies, deduplicating grant attempts through a confirmed-grant
//! cache and an in-flight guard, and driving the bounded retry protocol for
//! ledger submissions.  The surrounding process (feed subscription, ledger
//! transport, scheduling) performs the remote calls and feeds their results
//! back into the state machines defined here.

pub mod address;
pub mod coordinator;
pub mod dispatch;
pub mod gateway;
pub mod session;
pub mod snapshot;
pub mod tiers;
