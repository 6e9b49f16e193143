//! Supervision logic for a TURN-relayed UDP tunnel service: a coordinator that
//! owns the set of peer tunnels, a relay worker that owns the single relay
//! session, and one peer worker per tunnel. Each worker is a state machine that
//! turns one event into the effects to perform and the outcome of its loop
//! iteration; the runtime that performs the effects lives outside this crate.

pub mod addr;
pub mod addr_set;
pub mod coordinator;
pub mod types;
pub mod peer;
pub mod relay;
