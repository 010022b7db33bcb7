//! A single-election voting coordinator: an access-controlled state machine
//! that governs voter registration, a time-bounded voting window, vote
//! tallying, and result finalization.
//!
//! Every state-mutating call is attributed to an explicit caller identity,
//! and the current time is passed in as an explicit clock value; the machine
//! itself performs no I/O. The central invariants — the tally total always
//! equals the number of votes cast, and every vote comes from a registered
//! voter — are stated on [`machine::VotingMachine`] and proved to hold in
//! every reachable state.

pub mod ids;
pub mod machine;
pub mod ops;
pub mod tally;
