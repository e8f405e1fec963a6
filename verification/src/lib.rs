//! A minimal on-chain governance core: proposal creation, time-boxed voting,
//! and tally-based finalization.
//!
//! The governance logic is a deterministic state machine over four persistent
//! collections.  The enclosing runtime is expected to sequence operations one
//! at a time, supply the authenticated caller identity, and query the clock
//! oracle once per operation; those collaborators appear here as plain-value
//! arguments, and the storage they would back appears as an explicit
//! [`pallet::Pallet`] state object, so that independent instances can coexist.

pub mod laws;
pub mod model;
pub mod pallet;
pub mod types;

pub use model::StateView;
pub use pallet::Pallet;
pub use types::Error;
pub use types::Event;
pub use types::EventView;
pub use types::FinishedProposal;
pub use types::Proposal;
pub use types::Vote;
