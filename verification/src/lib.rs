//! Capped batches of soulbound certificates.
//!
//! A batch is a registry with a cap, a counter and a completion flag
//! (`batch`). A certificate is issued by a fixed sequence of steps that the
//! host performs and the workflow decides (`workflow`, `action`): the fee,
//! the certificate's record and its non-transferability marker, the
//! certificate itself, the holder's slot, the one unit, the end of the
//! issuing authority, the descriptive fields, and then the registry's
//! counter. The instructions for the token ledger come from the
//! `spl_token_2022` crate (`ledger`). What holds of every issuance is proved
//! in `guarantees`.

pub mod action;
pub mod address;
pub mod batch;
pub mod error;
pub mod events;
pub mod guarantees;
pub mod ledger;
pub mod workflow;

pub use batch::{initialize_batch, Batch, InitializeBatch};
pub use error::ErrorCode;
pub use events::{MintCompleted, WellTriggered};
pub use workflow::{mint_soulbound, MintSoulbound};
