//! An escrow protocol for the atomic exchange of a buyer's native-currency
//! payment for custody of a seller's asset.
//!
//! The heart of the crate is a small forward-only state machine: one
//! [`agreement::PurchaseAgreement`] record per traded item, three transitions
//! (initialize, pay, complete), and a model of the two ledger legs every
//! transition touches — native-currency balances and custody of a single
//! asset unit. Payment settlement and asset custody each come in two
//! strategies, chosen once per deployment.

pub mod agreement;
pub mod codec;
pub mod escrow;
pub mod laws;
pub mod token;
