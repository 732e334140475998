//! An authorization-gated report service: one identity at a time may ask for
//! reports, and each report is fetched from a peer service by a single
//! remote call whose failures are turned into error strings.
//!
//! The service keeps one piece of state, the [`AuthorizationGate`]. A report
//! query first asks that gate ([`get_all_worker_transactions`],
//! [`get_all_establishment_transactions`]); a caller that passes gets the
//! [`PeerCall`] to make, and what the call brought back, a [`CallOutcome`],
//! becomes the query's result.

pub mod forward;
pub mod gate;
pub mod identity;
pub mod model;
pub mod report;

pub use forward::{call_failed, CallOutcome, PeerCall, PeerDirectory, RejectionCode};
pub use gate::{Abort, AuthorizationGate};
pub use identity::{Identity, IdentityError};
pub use model::{
    BenefitType, PaymentStatus, PaymentTransaction, Transaction, TransactionType, UserProfile,
    UserRole,
};
pub use report::{get_all_establishment_transactions, get_all_worker_transactions};
