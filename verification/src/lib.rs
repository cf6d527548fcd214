//! A crowdfunding campaign ledger: one campaign with a funding target and a
//! deadline, the amount raised so far, and what each contributor has given.
//!
//! [`NovaFund`] is the ledger. It is created empty, `initialize` gives it its
//! campaign once, `donate` books contributions while the campaign is running
//! and the deadline has not been reached, and `get_state` reports where the
//! campaign stands. The ledger does no I/O: the host tells `donate` the time
//! and whether the contributor has authorized the call, and publishes the
//! notification that an accepted contribution returns.
//!
//! - [`campaign`]: the campaign record, its states and the errors.
//! - [`address`]: contributor identities.
//! - [`ledger`]: the ledger as a mathematical value, with the transitions
//!   that the operations carry out.
//! - [`fund`]: the executable ledger, verified against that model.
//! - [`theorems`]: what holds of the model whatever calls are made.

pub mod address;
pub mod campaign;
pub mod fund;
pub mod ledger;
pub mod theorems;

pub use address::Address;
pub use campaign::{Campaign, Error, State};
pub use fund::{Donation, Notification, NovaFund, DONATION_TOPIC};
pub use ledger::{Attempt, Ledger};
