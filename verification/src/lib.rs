//! Record-lifecycle services over a namespaced key-value store.
//!
//! Two services file their records in one [`store::RecordStore`]: the rent
//! agreement service ([`rent::SafeRentContract`]) and the time entry service
//! ([`timesheet::TimeEntryContract`]). Every operation is a single
//! read-validate-write step, gated by the record's state and by the identity
//! of the caller, and every contract is stated over the mathematical view of
//! the store.

pub mod agreement;
pub mod entry;
pub mod error;
pub mod guarantees;
pub mod identity;
pub mod rent;
pub mod store;
pub mod timesheet;

pub use crate::agreement::{RentAction, RentAgreement, RentStatus, Role};
pub use crate::entry::TimeEntry;
pub use crate::error::ContractError;
pub use crate::identity::Identity;
pub use crate::rent::SafeRentContract;
pub use crate::store::{Namespace, Record, RecordKey, RecordStore};
pub use crate::timesheet::TimeEntryContract;
