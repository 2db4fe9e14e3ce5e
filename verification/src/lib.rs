use vstd::prelude::*;

pub mod access;
pub mod account;
pub mod calea;
pub mod cdr;
pub mod clock;
pub mod console;
pub mod console_services;
pub mod db;
pub mod dispatch;
pub mod error;
pub mod format;
pub mod laws;
pub mod pbx;
pub mod rating;
pub mod rows;
pub mod text;

pub use account::{Account, AccountStatus};
pub use cdr::{CallDetailRecord, CallType};
pub use db::BillingDb;
pub use error::BillingError;
pub use rating::RatingEngine;

verus! {

} // verus!
