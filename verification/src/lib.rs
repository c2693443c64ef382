//! A relay in front of an automated market maker.
//!
//! The relay checks a fixed set of accounts against a declared schema and, when
//! every account conforms, describes the single cross-program call that hands
//! those accounts and the caller's amounts on to the market maker, unchanged.

pub mod account;
pub mod address;
pub mod buy;
pub mod call;
pub mod programs;
pub mod schema;
pub mod sell;
pub mod token;

pub use account::AccountSnapshot;
pub use address::Address;
pub use buy::{buy, Buy};
pub use call::{settle, AmmInstruction, Invocation, RelayError};
pub use programs::ProgramKind;
pub use schema::{validate, AccountKind, Requirement, Violation, ViolationKind};
pub use sell::{sell, Sell};
