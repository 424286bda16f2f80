//! A reserve-backed market maker for one claim token, and the cover pool that
//! stands beside it.
//!
//! Each operation is a function from the accounts it reads to the accounts as
//! it leaves them, together with the amounts that the caller has to move,
//! mint or burn; collateral and tokens themselves move outside this crate.

pub mod fixed;
pub mod account;
pub mod state;
pub mod book;
pub mod virtual_price;
pub mod ratchet;
pub mod quote;
pub mod trade;
pub mod laws;
pub mod actuary;
