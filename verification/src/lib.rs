//! Lifecycle engine for currency-exchange requests.
//!
//! A user asks for an amount of USDC to be converted into kwacha at a fixed
//! rate; administrators move the request through its lifecycle; the owner
//! may mark their own request complete. Every operation either commits
//! fully or fails without touching the tables.
//!
//! The five operations stand in [`operations`] and work on a [`Ledger`],
//! the two tables held in memory. Their decisions, free of any table,
//! stand in [`rules`], for a host that keeps the tables elsewhere: it looks
//! up what a decision needs, asks, and writes what was decided. What holds
//! of the operations on every state is proved in [`laws`].
//!
//! Money is counted in whole numbers. An amount of USDC comes in as
//! millionths of a USDC; stored amounts, USDC and kwacha alike, are
//! hundredths. Rounding goes to the nearest hundredth, a tie away from
//! zero; see [`amount`].

pub mod amount;
pub mod error;
pub mod keyed;
pub mod laws;
pub mod ledger;
pub mod model;
pub mod notes;
pub mod operations;
pub mod rules;

pub use error::{InsertFault, Privilege, RequestError};
pub use ledger::Ledger;
pub use model::{Admin, ExchangeRequest, Identity, RequestStatus, Timestamp};
pub use operations::{
    add_admin, create_exchange_request, get_all_requests_for_admin,
    mark_request_completed_by_user, update_request_status_admin,
};
