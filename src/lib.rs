//! Identity-and-credential core: session claims, time-bucketed one-time
//! passcodes, single-sign-on reconciliation and registration conflict checks
//! over an identity store.

pub mod error;
pub mod helpers;
pub mod jwt;
pub mod models;
pub mod handlers;
pub mod store;

pub use error::AppError;
