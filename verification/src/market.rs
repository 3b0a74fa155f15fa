//! The market: its prices, the protocol of reserving and settling trades, and
//! what it tells others about them.

pub mod consts;
pub mod errors;
pub mod event;
pub mod laws;
pub mod log;
pub mod model;
pub mod price_laws;
pub mod pricing;
pub mod sgx;
