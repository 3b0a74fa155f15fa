//! A single-market exchange: an inventory of four kinds of goods, a ledger of
//! reservations on them, and the rules that price, reserve and settle trades.
//!
//! Quantities and prices are whole numbers of the smallest unit a caller trades
//! in; exchange rates are fixed-point numbers with six decimal places.

pub mod cli;
pub mod goods;
pub mod market;
pub mod ratio;
pub mod text;
pub mod trader;
pub mod trader_cli;
