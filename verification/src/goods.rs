//! The goods a market holds: their kinds, parcels of them, the reservations
//! on them and the inventory that keeps them together.

pub mod consts;
pub mod good;
pub mod good_kind;
pub mod good_label;
pub mod good_metadata;
pub mod good_status;
pub mod good_storage;
pub mod goods_factory;
