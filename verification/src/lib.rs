//! Settlement core of a simple asset marketplace.

pub mod payout;
pub mod registry;
pub mod sale;
pub mod settle;
pub mod str_map;
