pub mod map;
pub mod units;
