pub mod health;
pub mod sprite;
pub mod tile;
pub mod unit;
pub mod units;
pub mod utils;
