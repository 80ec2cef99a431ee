pub mod account;
pub mod domain;
pub mod order_manager;
pub mod parse;
pub mod sync;
pub mod time;

pub use domain::{Analyzer, Candle, OrderBook, Price};
