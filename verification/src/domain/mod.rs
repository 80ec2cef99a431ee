pub mod analyzer;
pub mod candle;
pub mod order_book;
pub mod price;

pub use analyzer::Analyzer;
pub use candle::Candle;
pub use order_book::OrderBook;
pub use price::Price;
