use trading_bot_rust::domain::candle::Quotation;
use trading_bot_rust::domain::order_book::{
    checked_volume_sum, read_level, Level, LevelJson, LevelQuote, OrderBook, MAX_DEPTH,
};
use trading_bot_rust::time::Timestamp;
use trading_bot_rust::domain::price::Price;

fn prices(levels: &[Level]) -> Vec<i128> {
    levels.iter().map(|l| l.price.raw()).collect()
}

fn volumes(levels: &[Level]) -> Vec<u64> {
    levels.iter().map(|l| l.volume).collect()
}

#[test]
fn order_book_new_is_empty() {
    let book = OrderBook::new("BBG004730N88".to_string(), Timestamp { secs: 1_714_989_600, nanos: 5 });
    assert_eq!(book.figi, "BBG004730N88");
    assert!(book.bids.is_empty());
    assert!(book.asks.is_empty());
    assert_eq!(book.timestamp, Timestamp { secs: 1_714_989_600, nanos: 5 });
}

#[test]
fn bids_are_kept_highest_first() {
    let mut book = OrderBook::new("F".to_string(), Timestamp { secs: 0, nanos: 0 });
    book.update_bid(Price::new(100), 1);
    book.update_bid(Price::new(105), 2);
    book.update_bid(Price::new(95), 3);
    book.update_bid(Price::new(102), 4);
    assert_eq!(prices(&book.bids), vec![105, 102, 100, 95]);
    assert_eq!(volumes(&book.bids), vec![2, 4, 1, 3]);
    assert!(book.asks.is_empty());
}

#[test]
fn asks_are_kept_lowest_first() {
    let mut book = OrderBook::new("F".to_string(), Timestamp { secs: 0, nanos: 0 });
    book.update_ask(Price::new(100), 1);
    book.update_ask(Price::new(105), 2);
    book.update_ask(Price::new(95), 3);
    book.update_ask(Price::new(102), 4);
    assert_eq!(prices(&book.asks), vec![95, 100, 102, 105]);
    assert_eq!(volumes(&book.asks), vec![3, 1, 4, 2]);
    assert!(book.bids.is_empty());
}

#[test]
fn bid_at_an_existing_price_goes_after_it() {
    let mut book = OrderBook::new("F".to_string(), Timestamp { secs: 0, nanos: 0 });
    book.update_bid(Price::new(100), 1);
    book.update_bid(Price::new(90), 2);
    book.update_bid(Price::new(100), 7);
    assert_eq!(prices(&book.bids), vec![100, 100, 90]);
    assert_eq!(volumes(&book.bids), vec![1, 7, 2]);
}

#[test]
fn ask_at_an_existing_price_goes_after_it() {
    let mut book = OrderBook::new("F".to_string(), Timestamp { secs: 0, nanos: 0 });
    book.update_ask(Price::new(100), 1);
    book.update_ask(Price::new(110), 2);
    book.update_ask(Price::new(100), 7);
    assert_eq!(prices(&book.asks), vec![100, 100, 110]);
    assert_eq!(volumes(&book.asks), vec![1, 7, 2]);
}

#[test]
fn zero_volume_changes_nothing() {
    let mut book = OrderBook::new("F".to_string(), Timestamp { secs: 0, nanos: 0 });
    book.update_bid(Price::new(100), 1);
    book.update_ask(Price::new(101), 1);
    book.update_bid(Price::new(100), 0);
    book.update_bid(Price::new(99), 0);
    book.update_ask(Price::new(101), 0);
    assert_eq!(prices(&book.bids), vec![100]);
    assert_eq!(prices(&book.asks), vec![101]);
}

#[test]
fn each_side_keeps_at_most_max_depth_levels() {
    let mut book = OrderBook::new("F".to_string(), Timestamp { secs: 0, nanos: 0 });
    for p in 1..=12 {
        book.update_bid(Price::new(p), 1);
        book.update_ask(Price::new(p), 1);
    }
    assert_eq!(MAX_DEPTH, 10);
    assert_eq!(book.bids.len(), MAX_DEPTH);
    assert_eq!(book.asks.len(), MAX_DEPTH);
    assert_eq!(prices(&book.bids), (3..=12).rev().collect::<Vec<i128>>());
    assert_eq!(prices(&book.asks), (1..=10).collect::<Vec<i128>>());
    book.update_bid(Price::new(0), 5);
    assert_eq!(book.bids.len(), MAX_DEPTH);
    assert_eq!(book.bids[9].price.raw(), 3);
}

#[test]
fn over_full_side_is_cut_to_depth_by_any_update() {
    let mut book = OrderBook::new("F".to_string(), Timestamp { secs: 0, nanos: 0 });
    for p in 0..15 {
        book.bids.push(Level { price: Price::new(100 - p), volume: 1 });
    }
    book.update_bid(Price::new(1), 0);
    assert_eq!(book.bids.len(), MAX_DEPTH);
    assert_eq!(book.bids[9].price.raw(), 91);
}

#[test]
fn volume_sum_is_checked() {
    let levels = vec![
        Level { price: Price::new(1), volume: 10 },
        Level { price: Price::new(2), volume: 32 },
    ];
    assert_eq!(checked_volume_sum(&levels), Some(42));
    assert_eq!(checked_volume_sum(&Vec::new()), Some(0));
    let huge = vec![
        Level { price: Price::new(1), volume: u64::MAX },
        Level { price: Price::new(2), volume: 1 },
    ];
    assert_eq!(checked_volume_sum(&huge), None);
}

#[test]
fn level_fields_are_read() {
    let j = LevelJson {
        price_units: Some("322".to_string()),
        price_nano: Some(500_000_000),
        quantity: Some("15".to_string()),
    };
    assert_eq!(
        read_level(&j),
        LevelQuote { price: Quotation { units: 322, nano: 500_000_000 }, volume: 15 }
    );
}

#[test]
fn level_fields_that_do_not_read_are_zero() {
    let j = LevelJson {
        price_units: Some("3.5".to_string()),
        price_nano: None,
        quantity: Some("-1".to_string()),
    };
    assert_eq!(read_level(&j), LevelQuote { price: Quotation { units: 0, nano: 0 }, volume: 0 });
    let absent = LevelJson { price_units: None, price_nano: Some(7), quantity: None };
    assert_eq!(read_level(&absent), LevelQuote { price: Quotation { units: 0, nano: 7 }, volume: 0 });
    let signed = LevelJson { price_units: Some("-12".to_string()), price_nano: None, quantity: Some("+4".to_string()) };
    assert_eq!(read_level(&signed), LevelQuote { price: Quotation { units: -12, nano: 0 }, volume: 4 });
}
