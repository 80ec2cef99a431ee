use trading_bot_rust::domain::analyzer::Analyzer;

#[test]
fn analyzer_keeps_its_window() {
    assert_eq!(Analyzer::new(14).window(), 14);
    assert_eq!(Analyzer::new(0).window(), 0);
}
