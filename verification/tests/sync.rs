use trading_bot_rust::sync::{first_rub_entry, position_to_restore, SecurityJson};

fn s(x: &str) -> Option<String> {
    Some(x.to_string())
}

fn sec(figi: Option<String>, balance: Option<String>) -> SecurityJson {
    SecurityJson { figi, balance }
}

#[test]
fn first_rouble_entry_is_found() {
    let currencies = vec![s("usd"), None, s("rub"), s("rub")];
    assert_eq!(first_rub_entry(&currencies), Some(2));
}

#[test]
fn no_rouble_entry() {
    assert_eq!(first_rub_entry(&vec![s("usd"), s("RUB"), None]), None);
    assert_eq!(first_rub_entry(&Vec::new()), None);
}

#[test]
fn first_positive_balance_of_the_instrument_is_restored() {
    let figi = "BBG004730N88".to_string();
    let secs = vec![
        sec(s("OTHER"), s("50")),
        sec(s("BBG004730N88"), s("0")),
        sec(s("BBG004730N88"), s("oops")),
        sec(s("BBG004730N88"), None),
        sec(s("BBG004730N88"), s("30")),
        sec(s("BBG004730N88"), s("40")),
    ];
    assert_eq!(position_to_restore(&secs, &figi, false), Some(30));
}

#[test]
fn nothing_is_restored_over_an_open_position() {
    let figi = "F".to_string();
    let secs = vec![sec(s("F"), s("10"))];
    assert_eq!(position_to_restore(&secs, &figi, true), None);
}

#[test]
fn nothing_is_restored_without_a_positive_balance() {
    let figi = "F".to_string();
    let secs = vec![sec(s("F"), s("-3")), sec(None, s("9")), sec(s("G"), s("9"))];
    assert_eq!(position_to_restore(&secs, &figi, false), None);
}
