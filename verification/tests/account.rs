use trading_bot_rust::account::{
    next_account_step, step_after_response, AccountReply, AccountStep, STARTING_CAPITAL_UNITS,
};

fn fund(id: &str) -> AccountStep {
    AccountStep::Fund { account_id: id.to_string(), amount_units: STARTING_CAPITAL_UNITS }
}

#[test]
fn listed_account_is_used() {
    let next = next_account_step(AccountStep::ListAccounts, AccountReply::Listed(Some("acc-1".to_string())));
    assert_eq!(next, AccountStep::Use("acc-1".to_string()));
}

#[test]
fn no_listed_account_opens_one() {
    let next = next_account_step(AccountStep::ListAccounts, AccountReply::Listed(None));
    assert_eq!(next, AccountStep::OpenAccount);
}

#[test]
fn opened_account_is_funded_then_used() {
    let next = next_account_step(AccountStep::OpenAccount, AccountReply::Opened(Some("new".to_string())));
    assert_eq!(next, fund("new"));
    assert_eq!(STARTING_CAPITAL_UNITS, 100_000);
    let last = next_account_step(next, AccountReply::Funded);
    assert_eq!(last, AccountStep::Use("new".to_string()));
}

#[test]
fn failed_opening_uses_no_account() {
    let next = next_account_step(AccountStep::OpenAccount, AccountReply::Opened(None));
    assert_eq!(next, AccountStep::Use(String::new()));
}

#[test]
fn reply_to_another_request_changes_nothing() {
    let next = next_account_step(AccountStep::OpenAccount, AccountReply::Funded);
    assert_eq!(next, AccountStep::OpenAccount);
    let used = next_account_step(AccountStep::Use("a".to_string()), AccountReply::Listed(None));
    assert_eq!(used, AccountStep::Use("a".to_string()));
}

#[test]
fn account_list_body_names_the_account() {
    let body = r#"{"accounts":[{"id":"6baab97c","type":"ACCOUNT_TYPE_TINKOFF"},{"id":"other"}]}"#;
    let next = step_after_response(AccountStep::ListAccounts, Some(body));
    assert_eq!(next, AccountStep::Use("6baab97c".to_string()));
}

#[test]
fn account_list_body_without_account_opens_one() {
    for body in [r#"{"accounts":[]}"#, r#"{"accounts":[{"id":7}]}"#, "not json", ""] {
        let next = step_after_response(AccountStep::ListAccounts, Some(body));
        assert_eq!(next, AccountStep::OpenAccount);
    }
    assert_eq!(step_after_response(AccountStep::ListAccounts, None), AccountStep::OpenAccount);
}

#[test]
fn opening_body_names_the_new_account() {
    let next = step_after_response(AccountStep::OpenAccount, Some(r#"{"accountId":"n-1"}"#));
    assert_eq!(next, fund("n-1"));
}

#[test]
fn opening_body_without_id_uses_no_account() {
    let next = step_after_response(AccountStep::OpenAccount, Some(r#"{"message":"denied"}"#));
    assert_eq!(next, AccountStep::Use(String::new()));
    assert_eq!(step_after_response(AccountStep::OpenAccount, None), AccountStep::Use(String::new()));
}

#[test]
fn funding_response_ends_in_use() {
    assert_eq!(step_after_response(fund("x"), None), AccountStep::Use("x".to_string()));
    assert_eq!(step_after_response(fund("x"), Some("anything")), AccountStep::Use("x".to_string()));
    assert_eq!(
        step_after_response(AccountStep::Use("y".to_string()), Some("z")),
        AccountStep::Use("y".to_string())
    );
}
