use vstd::prelude::*;

verus! {

/// Whole roubles paid into a newly opened sandbox account.
pub const STARTING_CAPITAL_UNITS: i64 = 100_000;

/// The next thing to do while finding or opening the sandbox account.
#[derive(Debug, Clone, PartialEq, Eq)]
pub enum AccountStep {
    /// Ask the exchange for the accounts it already holds.
    ListAccounts,
    /// Open a new sandbox account.
    OpenAccount,
    /// Pay `amount_units` whole roubles into the newly opened account, then use it.
    Fund { account_id: String, amount_units: i64 },
    /// Trade on this account; an empty id means that no account could be had.
    Use(String),
}

/// What the reply to the last request held, as plain values.
#[derive(Debug, Clone, PartialEq, Eq)]
pub enum AccountReply {
    /// The account list: the id of the first account, if the reply named one.
    Listed(Option<String>),
    /// The opening of an account: the new account's id, if the reply named one.
    Opened(Option<String>),
    /// The funding request has ended, whatever its outcome.
    Funded,
}

/// The id of the first account that a `GetAccounts` reply body lists (`accounts[0].id`),
/// as `serde_json` reads the body; `None` where it is not JSON or names no such id.
pub uninterp spec fn listed_account_id(body: Seq<char>) -> Option<Seq<char>>;

/// The id that an `OpenSandboxAccount` reply body names (`accountId`), as `serde_json`
/// reads the body; `None` where it is not JSON or names no such id.
pub uninterp spec fn opened_account_id(body: Seq<char>) -> Option<Seq<char>>;

/// Reads a `GetAccounts` reply body through `serde_json::from_str` into a `Value`, then takes
/// the string at `accounts[0].id`. The contract claims only that the result is a function
/// of the body, named `listed_account_id`.
#[verifier::external_body]
fn read_listed_account_id(body: &str) -> (id: Option<String>)
    ensures
        match id {
            Some(s) => listed_account_id(body@) == Some(s@),
            None => listed_account_id(body@) is None,
        },
{
    match serde_json::from_str::<serde_json::Value>(body) {
        Ok(data) => data["accounts"].as_array().and_then(|a| a.first()).and_then(|f| f["id"].as_str()).map(|s| s.to_string()),
        Err(_) => None,
    }
}

/// Reads an `OpenSandboxAccount` reply body through `serde_json::from_str` into a `Value`,
/// then takes the string at `accountId`. The contract claims only that the result is a
/// function of the body, named `opened_account_id`.
#[verifier::external_body]
fn read_opened_account_id(body: &str) -> (id: Option<String>)
    ensures
        match id {
            Some(s) => opened_account_id(body@) == Some(s@),
            None => opened_account_id(body@) is None,
        },
{
    match serde_json::from_str::<serde_json::Value>(body) {
        Ok(data) => data["accountId"].as_str().map(|s| s.to_string()),
        Err(_) => None,
    }
}

/// Decides the step after a reply: an account the exchange already lists is used; else
/// one is opened, funded with `STARTING_CAPITAL_UNITS` roubles and used; where opening
/// fails no account is used (empty id). A reply that answers another request than the
/// step's leaves the step as it is.
pub fn next_account_step(step: AccountStep, reply: AccountReply) -> (next: AccountStep)
    ensures
        match (step, reply) {
            (AccountStep::ListAccounts, AccountReply::Listed(Some(id))) => next == AccountStep::Use(id),
            (AccountStep::ListAccounts, AccountReply::Listed(None)) => next == AccountStep::OpenAccount,
            (AccountStep::OpenAccount, AccountReply::Opened(Some(id))) => next == (AccountStep::Fund {
                account_id: id,
                amount_units: STARTING_CAPITAL_UNITS,
            }),
            (AccountStep::OpenAccount, AccountReply::Opened(None)) => {
                &&& next is Use
                &&& next->Use_0@ == Seq::<char>::empty()
            },
            (AccountStep::Fund { account_id, .. }, AccountReply::Funded) => next == AccountStep::Use(account_id),
            (s, _) => next == s,
        },
{
    match (step, reply) {
        (AccountStep::ListAccounts, AccountReply::Listed(Some(id))) => AccountStep::Use(id),
        (AccountStep::ListAccounts, AccountReply::Listed(None)) => AccountStep::OpenAccount,
        (AccountStep::OpenAccount, AccountReply::Opened(Some(id))) => AccountStep::Fund {
            account_id: id,
            amount_units: STARTING_CAPITAL_UNITS,
        },
        (AccountStep::OpenAccount, AccountReply::Opened(None)) => AccountStep::Use(String::new()),
        (AccountStep::Fund { account_id, .. }, AccountReply::Funded) => AccountStep::Use(account_id),
        (s, _) => s,
    }
}

/// Decides the step after the response to the step's request: `body` is the reply text,
/// `None` where the request failed. The account list and the opening reply are read for
/// their account id (`listed_account_id`, `opened_account_id`); a funding response of any
/// kind ends in using the funded account.
pub fn step_after_response(step: AccountStep, body: Option<&str>) -> (next: AccountStep)
    ensures
        match step {
            AccountStep::ListAccounts => match body {
                Some(b) => match listed_account_id(b@) {
                    Some(id) => next is Use && next->Use_0@ == id,
                    None => next == AccountStep::OpenAccount,
                },
                None => next == AccountStep::OpenAccount,
            },
            AccountStep::OpenAccount => match body {
                Some(b) => match opened_account_id(b@) {
                    Some(id) => next is Fund && next->account_id@ == id && next->amount_units
                        == STARTING_CAPITAL_UNITS,
                    None => next is Use && next->Use_0@ == Seq::<char>::empty(),
                },
                None => next is Use && next->Use_0@ == Seq::<char>::empty(),
            },
            AccountStep::Fund { account_id, .. } => next == AccountStep::Use(account_id),
            AccountStep::Use(id) => next == AccountStep::Use(id),
        },
{
    let reply = match &step {
        AccountStep::ListAccounts => AccountReply::Listed(
            match body {
                Some(b) => read_listed_account_id(b),
                None => None,
            },
        ),
        AccountStep::OpenAccount => AccountReply::Opened(
            match body {
                Some(b) => read_opened_account_id(b),
                None => None,
            },
        ),
        _ => AccountReply::Funded,
    };
    next_account_step(step, reply)
}

} // verus!
