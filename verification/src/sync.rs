use vstd::prelude::*;
use crate::parse::{parse_i64, parsed_i64};

verus! {

/// The text "rub".
pub open spec fn rub_text() -> Seq<char> {
    seq!['r', 'u', 'b']
}

/// A money entry of the portfolio whose currency is the rouble.
pub open spec fn is_rub(currency: Option<String>) -> bool {
    match currency {
        Some(c) => c@ == rub_text(),
        None => false,
    }
}

/// Index of the first money entry in roubles, given the entries' currencies (`None` where
/// an entry names none); `None` where there is no such entry.
pub fn first_rub_entry(currencies: &Vec<Option<String>>) -> (r: Option<usize>)
    ensures
        match r {
            Some(i) => i < currencies@.len() && is_rub(currencies@[i as int])
                && forall|j: int| 0 <= j < i ==> !is_rub(#[trigger] currencies@[j]),
            None => forall|j: int| 0 <= j < currencies@.len() ==> !is_rub(#[trigger] currencies@[j]),
        },
        r is Some ==> currencies@[r->0 as int] is Some && currencies@[r->0 as int]->0@ == seq![
            'r',
            'u',
            'b',
        ],
        forall|j: int|
            0 <= j < currencies@.len() && (#[trigger] currencies@[j]) is Some && currencies@[j]->0@
                == seq!['r', 'u', 'b'] ==> r is Some && r->0 <= j,
{
    let rub = "rub".to_owned();
    proof {
        reveal_strlit("rub");
        assert(rub@ =~= rub_text());
    }
    let mut i: usize = 0;
    while i < currencies.len()
        invariant
            i <= currencies@.len(),
            rub@ == rub_text(),
            forall|j: int| 0 <= j < i ==> !is_rub(#[trigger] currencies@[j]),
        decreases currencies@.len() - i,
    {
        match &currencies[i] {
            Some(c) => {
                if *c == rub {
                    return Some(i);
                }
            },
            None => {},
        }
        i = i + 1;
    }
    None
}

/// The fields of a T-Invest portfolio security object as plain values: each is `None`
/// where the object lacks it or holds a value of another JSON type.
#[derive(Debug, Clone)]
pub struct SecurityJson {
    pub figi: Option<String>,
    pub balance: Option<String>,
}

/// The positive balance that a security entry shows for the instrument `figi` (a balance
/// text that does not parse counts as zero), or `None`.
pub open spec fn held_quantity(sec: SecurityJson, figi: Seq<char>) -> Option<i64> {
    match (sec.figi, sec.balance) {
        (Some(f), Some(b)) => {
            let q = parsed_i64(b@).unwrap_or(0);
            if f@ == figi && q > 0 {
                Some(q)
            } else {
                None
            }
        },
        _ => None,
    }
}

/// The entry is of the instrument `figi` and its balance text parses to `q`.
pub open spec fn shows_balance(sec: SecurityJson, figi: Seq<char>, q: i64) -> bool {
    &&& sec.figi is Some
    &&& sec.figi->0@ == figi
    &&& sec.balance is Some
    &&& parsed_i64(sec.balance->0@) == Some(q)
}

/// Law: exactly the text "rub" names the rouble; an absent currency or any other text does not.
pub proof fn lemma_rub_is_exactly_rub(currency: Option<String>)
    ensures
        is_rub(currency) <==> (currency is Some && currency->0@ == seq!['r', 'u', 'b']),
{
}

/// Law: an entry of the instrument whose balance parses to at least one is held in
/// exactly that quantity; an entry of another instrument, without a balance, or whose
/// balance is not a positive number holds nothing.
pub proof fn lemma_held_quantity_is_positive_balance(sec: SecurityJson, figi: Seq<char>)
    ensures
        sec.figi is Some && sec.figi->0@ == figi && sec.balance is Some && parsed_i64(sec.balance->0@) is Some
            && parsed_i64(sec.balance->0@)->0 >= 1 ==> held_quantity(sec, figi) == parsed_i64(sec.balance->0@),
        held_quantity(sec, figi) is Some ==> held_quantity(sec, figi)->0 >= 1 && sec.figi is Some
            && sec.figi->0@ == figi && sec.balance is Some && parsed_i64(sec.balance->0@) == held_quantity(sec, figi),
{
}

/// The quantity of the position to take over from the exchange: with no position open,
/// the first positive balance held in the instrument `figi`; none where a position is open.
pub fn position_to_restore(securities: &Vec<SecurityJson>, figi: &String, has_position: bool) -> (r: Option<i64>)
    ensures
        has_position ==> r is None,
        !has_position ==> match r {
            Some(q) => exists|i: int|
                0 <= i < securities@.len() && held_quantity(#[trigger] securities@[i], figi@) == Some(q)
                    && forall|j: int| 0 <= j < i ==> held_quantity(#[trigger] securities@[j], figi@) is None,
            None => forall|j: int| 0 <= j < securities@.len() ==> held_quantity(#[trigger] securities@[j], figi@) is None,
        },
        r is Some ==> r->0 >= 1 && exists|i: int|
            0 <= i < securities@.len() && shows_balance(#[trigger] securities@[i], figi@, r->0),
        !has_position && (exists|i: int, q: i64|
            0 <= i < securities@.len() && q >= 1 && #[trigger] shows_balance(securities@[i], figi@, q))
            ==> r is Some,
{
    if has_position {
        return None;
    }
    let mut i: usize = 0;
    while i < securities.len()
        invariant
            !has_position,
            i <= securities@.len(),
            forall|j: int| 0 <= j < i ==> held_quantity(#[trigger] securities@[j], figi@) is None,
        decreases securities@.len() - i,
    {
        let sec = &securities[i];
        match (&sec.figi, &sec.balance) {
            (Some(f), Some(b)) => {
                let q = match parse_i64(b.as_str()) {
                    Some(v) => v,
                    None => 0,
                };
                if *f == *figi && q > 0 {
                    assert(held_quantity(securities@[i as int], figi@) == Some(q));
                    return Some(q);
                }
            },
            _ => {},
        }
        i = i + 1;
    }
    None
}

} // verus!
