use vstd::prelude::*;
use crate::parse::{parse_i64, parse_u64, parsed_i64, parsed_u64};
use crate::domain::price::Price;
use crate::time::{parse_utc, utc_parse, Timestamp};

verus! {

/// A market candle of one instrument.
#[derive(Debug, Clone)]
pub struct Candle {
    pub figi: String,
    pub time: Timestamp,
    pub open: Price,
    pub high: Price,
    pub low: Price,
    pub close: Price,
    pub volume: u64,
    pub volume_buy: u64,
    pub volume_sell: u64,
    pub is_complete: bool,
}

/// The fields of a T-Invest candle object as plain values: each is `None` where the
/// object lacks it or holds a value of another JSON type.
#[derive(Debug, Clone)]
pub struct CandleJson {
    pub time: Option<String>,
    pub open_units: Option<String>,
    pub open_nano: Option<i64>,
    pub high_units: Option<String>,
    pub high_nano: Option<i64>,
    pub low_units: Option<String>,
    pub low_nano: Option<i64>,
    pub close_units: Option<String>,
    pub close_nano: Option<i64>,
    pub volume: Option<String>,
    pub volume_buy: Option<String>,
    pub volume_sell: Option<String>,
    pub is_complete: Option<bool>,
}

/// A quotation in whole roubles and billionths of a rouble.
#[derive(Debug, Clone, Copy, PartialEq, Eq, Structural)]
pub struct Quotation {
    pub units: i64,
    pub nano: i64,
}

/// The values read from a candle object, prices still as quotations.
#[derive(Debug, Clone, Copy, PartialEq, Eq, Structural)]
pub struct CandleFields {
    pub time: Timestamp,
    pub open: Quotation,
    pub high: Quotation,
    pub low: Quotation,
    pub close: Quotation,
    pub volume: u64,
    pub volume_buy: u64,
    pub volume_sell: u64,
    pub is_complete: bool,
}

/// The field that could not be read.
#[derive(Debug, Clone, Copy, PartialEq, Eq, Structural)]
pub enum CandleError {
    Time,
    OpenUnits,
    HighUnits,
    LowUnits,
    CloseUnits,
    Volume,
}

/// The text of a field, or `default` where it is absent.
pub open spec fn text_or(field: Option<String>, default: Seq<char>) -> Seq<char> {
    match field {
        Some(s) => s@,
        None => default,
    }
}

/// The text "0".
pub open spec fn zero_text() -> Seq<char> {
    seq!['0']
}

/// A quotation from its units (`None` where they could not be read) and its nanos
/// (zero where absent).
pub open spec fn quotation_of(units: Option<i64>, nano: Option<i64>) -> Quotation {
    Quotation { units: units->0, nano: nano.unwrap_or(0) }
}

/// What a candle object reads as: the time and the units of the four prices and the
/// volume must parse, in that order (absent texts read as "" for the time and "0" for
/// the numbers); absent nanos are zero; buy and sell volumes that do not parse are zero;
/// an absent completion flag is false.
pub open spec fn candle_fields(j: CandleJson) -> Result<CandleFields, CandleError> {
    let time = utc_parse(text_or(j.time, Seq::empty()));
    let open = parsed_i64(text_or(j.open_units, zero_text()));
    let high = parsed_i64(text_or(j.high_units, zero_text()));
    let low = parsed_i64(text_or(j.low_units, zero_text()));
    let close = parsed_i64(text_or(j.close_units, zero_text()));
    let volume = parsed_u64(text_or(j.volume, zero_text()));
    if time is None {
        Err(CandleError::Time)
    } else if open is None {
        Err(CandleError::OpenUnits)
    } else if high is None {
        Err(CandleError::HighUnits)
    } else if low is None {
        Err(CandleError::LowUnits)
    } else if close is None {
        Err(CandleError::CloseUnits)
    } else if volume is None {
        Err(CandleError::Volume)
    } else {
        Ok(
            CandleFields {
                time: time->0,
                open: quotation_of(open, j.open_nano),
                high: quotation_of(high, j.high_nano),
                low: quotation_of(low, j.low_nano),
                close: quotation_of(close, j.close_nano),
                volume: volume->0,
                volume_buy: parsed_u64(text_or(j.volume_buy, zero_text())).unwrap_or(0),
                volume_sell: parsed_u64(text_or(j.volume_sell, zero_text())).unwrap_or(0),
                is_complete: j.is_complete.unwrap_or(false),
            },
        )
    }
}

fn text_or_default<'a>(field: &'a Option<String>, default: &'a str) -> (s: &'a str)
    ensures
        s@ == text_or(*field, default@),
{
    match field {
        Some(s) => s.as_str(),
        None => default,
    }
}

fn read_units(units: &Option<String>) -> (r: Option<i64>)
    ensures
        r == parsed_i64(text_or(*units, zero_text())),
{
    proof {
        reveal_strlit("0");
        assert("0"@ =~= zero_text());
    }
    parse_i64(text_or_default(units, "0"))
}

fn read_count(count: &Option<String>) -> (r: Option<u64>)
    ensures
        r == parsed_u64(text_or(*count, zero_text())),
{
    proof {
        reveal_strlit("0");
        assert("0"@ =~= zero_text());
    }
    parse_u64(text_or_default(count, "0"))
}

fn nano_or_zero(nano: Option<i64>) -> (r: i64)
    ensures
        r == nano.unwrap_or(0),
{
    match nano {
        Some(n) => n,
        None => 0,
    }
}

/// Reads the values of a T-Invest candle object; see `candle_fields`.
pub fn parse_candle(json: &CandleJson) -> (r: Result<CandleFields, CandleError>)
    ensures
        r == candle_fields(*json),
        r is Ok ==> r->Ok_0.is_complete == (json.is_complete == Some(true)),
        r is Ok ==> r->Ok_0.open.nano == json.open_nano.unwrap_or(0) && r->Ok_0.high.nano
            == json.high_nano.unwrap_or(0) && r->Ok_0.low.nano == json.low_nano.unwrap_or(0)
            && r->Ok_0.close.nano == json.close_nano.unwrap_or(0),
{
    proof {
        reveal_strlit("");
        assert(""@ =~= Seq::<char>::empty());
    }
    let time = match parse_utc(text_or_default(&json.time, "")) {
        Some(t) => t,
        None => return Err(CandleError::Time),
    };
    let open_units = match read_units(&json.open_units) {
        Some(u) => u,
        None => return Err(CandleError::OpenUnits),
    };
    let high_units = match read_units(&json.high_units) {
        Some(u) => u,
        None => return Err(CandleError::HighUnits),
    };
    let low_units = match read_units(&json.low_units) {
        Some(u) => u,
        None => return Err(CandleError::LowUnits),
    };
    let close_units = match read_units(&json.close_units) {
        Some(u) => u,
        None => return Err(CandleError::CloseUnits),
    };
    let volume = match read_count(&json.volume) {
        Some(v) => v,
        None => return Err(CandleError::Volume),
    };
    let volume_buy = match read_count(&json.volume_buy) {
        Some(v) => v,
        None => 0,
    };
    let volume_sell = match read_count(&json.volume_sell) {
        Some(v) => v,
        None => 0,
    };
    let is_complete = match json.is_complete {
        Some(b) => b,
        None => false,
    };
    Ok(CandleFields {
        time,
        open: Quotation { units: open_units, nano: nano_or_zero(json.open_nano) },
        high: Quotation { units: high_units, nano: nano_or_zero(json.high_nano) },
        low: Quotation { units: low_units, nano: nano_or_zero(json.low_nano) },
        close: Quotation { units: close_units, nano: nano_or_zero(json.close_nano) },
        volume,
        volume_buy,
        volume_sell,
        is_complete,
    })
}

/// Law: a candle that reads carries each field of the object: the completion flag as given
/// (an absent flag reads as not complete), the nanos as given (absent ones as zero), and
/// the units, volumes and time as their texts parse.
pub proof fn lemma_candle_carries_its_fields(j: CandleJson)
    requires
        candle_fields(j) is Ok,
    ensures
        ({
            let f = candle_fields(j)->Ok_0;
            &&& f.is_complete <==> j.is_complete == Some(true)
            &&& j.is_complete == Some(false) ==> !f.is_complete
            &&& j.open_nano is Some ==> f.open.nano == j.open_nano->0
            &&& j.open_nano is None ==> f.open.nano == 0
            &&& j.close_nano is Some ==> f.close.nano == j.close_nano->0
            &&& j.close_nano is None ==> f.close.nano == 0
            &&& Some(f.time) == utc_parse(text_or(j.time, Seq::empty()))
            &&& Some(f.open.units) == parsed_i64(text_or(j.open_units, zero_text()))
            &&& Some(f.high.units) == parsed_i64(text_or(j.high_units, zero_text()))
            &&& Some(f.low.units) == parsed_i64(text_or(j.low_units, zero_text()))
            &&& Some(f.close.units) == parsed_i64(text_or(j.close_units, zero_text()))
            &&& Some(f.volume) == parsed_u64(text_or(j.volume, zero_text()))
            &&& parsed_u64(text_or(j.volume_buy, zero_text())) is Some ==> Some(f.volume_buy)
                == parsed_u64(text_or(j.volume_buy, zero_text()))
            &&& parsed_u64(text_or(j.volume_buy, zero_text())) is None ==> f.volume_buy == 0
            &&& parsed_u64(text_or(j.volume_sell, zero_text())) is Some ==> Some(f.volume_sell)
                == parsed_u64(text_or(j.volume_sell, zero_text()))
            &&& parsed_u64(text_or(j.volume_sell, zero_text())) is None ==> f.volume_sell == 0
        }),
{
}

/// Law: a candle reads exactly when its time, the units of its four prices and its
/// volume all parse; the first of them that does not parse, in that order, is the error.
pub proof fn lemma_candle_reads_iff_fields_parse(j: CandleJson)
    ensures
        candle_fields(j) is Ok <==> (utc_parse(text_or(j.time, Seq::empty())) is Some
            && parsed_i64(text_or(j.open_units, zero_text())) is Some
            && parsed_i64(text_or(j.high_units, zero_text())) is Some
            && parsed_i64(text_or(j.low_units, zero_text())) is Some
            && parsed_i64(text_or(j.close_units, zero_text())) is Some
            && parsed_u64(text_or(j.volume, zero_text())) is Some),
        utc_parse(text_or(j.time, Seq::empty())) is None ==> candle_fields(j) == Err::<CandleFields, CandleError>(CandleError::Time),
        utc_parse(text_or(j.time, Seq::empty())) is Some && parsed_i64(text_or(j.open_units, zero_text())) is None
            ==> candle_fields(j) == Err::<CandleFields, CandleError>(CandleError::OpenUnits),
{
}

} // verus!
