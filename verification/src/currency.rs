//! Currencies.
use vstd::prelude::*;

verus! {

/// The currencies that expenses can be kept in (ISO 4217 codes).
#[derive(Debug, Clone, Copy, PartialEq, Eq, Structural)]
pub enum Currency {
    AUD,
    BGN,
    BRL,
    CAD,
    CHF,
    CNY,
    CZK,
    DKK,
    EUR,
    GBP,
    HKD,
    HUF,
    IDR,
    ILS,
    INR,
    ISK,
    JPY,
    KRW,
    MXN,
    MYR,
    NOK,
    NZD,
    PHP,
    PLN,
    RON,
    SEK,
    SGD,
    THB,
    TRY,
    USD,
    ZAR,
}

} // verus!
