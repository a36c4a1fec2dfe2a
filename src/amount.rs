use vstd::prelude::*;

use crate::errors::ConnectorError;

verus! {

/// ISO 4217 currencies, each with its minor-unit exponent.
#[derive(Clone, Copy, Debug, PartialEq, Eq, Structural)]
pub enum Currency {
    AED,
    AFN,
    ALL,
    AMD,
    ANG,
    AOA,
    ARS,
    AUD,
    AWG,
    AZN,
    BAM,
    BBD,
    BDT,
    BGN,
    BHD,
    BIF,
    BMD,
    BND,
    BOB,
    BRL,
    BSD,
    BTN,
    BWP,
    BYN,
    BZD,
    CAD,
    CDF,
    CHF,
    CLP,
    CNY,
    COP,
    CRC,
    CUP,
    CVE,
    CZK,
    DJF,
    DKK,
    DOP,
    DZD,
    EGP,
    ERN,
    ETB,
    EUR,
    FJD,
    FKP,
    GBP,
    GEL,
    GHS,
    GIP,
    GMD,
    GNF,
    GTQ,
    GYD,
    HKD,
    HNL,
    HTG,
    HUF,
    IDR,
    ILS,
    INR,
    IQD,
    IRR,
    ISK,
    JMD,
    JOD,
    JPY,
    KES,
    KGS,
    KHR,
    KMF,
    KPW,
    KRW,
    KWD,
    KYD,
    KZT,
    LAK,
    LBP,
    LKR,
    LRD,
    LSL,
    LYD,
    MAD,
    MDL,
    MGA,
    MKD,
    MMK,
    MNT,
    MOP,
    MRU,
    MUR,
    MVR,
    MWK,
    MXN,
    MYR,
    MZN,
    NAD,
    NGN,
    NIO,
    NOK,
    NPR,
    NZD,
    OMR,
    PAB,
    PEN,
    PGK,
    PHP,
    PKR,
    PLN,
    PYG,
    QAR,
    RON,
    RSD,
    RUB,
    RWF,
    SAR,
    SBD,
    SCR,
    SEK,
    SGD,
    SHP,
    SLE,
    SOS,
    SRD,
    SSP,
    STN,
    SVC,
    SYP,
    SZL,
    THB,
    TJS,
    TMT,
    TND,
    TOP,
    TRY,
    TTD,
    TWD,
    TZS,
    UAH,
    UGX,
    USD,
    UYU,
    UZS,
    VES,
    VND,
    VUV,
    WST,
    XAF,
    XCD,
    XOF,
    XPF,
    YER,
    ZAR,
    ZMW,
    ZWL,
}

impl Currency {
    /// Number of decimal places between the minor unit and the base unit.
    pub open spec fn spec_exponent(self) -> nat {
        match self {
            Currency::BIF | Currency::CLP | Currency::DJF | Currency::GNF | Currency::ISK | Currency::JPY | Currency::KMF | Currency::KRW | Currency::PYG | Currency::RWF | Currency::UGX | Currency::VND | Currency::VUV | Currency::XAF | Currency::XOF | Currency::XPF => 0,
            Currency::BHD | Currency::IQD | Currency::JOD | Currency::KWD | Currency::LYD | Currency::OMR | Currency::TND => 3,
            _ => 2,
        }
    }

    pub fn exponent(&self) -> (r: u32)
        ensures
            r == self.spec_exponent(),
    {
        match self {
            Currency::BIF | Currency::CLP | Currency::DJF | Currency::GNF | Currency::ISK | Currency::JPY | Currency::KMF | Currency::KRW | Currency::PYG | Currency::RWF | Currency::UGX | Currency::VND | Currency::VUV | Currency::XAF | Currency::XOF | Currency::XPF => 0,
            Currency::BHD | Currency::IQD | Currency::JOD | Currency::KWD | Currency::LYD | Currency::OMR | Currency::TND => 3,
            _ => 2,
        }
    }
}

/// The unit in which a gateway expects amounts.
#[derive(Clone, Copy, Debug, PartialEq, Eq, Structural)]
pub enum CurrencyUnit {
    Base,
    Minor,
}

/// A non-negative decimal number `mantissa / 10^scale`, held exactly.
#[derive(Clone, Copy, Debug, PartialEq, Eq, Structural)]
pub struct DecimalAmount {
    pub mantissa: u64,
    pub scale: u32,
}

pub open spec fn pow10(n: nat) -> nat
    decreases n,
{
    if n == 0 {
        1
    } else {
        10 * pow10((n - 1) as nat)
    }
}

/// Scale that an amount normalized for `unit` carries.
pub open spec fn unit_scale(unit: CurrencyUnit, currency: Currency) -> nat {
    match unit {
        CurrencyUnit::Base => currency.spec_exponent(),
        CurrencyUnit::Minor => 0,
    }
}

/// The minor-unit count that a decimal amount, expressed in `unit`, stands for
/// in `currency`, where it is a whole number of minor units.
pub open spec fn minor_units_of(d: DecimalAmount, unit: CurrencyUnit, currency: Currency) -> Option<int> {
    let e = unit_scale(unit, currency);
    let s = d.scale as nat;
    if s <= e {
        Some((d.mantissa * pow10((e - s) as nat)) as int)
    } else if d.mantissa as nat % pow10((s - e) as nat) == 0 {
        Some((d.mantissa as nat / pow10((s - e) as nat)) as int)
    } else {
        None
    }
}

/// The decimal value that a gateway expecting `unit` is sent for `minor` minor
/// units: `minor / 10^exponent` in base units, `minor` itself in minor units.
pub open spec fn normalized_amount(unit: CurrencyUnit, currency: Currency, minor: i64) -> DecimalAmount {
    DecimalAmount { mantissa: minor as u64, scale: unit_scale(unit, currency) as u32 }
}

pub proof fn lemma_pow10_positive(n: nat)
    ensures
        pow10(n) >= 1,
    decreases n,
{
    if n > 0 {
        lemma_pow10_positive((n - 1) as nat);
    }
}

pub proof fn lemma_pow10_monotonic(a: nat, b: nat)
    requires
        a <= b,
    ensures
        pow10(a) <= pow10(b),
    decreases b,
{
    if a < b {
        lemma_pow10_monotonic(a, (b - 1) as nat);
        lemma_pow10_positive((b - 1) as nat);
    }
}

/// Computes `10^n` where it fits in a `u64`.
fn checked_pow10(n: u32) -> (r: Option<u64>)
    ensures
        r matches Some(p) ==> p == pow10(n as nat),
        r is None ==> pow10(n as nat) > u64::MAX,
{
    let mut p: u64 = 1;
    let mut i: u32 = 0;
    while i < n
        invariant
            i <= n,
            p == pow10(i as nat),
        decreases n - i,
    {
        if p > u64::MAX / 10 {
            proof {
                lemma_pow10_monotonic((i + 1) as nat, n as nat);
            }
            return None;
        }
        p = p * 10;
        i = i + 1;
    }
    Some(p)
}

impl DecimalAmount {
    /// Converts back to a count of minor units of `currency`; fails where the
    /// amount is not a whole number of minor units or does not fit an `i64`.
    pub fn to_minor_units(&self, unit: CurrencyUnit, currency: Currency) -> (r: Result<i64, ConnectorError>)
        ensures
            match minor_units_of(*self, unit, currency) {
                Some(v) => if v <= i64::MAX {
                    r == Ok::<i64, ConnectorError>(v as i64)
                } else {
                    r == Err::<i64, ConnectorError>(ConnectorError::AmountConversionFailed)
                },
                None => r == Err::<i64, ConnectorError>(ConnectorError::AmountConversionFailed),
            },
    {
        let e: u32 = match unit {
            CurrencyUnit::Base => currency.exponent(),
            CurrencyUnit::Minor => 0,
        };
        if self.scale <= e {
            match checked_pow10(e - self.scale) {
                Some(p) => {
                    proof {
                        lemma_pow10_positive((e - self.scale) as nat);
                    }
                    if self.mantissa == 0 {
                        return Ok(0);
                    }
                    if self.mantissa > (i64::MAX as u64) / p {
                        proof {
                            assert(self.mantissa * p > i64::MAX) by (nonlinear_arith)
                                requires
                                    self.mantissa > (i64::MAX as u64) / p,
                                    p >= 1,
                            ;
                        }
                        return Err(ConnectorError::AmountConversionFailed);
                    }
                    proof {
                        assert(self.mantissa * p <= i64::MAX) by (nonlinear_arith)
                            requires
                                self.mantissa <= (i64::MAX as u64) / p,
                                p >= 1,
                        ;
                    }
                    Ok((self.mantissa * p) as i64)
                },
                None => {
                    if self.mantissa == 0 {
                        return Ok(0);
                    }
                    proof {
                        let q = pow10((e - self.scale) as nat);
                        assert(self.mantissa * q >= q) by (nonlinear_arith)
                            requires
                                self.mantissa >= 1,
                        ;
                    }
                    Err(ConnectorError::AmountConversionFailed)
                },
            }
        } else {
            match checked_pow10(self.scale - e) {
                Some(p) => {
                    proof {
                        lemma_pow10_positive((self.scale - e) as nat);
                    }
                    if self.mantissa % p != 0 {
                        return Err(ConnectorError::AmountConversionFailed);
                    }
                    let v = self.mantissa / p;
                    proof {
                        assert(v <= self.mantissa) by (nonlinear_arith)
                            requires
                                v == self.mantissa / p,
                                p >= 1,
                        ;
                    }
                    if v > i64::MAX as u64 {
                        return Err(ConnectorError::AmountConversionFailed);
                    }
                    Ok(v as i64)
                },
                None => {
                    proof {
                        let q = pow10((self.scale - e) as nat);
                        vstd::arithmetic::div_mod::lemma_small_mod(self.mantissa as nat, q);
                        vstd::arithmetic::div_mod::lemma_basic_div(self.mantissa as int, q as int);
                    }
                    if self.mantissa == 0 {
                        return Ok(0);
                    }
                    Err(ConnectorError::AmountConversionFailed)
                },
            }
        }
    }
}

/// A normalized amount paired with the canonical data of one outbound call.
pub struct HelcimRouterData<T> {
    pub amount: DecimalAmount,
    pub router_data: T,
}

impl<T> HelcimRouterData<T> {
    /// Normalizes `amount` minor units of `currency` for a gateway that expects
    /// `currency_unit`, and pairs it with `item`. Negative amounts are refused.
    pub fn try_from(currency_unit: &CurrencyUnit, currency: Currency, amount: i64, item: T) -> (r: Result<Self, ConnectorError>)
        ensures
            amount < 0 ==> r matches Err(ConnectorError::AmountConversionFailed),
            amount >= 0 ==> (r matches Ok(d) && d.amount == normalized_amount(*currency_unit, currency, amount)
                && d.router_data == item),
    {
        if amount < 0 {
            return Err(ConnectorError::AmountConversionFailed);
        }
        let scale: u32 = match currency_unit {
            CurrencyUnit::Base => currency.exponent(),
            CurrencyUnit::Minor => 0,
        };
        Ok(HelcimRouterData { amount: DecimalAmount { mantissa: amount as u64, scale }, router_data: item })
    }
}

/// Normalizing a non-negative minor-unit amount and converting it back yields
/// the same amount, in either unit.
pub proof fn lemma_amount_round_trip(unit: CurrencyUnit, currency: Currency, minor: i64)
    requires
        minor >= 0,
    ensures
        minor_units_of(normalized_amount(unit, currency, minor), unit, currency) == Some(minor as int),
{
    let d = normalized_amount(unit, currency, minor);
    assert(unit_scale(unit, currency) <= 3);
    assert(d.scale as nat == unit_scale(unit, currency));
    assert(d.mantissa as int == minor as int);
    let e = unit_scale(unit, currency);
    assert((e - d.scale as nat) as nat == 0);
    assert(pow10(0) == 1);
    assert(d.mantissa * pow10((e - d.scale as nat) as nat) == d.mantissa);
}

} // verus!
