//! Coded domains: each named value stands for one foreign integer code.
//!
//! `T::try_from(c)` lifts a code to its named value, or fails with
//! `ConversionError` when no value has that code; `u32::from(v)` (or `u8` for
//! the two byte-wide domains) lowers a value back to its code.
use crate::errors::ConversionError;
use vstd::prelude::*;
use vstd::std_specs::convert::{FromSpec, FromSpecImpl, TryFromSpec, TryFromSpecImpl};

verus! {

/// Severity of a log line.
#[derive(Debug, Clone, Copy, PartialEq, Eq, Hash)]
pub enum XTPLogLevel {
    /// Fatal error (code 0)
    Fatal,
    /// Error (code 1)
    Error,
    /// Warning (code 2)
    Warning,
    /// Information (code 3)
    Info,
    /// Debugging detail (code 4)
    Debug,
    /// Tracing detail (code 5)
    Trace,
}

impl TryFrom<u32> for XTPLogLevel {
    type Error = ConversionError;

    fn try_from(c: u32) -> (r: Result<Self, ConversionError>) {
        match c {
            0 => Ok(XTPLogLevel::Fatal),
            1 => Ok(XTPLogLevel::Error),
            2 => Ok(XTPLogLevel::Warning),
            3 => Ok(XTPLogLevel::Info),
            4 => Ok(XTPLogLevel::Debug),
            5 => Ok(XTPLogLevel::Trace),
            _ => Err(ConversionError),
        }
    }
}

impl TryFromSpecImpl<u32> for XTPLogLevel {
    open spec fn obeys_try_from_spec() -> bool {
        true
    }

    open spec fn try_from_spec(c: u32) -> Result<Self, ConversionError> {
        match c {
            0 => Ok(XTPLogLevel::Fatal),
            1 => Ok(XTPLogLevel::Error),
            2 => Ok(XTPLogLevel::Warning),
            3 => Ok(XTPLogLevel::Info),
            4 => Ok(XTPLogLevel::Debug),
            5 => Ok(XTPLogLevel::Trace),
            _ => Err(ConversionError),
        }
    }
}

impl From<XTPLogLevel> for u32 {
    fn from(v: XTPLogLevel) -> (r: u32) {
        match v {
            XTPLogLevel::Fatal => 0,
            XTPLogLevel::Error => 1,
            XTPLogLevel::Warning => 2,
            XTPLogLevel::Info => 3,
            XTPLogLevel::Debug => 4,
            XTPLogLevel::Trace => 5,
        }
    }
}

impl FromSpecImpl<XTPLogLevel> for u32 {
    open spec fn obeys_from_spec() -> bool {
        true
    }

    open spec fn from_spec(v: XTPLogLevel) -> u32 {
        match v {
            XTPLogLevel::Fatal => 0,
            XTPLogLevel::Error => 1,
            XTPLogLevel::Warning => 2,
            XTPLogLevel::Info => 3,
            XTPLogLevel::Debug => 4,
            XTPLogLevel::Trace => 5,
        }
    }
}

/// A code between 0 and 5 lifts to the value that lowers back to it; any
/// other code is rejected.
pub proof fn lemma_log_level_codes(c: u32)
    ensures
        0 <= c <= 5 ==> (<XTPLogLevel as TryFromSpec<u32>>::try_from_spec(c) matches Ok(v)
            && <u32 as FromSpec<XTPLogLevel>>::from_spec(v) == c),
        !(0 <= c <= 5) ==> <XTPLogLevel as TryFromSpec<u32>>::try_from_spec(c) is Err,
{
}

/// Transport protocol of a session.
#[derive(Debug, Clone, Copy, PartialEq, Eq, Hash)]
pub enum XTPProtocolType {
    /// Use TCP transmission (code 1)
    TCP,
    /// Use UDP transmission (market data only) (code 2)
    UDP,
}

impl TryFrom<u32> for XTPProtocolType {
    type Error = ConversionError;

    fn try_from(c: u32) -> (r: Result<Self, ConversionError>) {
        match c {
            1 => Ok(XTPProtocolType::TCP),
            2 => Ok(XTPProtocolType::UDP),
            _ => Err(ConversionError),
        }
    }
}

impl TryFromSpecImpl<u32> for XTPProtocolType {
    open spec fn obeys_try_from_spec() -> bool {
        true
    }

    open spec fn try_from_spec(c: u32) -> Result<Self, ConversionError> {
        match c {
            1 => Ok(XTPProtocolType::TCP),
            2 => Ok(XTPProtocolType::UDP),
            _ => Err(ConversionError),
        }
    }
}

impl From<XTPProtocolType> for u32 {
    fn from(v: XTPProtocolType) -> (r: u32) {
        match v {
            XTPProtocolType::TCP => 1,
            XTPProtocolType::UDP => 2,
        }
    }
}

impl FromSpecImpl<XTPProtocolType> for u32 {
    open spec fn obeys_from_spec() -> bool {
        true
    }

    open spec fn from_spec(v: XTPProtocolType) -> u32 {
        match v {
            XTPProtocolType::TCP => 1,
            XTPProtocolType::UDP => 2,
        }
    }
}

/// A code between 1 and 2 lifts to the value that lowers back to it; any
/// other code is rejected.
pub proof fn lemma_protocol_codes(c: u32)
    ensures
        1 <= c <= 2 ==> (<XTPProtocolType as TryFromSpec<u32>>::try_from_spec(c) matches Ok(v)
            && <u32 as FromSpec<XTPProtocolType>>::from_spec(v) == c),
        !(1 <= c <= 2) ==> <XTPProtocolType as TryFromSpec<u32>>::try_from_spec(c) is Err,
{
}

/// Exchange that lists an instrument.
#[derive(Debug, Clone, Copy, PartialEq, Eq, Hash)]
pub enum XTPExchangeType {
    /// Shanghai Exchange (code 1)
    SH,
    /// Shenzhen Exchange (code 2)
    SZ,
    /// Unknown (code 3)
    Unknown,
}

impl TryFrom<u32> for XTPExchangeType {
    type Error = ConversionError;

    fn try_from(c: u32) -> (r: Result<Self, ConversionError>) {
        match c {
            1 => Ok(XTPExchangeType::SH),
            2 => Ok(XTPExchangeType::SZ),
            3 => Ok(XTPExchangeType::Unknown),
            _ => Err(ConversionError),
        }
    }
}

impl TryFromSpecImpl<u32> for XTPExchangeType {
    open spec fn obeys_try_from_spec() -> bool {
        true
    }

    open spec fn try_from_spec(c: u32) -> Result<Self, ConversionError> {
        match c {
            1 => Ok(XTPExchangeType::SH),
            2 => Ok(XTPExchangeType::SZ),
            3 => Ok(XTPExchangeType::Unknown),
            _ => Err(ConversionError),
        }
    }
}

impl From<XTPExchangeType> for u32 {
    fn from(v: XTPExchangeType) -> (r: u32) {
        match v {
            XTPExchangeType::SH => 1,
            XTPExchangeType::SZ => 2,
            XTPExchangeType::Unknown => 3,
        }
    }
}

impl FromSpecImpl<XTPExchangeType> for u32 {
    open spec fn obeys_from_spec() -> bool {
        true
    }

    open spec fn from_spec(v: XTPExchangeType) -> u32 {
        match v {
            XTPExchangeType::SH => 1,
            XTPExchangeType::SZ => 2,
            XTPExchangeType::Unknown => 3,
        }
    }
}

/// A code between 1 and 3 lifts to the value that lowers back to it; any
/// other code is rejected.
pub proof fn lemma_exchange_codes(c: u32)
    ensures
        1 <= c <= 3 ==> (<XTPExchangeType as TryFromSpec<u32>>::try_from_spec(c) matches Ok(v)
            && <u32 as FromSpec<XTPExchangeType>>::from_spec(v) == c),
        !(1 <= c <= 3) ==> <XTPExchangeType as TryFromSpec<u32>>::try_from_spec(c) is Err,
{
}

/// Market segment of an instrument.
#[derive(Debug, Clone, Copy, PartialEq, Eq, Hash)]
pub enum XTPMarketType {
    /// Initializing or unknown (code 0)
    MarketInit,
    /// Shenzhen A (code 1)
    SZA,
    /// Shanghai A (code 2)
    SHA,
    /// Unknown market type (code 3)
    UNKNOWN,
}

impl TryFrom<u32> for XTPMarketType {
    type Error = ConversionError;

    fn try_from(c: u32) -> (r: Result<Self, ConversionError>) {
        match c {
            0 => Ok(XTPMarketType::MarketInit),
            1 => Ok(XTPMarketType::SZA),
            2 => Ok(XTPMarketType::SHA),
            3 => Ok(XTPMarketType::UNKNOWN),
            _ => Err(ConversionError),
        }
    }
}

impl TryFromSpecImpl<u32> for XTPMarketType {
    open spec fn obeys_try_from_spec() -> bool {
        true
    }

    open spec fn try_from_spec(c: u32) -> Result<Self, ConversionError> {
        match c {
            0 => Ok(XTPMarketType::MarketInit),
            1 => Ok(XTPMarketType::SZA),
            2 => Ok(XTPMarketType::SHA),
            3 => Ok(XTPMarketType::UNKNOWN),
            _ => Err(ConversionError),
        }
    }
}

impl From<XTPMarketType> for u32 {
    fn from(v: XTPMarketType) -> (r: u32) {
        match v {
            XTPMarketType::MarketInit => 0,
            XTPMarketType::SZA => 1,
            XTPMarketType::SHA => 2,
            XTPMarketType::UNKNOWN => 3,
        }
    }
}

impl FromSpecImpl<XTPMarketType> for u32 {
    open spec fn obeys_from_spec() -> bool {
        true
    }

    open spec fn from_spec(v: XTPMarketType) -> u32 {
        match v {
            XTPMarketType::MarketInit => 0,
            XTPMarketType::SZA => 1,
            XTPMarketType::SHA => 2,
            XTPMarketType::UNKNOWN => 3,
        }
    }
}

/// A code between 0 and 3 lifts to the value that lowers back to it; any
/// other code is rejected.
pub proof fn lemma_market_codes(c: u32)
    ensures
        0 <= c <= 3 ==> (<XTPMarketType as TryFromSpec<u32>>::try_from_spec(c) matches Ok(v)
            && <u32 as FromSpec<XTPMarketType>>::from_spec(v) == c),
        !(0 <= c <= 3) ==> <XTPMarketType as TryFromSpec<u32>>::try_from_spec(c) is Err,
{
}

/// Pricing instruction of an order.
#[derive(Debug, Clone, Copy, PartialEq, Eq, Hash)]
pub enum XTPPriceType {
    /// Limit order (code 1)
    Limit,
    /// Market order, immediate fill with the rest cancelled (code 2)
    BestOrCancel,
    /// Market order, best five levels with the rest turned into a limit order (code 3)
    BestsOrLimit,
    /// Market order, best five levels with the rest cancelled (code 4)
    BestsOrCancel,
    /// Market order, fill entirely or cancel (code 5)
    AllOrCancel,
    /// Market order at the own side's best price (code 6)
    ForwardBest,
    /// Market order at the other side's best price, the rest turned into a limit order (code 7)
    ReverseBestLimit,
    /// Option limit order, fill entirely or cancel (code 8)
    LimitOrCancel,
    /// Unknown or invalid price type (code 9)
    TypeUnknown,
}

impl TryFrom<u32> for XTPPriceType {
    type Error = ConversionError;

    fn try_from(c: u32) -> (r: Result<Self, ConversionError>) {
        match c {
            1 => Ok(XTPPriceType::Limit),
            2 => Ok(XTPPriceType::BestOrCancel),
            3 => Ok(XTPPriceType::BestsOrLimit),
            4 => Ok(XTPPriceType::BestsOrCancel),
            5 => Ok(XTPPriceType::AllOrCancel),
            6 => Ok(XTPPriceType::ForwardBest),
            7 => Ok(XTPPriceType::ReverseBestLimit),
            8 => Ok(XTPPriceType::LimitOrCancel),
            9 => Ok(XTPPriceType::TypeUnknown),
            _ => Err(ConversionError),
        }
    }
}

impl TryFromSpecImpl<u32> for XTPPriceType {
    open spec fn obeys_try_from_spec() -> bool {
        true
    }

    open spec fn try_from_spec(c: u32) -> Result<Self, ConversionError> {
        match c {
            1 => Ok(XTPPriceType::Limit),
            2 => Ok(XTPPriceType::BestOrCancel),
            3 => Ok(XTPPriceType::BestsOrLimit),
            4 => Ok(XTPPriceType::BestsOrCancel),
            5 => Ok(XTPPriceType::AllOrCancel),
            6 => Ok(XTPPriceType::ForwardBest),
            7 => Ok(XTPPriceType::ReverseBestLimit),
            8 => Ok(XTPPriceType::LimitOrCancel),
            9 => Ok(XTPPriceType::TypeUnknown),
            _ => Err(ConversionError),
        }
    }
}

impl From<XTPPriceType> for u32 {
    fn from(v: XTPPriceType) -> (r: u32) {
        match v {
            XTPPriceType::Limit => 1,
            XTPPriceType::BestOrCancel => 2,
            XTPPriceType::BestsOrLimit => 3,
            XTPPriceType::BestsOrCancel => 4,
            XTPPriceType::AllOrCancel => 5,
            XTPPriceType::ForwardBest => 6,
            XTPPriceType::ReverseBestLimit => 7,
            XTPPriceType::LimitOrCancel => 8,
            XTPPriceType::TypeUnknown => 9,
        }
    }
}

impl FromSpecImpl<XTPPriceType> for u32 {
    open spec fn obeys_from_spec() -> bool {
        true
    }

    open spec fn from_spec(v: XTPPriceType) -> u32 {
        match v {
            XTPPriceType::Limit => 1,
            XTPPriceType::BestOrCancel => 2,
            XTPPriceType::BestsOrLimit => 3,
            XTPPriceType::BestsOrCancel => 4,
            XTPPriceType::AllOrCancel => 5,
            XTPPriceType::ForwardBest => 6,
            XTPPriceType::ReverseBestLimit => 7,
            XTPPriceType::LimitOrCancel => 8,
            XTPPriceType::TypeUnknown => 9,
        }
    }
}

/// A code between 1 and 9 lifts to the value that lowers back to it; any
/// other code is rejected.
pub proof fn lemma_price_codes(c: u32)
    ensures
        1 <= c <= 9 ==> (<XTPPriceType as TryFromSpec<u32>>::try_from_spec(c) matches Ok(v)
            && <u32 as FromSpec<XTPPriceType>>::from_spec(v) == c),
        !(1 <= c <= 9) ==> <XTPPriceType as TryFromSpec<u32>>::try_from_spec(c) is Err,
{
}

/// Direction of an order.
#[derive(Debug, Clone, Copy, PartialEq, Eq, Hash)]
pub enum XTPSideType {
    /// Buy (code 1)
    Buy,
    /// Sell (code 2)
    Sell,
    /// Fund purchase (code 7)
    Purchase,
    /// Fund redemption (code 8)
    Redemption,
    /// Fund split (code 9)
    Split,
    /// Fund merge (code 10)
    Merge,
    /// Covered option (code 11)
    Cover,
    /// Freeze or unfreeze (code 12)
    Freeze,
    /// Buy on margin (code 21)
    MarginTrade,
    /// Short sell (code 22)
    ShortSell,
    /// Sell to repay margin (code 23)
    RepayMargin,
    /// Buy to repay borrowed stock (code 24)
    RepayStock,
    /// Repay borrowed stock with held stock (code 26)
    StockRepayStock,
    /// Transfer of surplus stock (code 27)
    SurstkTrans,
    /// Collateral transfer in (code 28)
    GrtstkTransin,
    /// Collateral transfer out (code 29)
    GrtstkTransout,
    /// Unknown or invalid side (code 30)
    Unknown,
}

impl TryFrom<u8> for XTPSideType {
    type Error = ConversionError;

    fn try_from(c: u8) -> (r: Result<Self, ConversionError>) {
        match c {
            1 => Ok(XTPSideType::Buy),
            2 => Ok(XTPSideType::Sell),
            7 => Ok(XTPSideType::Purchase),
            8 => Ok(XTPSideType::Redemption),
            9 => Ok(XTPSideType::Split),
            10 => Ok(XTPSideType::Merge),
            11 => Ok(XTPSideType::Cover),
            12 => Ok(XTPSideType::Freeze),
            21 => Ok(XTPSideType::MarginTrade),
            22 => Ok(XTPSideType::ShortSell),
            23 => Ok(XTPSideType::RepayMargin),
            24 => Ok(XTPSideType::RepayStock),
            26 => Ok(XTPSideType::StockRepayStock),
            27 => Ok(XTPSideType::SurstkTrans),
            28 => Ok(XTPSideType::GrtstkTransin),
            29 => Ok(XTPSideType::GrtstkTransout),
            30 => Ok(XTPSideType::Unknown),
            _ => Err(ConversionError),
        }
    }
}

impl TryFromSpecImpl<u8> for XTPSideType {
    open spec fn obeys_try_from_spec() -> bool {
        true
    }

    open spec fn try_from_spec(c: u8) -> Result<Self, ConversionError> {
        match c {
            1 => Ok(XTPSideType::Buy),
            2 => Ok(XTPSideType::Sell),
            7 => Ok(XTPSideType::Purchase),
            8 => Ok(XTPSideType::Redemption),
            9 => Ok(XTPSideType::Split),
            10 => Ok(XTPSideType::Merge),
            11 => Ok(XTPSideType::Cover),
            12 => Ok(XTPSideType::Freeze),
            21 => Ok(XTPSideType::MarginTrade),
            22 => Ok(XTPSideType::ShortSell),
            23 => Ok(XTPSideType::RepayMargin),
            24 => Ok(XTPSideType::RepayStock),
            26 => Ok(XTPSideType::StockRepayStock),
            27 => Ok(XTPSideType::SurstkTrans),
            28 => Ok(XTPSideType::GrtstkTransin),
            29 => Ok(XTPSideType::GrtstkTransout),
            30 => Ok(XTPSideType::Unknown),
            _ => Err(ConversionError),
        }
    }
}

impl From<XTPSideType> for u8 {
    fn from(v: XTPSideType) -> (r: u8) {
        match v {
            XTPSideType::Buy => 1,
            XTPSideType::Sell => 2,
            XTPSideType::Purchase => 7,
            XTPSideType::Redemption => 8,
            XTPSideType::Split => 9,
            XTPSideType::Merge => 10,
            XTPSideType::Cover => 11,
            XTPSideType::Freeze => 12,
            XTPSideType::MarginTrade => 21,
            XTPSideType::ShortSell => 22,
            XTPSideType::RepayMargin => 23,
            XTPSideType::RepayStock => 24,
            XTPSideType::StockRepayStock => 26,
            XTPSideType::SurstkTrans => 27,
            XTPSideType::GrtstkTransin => 28,
            XTPSideType::GrtstkTransout => 29,
            XTPSideType::Unknown => 30,
        }
    }
}

impl FromSpecImpl<XTPSideType> for u8 {
    open spec fn obeys_from_spec() -> bool {
        true
    }

    open spec fn from_spec(v: XTPSideType) -> u8 {
        match v {
            XTPSideType::Buy => 1,
            XTPSideType::Sell => 2,
            XTPSideType::Purchase => 7,
            XTPSideType::Redemption => 8,
            XTPSideType::Split => 9,
            XTPSideType::Merge => 10,
            XTPSideType::Cover => 11,
            XTPSideType::Freeze => 12,
            XTPSideType::MarginTrade => 21,
            XTPSideType::ShortSell => 22,
            XTPSideType::RepayMargin => 23,
            XTPSideType::RepayStock => 24,
            XTPSideType::StockRepayStock => 26,
            XTPSideType::SurstkTrans => 27,
            XTPSideType::GrtstkTransin => 28,
            XTPSideType::GrtstkTransout => 29,
            XTPSideType::Unknown => 30,
        }
    }
}

/// The codes that name a side: 1, 2, 7 to 12, 21 to 24 and 26 to 30.
pub open spec fn is_side_code(c: u8) -> bool {
    c == 1 || c == 2 || (7 <= c <= 12) || (21 <= c <= 24) || (26 <= c <= 30)
}

/// A side code lifts to the side that lowers back to it; a byte that names no
/// side, in particular one outside 1 to 30, is rejected.
pub proof fn lemma_side_codes(c: u8)
    ensures
        is_side_code(c) ==> (<XTPSideType as TryFromSpec<u8>>::try_from_spec(c) matches Ok(v)
            && <u8 as FromSpec<XTPSideType>>::from_spec(v) == c),
        !is_side_code(c) ==> <XTPSideType as TryFromSpec<u8>>::try_from_spec(c) is Err,
        !(1 <= c <= 30) ==> <XTPSideType as TryFromSpec<u8>>::try_from_spec(c) is Err,
{
}

/// Opening or closing effect of an order.
///
/// `Init` lowers to 0, but only codes 1 to 12 are lifted.
#[derive(Debug, Clone, Copy, PartialEq, Eq, Hash)]
pub enum XTPPositionEffectType {
    /// Initial value (code 0)
    Init,
    /// Open (code 1)
    Open,
    /// Close (code 2)
    Close,
    /// Forced close (code 3)
    ForceClose,
    /// Close today's position (code 4)
    CloseToday,
    /// Close yesterday's position (code 5)
    CloseYesterday,
    /// Forced reduction (code 6)
    ForceOff,
    /// Local forced close (code 7)
    LocalForceClose,
    /// Forced cover of a credit position (code 8)
    CreditForceCover,
    /// Forced clearing of a credit position (code 9)
    CreditForceClear,
    /// Forced close of a credit debt (code 10)
    CreditForceDebt,
    /// Unconditional forced close of a credit position (code 11)
    CreditForceUncond,
    /// Unknown (code 12)
    Unknown,
}

impl TryFrom<u8> for XTPPositionEffectType {
    type Error = ConversionError;

    fn try_from(c: u8) -> (r: Result<Self, ConversionError>) {
        match c {
            1 => Ok(XTPPositionEffectType::Open),
            2 => Ok(XTPPositionEffectType::Close),
            3 => Ok(XTPPositionEffectType::ForceClose),
            4 => Ok(XTPPositionEffectType::CloseToday),
            5 => Ok(XTPPositionEffectType::CloseYesterday),
            6 => Ok(XTPPositionEffectType::ForceOff),
            7 => Ok(XTPPositionEffectType::LocalForceClose),
            8 => Ok(XTPPositionEffectType::CreditForceCover),
            9 => Ok(XTPPositionEffectType::CreditForceClear),
            10 => Ok(XTPPositionEffectType::CreditForceDebt),
            11 => Ok(XTPPositionEffectType::CreditForceUncond),
            12 => Ok(XTPPositionEffectType::Unknown),
            _ => Err(ConversionError),
        }
    }
}

impl TryFromSpecImpl<u8> for XTPPositionEffectType {
    open spec fn obeys_try_from_spec() -> bool {
        true
    }

    open spec fn try_from_spec(c: u8) -> Result<Self, ConversionError> {
        match c {
            1 => Ok(XTPPositionEffectType::Open),
            2 => Ok(XTPPositionEffectType::Close),
            3 => Ok(XTPPositionEffectType::ForceClose),
            4 => Ok(XTPPositionEffectType::CloseToday),
            5 => Ok(XTPPositionEffectType::CloseYesterday),
            6 => Ok(XTPPositionEffectType::ForceOff),
            7 => Ok(XTPPositionEffectType::LocalForceClose),
            8 => Ok(XTPPositionEffectType::CreditForceCover),
            9 => Ok(XTPPositionEffectType::CreditForceClear),
            10 => Ok(XTPPositionEffectType::CreditForceDebt),
            11 => Ok(XTPPositionEffectType::CreditForceUncond),
            12 => Ok(XTPPositionEffectType::Unknown),
            _ => Err(ConversionError),
        }
    }
}

impl From<XTPPositionEffectType> for u8 {
    fn from(v: XTPPositionEffectType) -> (r: u8) {
        match v {
            XTPPositionEffectType::Init => 0,
            XTPPositionEffectType::Open => 1,
            XTPPositionEffectType::Close => 2,
            XTPPositionEffectType::ForceClose => 3,
            XTPPositionEffectType::CloseToday => 4,
            XTPPositionEffectType::CloseYesterday => 5,
            XTPPositionEffectType::ForceOff => 6,
            XTPPositionEffectType::LocalForceClose => 7,
            XTPPositionEffectType::CreditForceCover => 8,
            XTPPositionEffectType::CreditForceClear => 9,
            XTPPositionEffectType::CreditForceDebt => 10,
            XTPPositionEffectType::CreditForceUncond => 11,
            XTPPositionEffectType::Unknown => 12,
        }
    }
}

impl FromSpecImpl<XTPPositionEffectType> for u8 {
    open spec fn obeys_from_spec() -> bool {
        true
    }

    open spec fn from_spec(v: XTPPositionEffectType) -> u8 {
        match v {
            XTPPositionEffectType::Init => 0,
            XTPPositionEffectType::Open => 1,
            XTPPositionEffectType::Close => 2,
            XTPPositionEffectType::ForceClose => 3,
            XTPPositionEffectType::CloseToday => 4,
            XTPPositionEffectType::CloseYesterday => 5,
            XTPPositionEffectType::ForceOff => 6,
            XTPPositionEffectType::LocalForceClose => 7,
            XTPPositionEffectType::CreditForceCover => 8,
            XTPPositionEffectType::CreditForceClear => 9,
            XTPPositionEffectType::CreditForceDebt => 10,
            XTPPositionEffectType::CreditForceUncond => 11,
            XTPPositionEffectType::Unknown => 12,
        }
    }
}

/// A code between 1 and 12 lifts to the value that lowers back to it; any
/// other code is rejected.
pub proof fn lemma_position_effect_codes(c: u8)
    ensures
        1 <= c <= 12 ==> (<XTPPositionEffectType as TryFromSpec<u8>>::try_from_spec(c) matches Ok(v)
            && <u8 as FromSpec<XTPPositionEffectType>>::from_spec(v) == c),
        !(1 <= c <= 12) ==> <XTPPositionEffectType as TryFromSpec<u8>>::try_from_spec(c) is Err,
{
}

/// State of a cancel request.
#[derive(Debug, Clone, Copy, PartialEq, Eq, Hash)]
pub enum XTPOrderActionStatusType {
    /// Submitted (code 1)
    Submitted,
    /// Accepted (code 2)
    Accepted,
    /// Rejected (code 3)
    Rejected,
}

impl TryFrom<u32> for XTPOrderActionStatusType {
    type Error = ConversionError;

    fn try_from(c: u32) -> (r: Result<Self, ConversionError>) {
        match c {
            1 => Ok(XTPOrderActionStatusType::Submitted),
            2 => Ok(XTPOrderActionStatusType::Accepted),
            3 => Ok(XTPOrderActionStatusType::Rejected),
            _ => Err(ConversionError),
        }
    }
}

impl TryFromSpecImpl<u32> for XTPOrderActionStatusType {
    open spec fn obeys_try_from_spec() -> bool {
        true
    }

    open spec fn try_from_spec(c: u32) -> Result<Self, ConversionError> {
        match c {
            1 => Ok(XTPOrderActionStatusType::Submitted),
            2 => Ok(XTPOrderActionStatusType::Accepted),
            3 => Ok(XTPOrderActionStatusType::Rejected),
            _ => Err(ConversionError),
        }
    }
}

impl From<XTPOrderActionStatusType> for u32 {
    fn from(v: XTPOrderActionStatusType) -> (r: u32) {
        match v {
            XTPOrderActionStatusType::Submitted => 1,
            XTPOrderActionStatusType::Accepted => 2,
            XTPOrderActionStatusType::Rejected => 3,
        }
    }
}

impl FromSpecImpl<XTPOrderActionStatusType> for u32 {
    open spec fn obeys_from_spec() -> bool {
        true
    }

    open spec fn from_spec(v: XTPOrderActionStatusType) -> u32 {
        match v {
            XTPOrderActionStatusType::Submitted => 1,
            XTPOrderActionStatusType::Accepted => 2,
            XTPOrderActionStatusType::Rejected => 3,
        }
    }
}

/// A code between 1 and 3 lifts to the value that lowers back to it; any
/// other code is rejected.
pub proof fn lemma_order_action_status_codes(c: u32)
    ensures
        1 <= c <= 3 ==> (<XTPOrderActionStatusType as TryFromSpec<u32>>::try_from_spec(c) matches Ok(v)
            && <u32 as FromSpec<XTPOrderActionStatusType>>::from_spec(v) == c),
        !(1 <= c <= 3) ==> <XTPOrderActionStatusType as TryFromSpec<u32>>::try_from_spec(c) is Err,
{
}

/// State of an order.
#[derive(Debug, Clone, Copy, PartialEq, Eq, Hash)]
pub enum XTPOrderStatusType {
    /// Initialized (code 0)
    Init,
    /// Fully traded (code 1)
    AllTraded,
    /// Partly traded, rest queueing (code 2)
    PartTradedQueueing,
    /// Partly traded, rest cancelled (code 3)
    PartTradedNotQueueing,
    /// Queueing, nothing traded (code 4)
    NoTradeQueueing,
    /// Cancelled (code 5)
    Canceled,
    /// Rejected (code 6)
    Rejected,
    /// Unknown (code 7)
    Unknown,
}

impl TryFrom<u32> for XTPOrderStatusType {
    type Error = ConversionError;

    fn try_from(c: u32) -> (r: Result<Self, ConversionError>) {
        match c {
            0 => Ok(XTPOrderStatusType::Init),
            1 => Ok(XTPOrderStatusType::AllTraded),
            2 => Ok(XTPOrderStatusType::PartTradedQueueing),
            3 => Ok(XTPOrderStatusType::PartTradedNotQueueing),
            4 => Ok(XTPOrderStatusType::NoTradeQueueing),
            5 => Ok(XTPOrderStatusType::Canceled),
            6 => Ok(XTPOrderStatusType::Rejected),
            7 => Ok(XTPOrderStatusType::Unknown),
            _ => Err(ConversionError),
        }
    }
}

impl TryFromSpecImpl<u32> for XTPOrderStatusType {
    open spec fn obeys_try_from_spec() -> bool {
        true
    }

    open spec fn try_from_spec(c: u32) -> Result<Self, ConversionError> {
        match c {
            0 => Ok(XTPOrderStatusType::Init),
            1 => Ok(XTPOrderStatusType::AllTraded),
            2 => Ok(XTPOrderStatusType::PartTradedQueueing),
            3 => Ok(XTPOrderStatusType::PartTradedNotQueueing),
            4 => Ok(XTPOrderStatusType::NoTradeQueueing),
            5 => Ok(XTPOrderStatusType::Canceled),
            6 => Ok(XTPOrderStatusType::Rejected),
            7 => Ok(XTPOrderStatusType::Unknown),
            _ => Err(ConversionError),
        }
    }
}

impl From<XTPOrderStatusType> for u32 {
    fn from(v: XTPOrderStatusType) -> (r: u32) {
        match v {
            XTPOrderStatusType::Init => 0,
            XTPOrderStatusType::AllTraded => 1,
            XTPOrderStatusType::PartTradedQueueing => 2,
            XTPOrderStatusType::PartTradedNotQueueing => 3,
            XTPOrderStatusType::NoTradeQueueing => 4,
            XTPOrderStatusType::Canceled => 5,
            XTPOrderStatusType::Rejected => 6,
            XTPOrderStatusType::Unknown => 7,
        }
    }
}

impl FromSpecImpl<XTPOrderStatusType> for u32 {
    open spec fn obeys_from_spec() -> bool {
        true
    }

    open spec fn from_spec(v: XTPOrderStatusType) -> u32 {
        match v {
            XTPOrderStatusType::Init => 0,
            XTPOrderStatusType::AllTraded => 1,
            XTPOrderStatusType::PartTradedQueueing => 2,
            XTPOrderStatusType::PartTradedNotQueueing => 3,
            XTPOrderStatusType::NoTradeQueueing => 4,
            XTPOrderStatusType::Canceled => 5,
            XTPOrderStatusType::Rejected => 6,
            XTPOrderStatusType::Unknown => 7,
        }
    }
}

/// A code between 0 and 7 lifts to the value that lowers back to it; any
/// other code is rejected.
pub proof fn lemma_order_status_codes(c: u32)
    ensures
        0 <= c <= 7 ==> (<XTPOrderStatusType as TryFromSpec<u32>>::try_from_spec(c) matches Ok(v)
            && <u32 as FromSpec<XTPOrderStatusType>>::from_spec(v) == c),
        !(0 <= c <= 7) ==> <XTPOrderStatusType as TryFromSpec<u32>>::try_from_spec(c) is Err,
{
}

/// State of an order or cancel submission.
#[derive(Debug, Clone, Copy, PartialEq, Eq, Hash)]
pub enum XTPOrderSubmitStatusType {
    /// Order submitted (code 1)
    InsertSubmitted,
    /// Order accepted (code 2)
    InsertAccepted,
    /// Order rejected (code 3)
    InsertRejected,
    /// Cancel submitted (code 4)
    CancelSubmitted,
    /// Cancel rejected (code 5)
    CancelRejected,
    /// Cancel accepted (code 6)
    CancelAccepted,
}

impl TryFrom<u32> for XTPOrderSubmitStatusType {
    type Error = ConversionError;

    fn try_from(c: u32) -> (r: Result<Self, ConversionError>) {
        match c {
            1 => Ok(XTPOrderSubmitStatusType::InsertSubmitted),
            2 => Ok(XTPOrderSubmitStatusType::InsertAccepted),
            3 => Ok(XTPOrderSubmitStatusType::InsertRejected),
            4 => Ok(XTPOrderSubmitStatusType::CancelSubmitted),
            5 => Ok(XTPOrderSubmitStatusType::CancelRejected),
            6 => Ok(XTPOrderSubmitStatusType::CancelAccepted),
            _ => Err(ConversionError),
        }
    }
}

impl TryFromSpecImpl<u32> for XTPOrderSubmitStatusType {
    open spec fn obeys_try_from_spec() -> bool {
        true
    }

    open spec fn try_from_spec(c: u32) -> Result<Self, ConversionError> {
        match c {
            1 => Ok(XTPOrderSubmitStatusType::InsertSubmitted),
            2 => Ok(XTPOrderSubmitStatusType::InsertAccepted),
            3 => Ok(XTPOrderSubmitStatusType::InsertRejected),
            4 => Ok(XTPOrderSubmitStatusType::CancelSubmitted),
            5 => Ok(XTPOrderSubmitStatusType::CancelRejected),
            6 => Ok(XTPOrderSubmitStatusType::CancelAccepted),
            _ => Err(ConversionError),
        }
    }
}

impl From<XTPOrderSubmitStatusType> for u32 {
    fn from(v: XTPOrderSubmitStatusType) -> (r: u32) {
        match v {
            XTPOrderSubmitStatusType::InsertSubmitted => 1,
            XTPOrderSubmitStatusType::InsertAccepted => 2,
            XTPOrderSubmitStatusType::InsertRejected => 3,
            XTPOrderSubmitStatusType::CancelSubmitted => 4,
            XTPOrderSubmitStatusType::CancelRejected => 5,
            XTPOrderSubmitStatusType::CancelAccepted => 6,
        }
    }
}

impl FromSpecImpl<XTPOrderSubmitStatusType> for u32 {
    open spec fn obeys_from_spec() -> bool {
        true
    }

    open spec fn from_spec(v: XTPOrderSubmitStatusType) -> u32 {
        match v {
            XTPOrderSubmitStatusType::InsertSubmitted => 1,
            XTPOrderSubmitStatusType::InsertAccepted => 2,
            XTPOrderSubmitStatusType::InsertRejected => 3,
            XTPOrderSubmitStatusType::CancelSubmitted => 4,
            XTPOrderSubmitStatusType::CancelRejected => 5,
            XTPOrderSubmitStatusType::CancelAccepted => 6,
        }
    }
}

/// A code between 1 and 6 lifts to the value that lowers back to it; any
/// other code is rejected.
pub proof fn lemma_order_submit_status_codes(c: u32)
    ensures
        1 <= c <= 6 ==> (<XTPOrderSubmitStatusType as TryFromSpec<u32>>::try_from_spec(c) matches Ok(v)
            && <u32 as FromSpec<XTPOrderSubmitStatusType>>::from_spec(v) == c),
        !(1 <= c <= 6) ==> <XTPOrderSubmitStatusType as TryFromSpec<u32>>::try_from_spec(c) is Err,
{
}

/// Where a private stream resumes after login.
#[derive(Debug, Clone, Copy, PartialEq, Eq, Hash)]
pub enum XTPTeResumeType {
    /// Resend from the start of the trading day (code 0)
    Restart,
    /// Resume from the last message received (code 1)
    Resume,
    /// Send only what is published after login (code 2)
    Quick,
}

impl TryFrom<u32> for XTPTeResumeType {
    type Error = ConversionError;

    fn try_from(c: u32) -> (r: Result<Self, ConversionError>) {
        match c {
            0 => Ok(XTPTeResumeType::Restart),
            1 => Ok(XTPTeResumeType::Resume),
            2 => Ok(XTPTeResumeType::Quick),
            _ => Err(ConversionError),
        }
    }
}

impl TryFromSpecImpl<u32> for XTPTeResumeType {
    open spec fn obeys_try_from_spec() -> bool {
        true
    }

    open spec fn try_from_spec(c: u32) -> Result<Self, ConversionError> {
        match c {
            0 => Ok(XTPTeResumeType::Restart),
            1 => Ok(XTPTeResumeType::Resume),
            2 => Ok(XTPTeResumeType::Quick),
            _ => Err(ConversionError),
        }
    }
}

impl From<XTPTeResumeType> for u32 {
    fn from(v: XTPTeResumeType) -> (r: u32) {
        match v {
            XTPTeResumeType::Restart => 0,
            XTPTeResumeType::Resume => 1,
            XTPTeResumeType::Quick => 2,
        }
    }
}

impl FromSpecImpl<XTPTeResumeType> for u32 {
    open spec fn obeys_from_spec() -> bool {
        true
    }

    open spec fn from_spec(v: XTPTeResumeType) -> u32 {
        match v {
            XTPTeResumeType::Restart => 0,
            XTPTeResumeType::Resume => 1,
            XTPTeResumeType::Quick => 2,
        }
    }
}

/// A code between 0 and 2 lifts to the value that lowers back to it; any
/// other code is rejected.
pub proof fn lemma_resume_codes(c: u32)
    ensures
        0 <= c <= 2 ==> (<XTPTeResumeType as TryFromSpec<u32>>::try_from_spec(c) matches Ok(v)
            && <u32 as FromSpec<XTPTeResumeType>>::from_spec(v) == c),
        !(0 <= c <= 2) ==> <XTPTeResumeType as TryFromSpec<u32>>::try_from_spec(c) is Err,
{
}

/// Kind of security.
#[derive(Debug, Clone, Copy, PartialEq, Eq, Hash)]
pub enum XTPTickerType {
    /// Ordinary stock (code 0)
    Stock,
    /// Index (code 1)
    Index,
    /// Fund (code 2)
    Fund,
    /// Bond (code 3)
    Bond,
    /// Option (code 4)
    Option,
    /// Shanghai technology board stock (code 5)
    TechStock,
    /// Unknown (code 6)
    Unknown,
}

impl TryFrom<u32> for XTPTickerType {
    type Error = ConversionError;

    fn try_from(c: u32) -> (r: Result<Self, ConversionError>) {
        match c {
            0 => Ok(XTPTickerType::Stock),
            1 => Ok(XTPTickerType::Index),
            2 => Ok(XTPTickerType::Fund),
            3 => Ok(XTPTickerType::Bond),
            4 => Ok(XTPTickerType::Option),
            5 => Ok(XTPTickerType::TechStock),
            6 => Ok(XTPTickerType::Unknown),
            _ => Err(ConversionError),
        }
    }
}

impl TryFromSpecImpl<u32> for XTPTickerType {
    open spec fn obeys_try_from_spec() -> bool {
        true
    }

    open spec fn try_from_spec(c: u32) -> Result<Self, ConversionError> {
        match c {
            0 => Ok(XTPTickerType::Stock),
            1 => Ok(XTPTickerType::Index),
            2 => Ok(XTPTickerType::Fund),
            3 => Ok(XTPTickerType::Bond),
            4 => Ok(XTPTickerType::Option),
            5 => Ok(XTPTickerType::TechStock),
            6 => Ok(XTPTickerType::Unknown),
            _ => Err(ConversionError),
        }
    }
}

impl From<XTPTickerType> for u32 {
    fn from(v: XTPTickerType) -> (r: u32) {
        match v {
            XTPTickerType::Stock => 0,
            XTPTickerType::Index => 1,
            XTPTickerType::Fund => 2,
            XTPTickerType::Bond => 3,
            XTPTickerType::Option => 4,
            XTPTickerType::TechStock => 5,
            XTPTickerType::Unknown => 6,
        }
    }
}

impl FromSpecImpl<XTPTickerType> for u32 {
    open spec fn obeys_from_spec() -> bool {
        true
    }

    open spec fn from_spec(v: XTPTickerType) -> u32 {
        match v {
            XTPTickerType::Stock => 0,
            XTPTickerType::Index => 1,
            XTPTickerType::Fund => 2,
            XTPTickerType::Bond => 3,
            XTPTickerType::Option => 4,
            XTPTickerType::TechStock => 5,
            XTPTickerType::Unknown => 6,
        }
    }
}

/// A code between 0 and 6 lifts to the value that lowers back to it; any
/// other code is rejected.
pub proof fn lemma_ticker_type_codes(c: u32)
    ensures
        0 <= c <= 6 ==> (<XTPTickerType as TryFromSpec<u32>>::try_from_spec(c) matches Ok(v)
            && <u32 as FromSpec<XTPTickerType>>::from_spec(v) == c),
        !(0 <= c <= 6) ==> <XTPTickerType as TryFromSpec<u32>>::try_from_spec(c) is Err,
{
}

/// Kind of tick-by-tick record.
#[derive(Debug, Clone, Copy, PartialEq, Eq, Hash)]
pub enum XTPTbtType {
    /// Order entrusted (code 1)
    ENTRUST,
    /// Trade (code 2)
    TRADE,
}

impl TryFrom<u32> for XTPTbtType {
    type Error = ConversionError;

    fn try_from(c: u32) -> (r: Result<Self, ConversionError>) {
        match c {
            1 => Ok(XTPTbtType::ENTRUST),
            2 => Ok(XTPTbtType::TRADE),
            _ => Err(ConversionError),
        }
    }
}

impl TryFromSpecImpl<u32> for XTPTbtType {
    open spec fn obeys_try_from_spec() -> bool {
        true
    }

    open spec fn try_from_spec(c: u32) -> Result<Self, ConversionError> {
        match c {
            1 => Ok(XTPTbtType::ENTRUST),
            2 => Ok(XTPTbtType::TRADE),
            _ => Err(ConversionError),
        }
    }
}

impl From<XTPTbtType> for u32 {
    fn from(v: XTPTbtType) -> (r: u32) {
        match v {
            XTPTbtType::ENTRUST => 1,
            XTPTbtType::TRADE => 2,
        }
    }
}

impl FromSpecImpl<XTPTbtType> for u32 {
    open spec fn obeys_from_spec() -> bool {
        true
    }

    open spec fn from_spec(v: XTPTbtType) -> u32 {
        match v {
            XTPTbtType::ENTRUST => 1,
            XTPTbtType::TRADE => 2,
        }
    }
}

/// A code between 1 and 2 lifts to the value that lowers back to it; any
/// other code is rejected.
pub proof fn lemma_tbt_codes(c: u32)
    ensures
        1 <= c <= 2 ==> (<XTPTbtType as TryFromSpec<u32>>::try_from_spec(c) matches Ok(v)
            && <u32 as FromSpec<XTPTbtType>>::from_spec(v) == c),
        !(1 <= c <= 2) ==> <XTPTbtType as TryFromSpec<u32>>::try_from_spec(c) is Err,
{
}

} // verus!
