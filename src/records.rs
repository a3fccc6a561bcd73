//! Owned records built from the interface's flat records.
//!
//! Coded fields are lifted to their named values, character buffers are
//! decoded to owned text, and every other field is copied unchanged. Prices
//! and amounts are IEEE-754 doubles on the interface; here they travel as
//! their 64-bit patterns (`f64::to_bits`), so a copy keeps every bit.
use crate::codes::{XTPExchangeType, XTPTbtType, XTPTickerType};
use crate::errors::ConversionError;
use crate::text::{c_text_bytes, carray_to_string, lossy_utf8};
use vstd::prelude::*;
use vstd::std_specs::convert::TryFromSpec;

verus! {

/// Capacity of a ticker buffer.
pub const XTP_TICKER_LEN: usize = 16;

/// Capacity of a ticker name buffer.
pub const XTP_TICKER_NAME_LEN: usize = 64;

/// Capacity of an error message buffer.
pub const XTP_ERR_MSG_LEN: usize = 124;

/// Number of price levels in an order book.
pub const XTP_BOOK_DEPTH: usize = 10;

/// Response information as the interface hands it over.
#[derive(Debug, Clone, Copy)]
pub struct XTPRI {
    pub error_id: i32,
    pub error_msg: [i8; XTP_ERR_MSG_LEN],
}

/// An instrument key as the interface hands it over.
#[derive(Debug, Clone, Copy)]
pub struct XTPST {
    pub exchange_id: u32,
    pub ticker: [i8; XTP_TICKER_LEN],
}

/// An order-book snapshot as the interface hands it over.
#[derive(Debug, Clone, Copy)]
pub struct XTPOB {
    pub exchange_id: u32,
    pub ticker: [i8; XTP_TICKER_LEN],
    /// Bits of an `f64`.
    pub last_price: u64,
    pub qty: i64,
    /// Bits of an `f64`.
    pub turnover: u64,
    pub trades_count: i64,
    /// Bits of `f64`s.
    pub bid: [u64; XTP_BOOK_DEPTH],
    /// Bits of `f64`s.
    pub ask: [u64; XTP_BOOK_DEPTH],
    pub bid_qty: [i64; XTP_BOOK_DEPTH],
    pub ask_qty: [i64; XTP_BOOK_DEPTH],
    pub data_time: i64,
}

/// The envelope of a tick-by-tick record as the interface hands it over.
#[derive(Debug, Clone, Copy)]
pub struct XTPTBT {
    pub exchange_id: u32,
    pub ticker: [i8; XTP_TICKER_LEN],
    pub seq: i64,
    pub data_time: i64,
    pub type_: u32,
}

/// Static information on an instrument as the interface hands it over.
#[derive(Debug, Clone, Copy)]
pub struct XTPQSI {
    pub exchange_id: u32,
    pub ticker: [i8; XTP_TICKER_LEN],
    pub ticker_name: [i8; XTP_TICKER_NAME_LEN],
    pub ticker_type: u32,
    /// Bits of an `f64`.
    pub pre_close_price: u64,
    /// Bits of an `f64`.
    pub upper_limit_price: u64,
    /// Bits of an `f64`.
    pub lower_limit_price: u64,
    /// Bits of an `f64`.
    pub price_tick: u64,
    pub buy_qty_unit: i32,
    pub sell_qty_unit: i32,
}

/// The last price of an instrument as the interface hands it over.
#[derive(Debug, Clone, Copy)]
pub struct XTPTPI {
    pub exchange_id: u32,
    pub ticker: [i8; XTP_TICKER_LEN],
    /// Bits of an `f64`.
    pub last_price: u64,
}

/// The named exchange of a code, or the error.
pub open spec fn exchange_of(c: u32) -> Result<XTPExchangeType, ConversionError> {
    <XTPExchangeType as TryFromSpec<u32>>::try_from_spec(c)
}

/// The owned text of a character buffer.
pub open spec fn text_of(buf: Seq<i8>) -> Seq<char> {
    lossy_utf8(c_text_bytes(buf))
}

/// Conversion of a flat interface record `T` into an owned value.
pub trait FromRaw<T>: Sized {
    /// Every coded field of `raw` lies in the range of its domain.
    spec fn codes_valid(raw: &T) -> bool;

    /// `v` holds what `raw` holds: coded fields lifted, text decoded, the rest
    /// copied.
    spec fn converted_from(v: &Self, raw: &T) -> bool;

    /// Builds the owned value, or fails as a whole when a coded field is out
    /// of range.
    fn from_raw(raw: &T) -> (r: Result<Self, ConversionError>)
        ensures
            r is Ok <==> Self::codes_valid(raw),
            r matches Ok(v) ==> Self::converted_from(&v, raw),
    ;
}

/// Error identifier and message of a response.
#[derive(Debug, Clone)]
pub struct XTPRspInfoStruct {
    pub error_id: i32,
    pub error_msg: String,
}

impl FromRaw<XTPRI> for XTPRspInfoStruct {
    open spec fn codes_valid(raw: &XTPRI) -> bool {
        true
    }

    open spec fn converted_from(v: &Self, raw: &XTPRI) -> bool {
        &&& v.error_id == raw.error_id
        &&& v.error_msg@ == text_of(raw.error_msg@)
    }

    fn from_raw(raw: &XTPRI) -> (r: Result<Self, ConversionError>) {
        Ok(XTPRspInfoStruct {
            error_id: raw.error_id,
            error_msg: carray_to_string(raw.error_msg.as_slice()),
        })
    }
}

/// An instrument: its exchange and ticker. Equal keys name the same
/// instrument.
#[derive(Debug, Clone, PartialEq, Eq, Hash)]
pub struct XTPSpecificTickerStruct {
    pub exchange_id: XTPExchangeType,
    pub ticker: String,
}

impl FromRaw<XTPST> for XTPSpecificTickerStruct {
    open spec fn codes_valid(raw: &XTPST) -> bool {
        1 <= raw.exchange_id <= 3
    }

    open spec fn converted_from(v: &Self, raw: &XTPST) -> bool {
        &&& exchange_of(raw.exchange_id) == Ok::<XTPExchangeType, ConversionError>(v.exchange_id)
        &&& v.ticker@ == text_of(raw.ticker@)
    }

    fn from_raw(raw: &XTPST) -> (r: Result<Self, ConversionError>) {
        let exchange_id = match XTPExchangeType::try_from(raw.exchange_id) {
            Ok(e) => e,
            Err(e) => return Err(e),
        };
        let ticker = carray_to_string(raw.ticker.as_slice());
        Ok(XTPSpecificTickerStruct { exchange_id, ticker })
    }
}

/// An order-book snapshot of an instrument.
#[derive(Debug, Clone)]
pub struct OrderBookStruct {
    pub exchange_id: XTPExchangeType,
    pub ticker: String,
    /// Bits of an `f64`.
    pub last_price: u64,
    pub qty: i64,
    /// Bits of an `f64`.
    pub turnover: u64,
    pub trades_count: i64,
    /// Bits of `f64`s, best price first.
    pub bid: [u64; XTP_BOOK_DEPTH],
    /// Bits of `f64`s, best price first.
    pub ask: [u64; XTP_BOOK_DEPTH],
    pub bid_qty: [i64; XTP_BOOK_DEPTH],
    pub ask_qty: [i64; XTP_BOOK_DEPTH],
    pub data_time: i64,
}

impl FromRaw<XTPOB> for OrderBookStruct {
    open spec fn codes_valid(raw: &XTPOB) -> bool {
        1 <= raw.exchange_id <= 3
    }

    open spec fn converted_from(v: &Self, raw: &XTPOB) -> bool {
        &&& exchange_of(raw.exchange_id) == Ok::<XTPExchangeType, ConversionError>(v.exchange_id)
        &&& v.ticker@ == text_of(raw.ticker@)
        &&& v.last_price == raw.last_price
        &&& v.qty == raw.qty
        &&& v.turnover == raw.turnover
        &&& v.trades_count == raw.trades_count
        &&& v.bid@ == raw.bid@
        &&& v.ask@ == raw.ask@
        &&& v.bid_qty@ == raw.bid_qty@
        &&& v.ask_qty@ == raw.ask_qty@
        &&& v.data_time == raw.data_time
    }

    fn from_raw(ob: &XTPOB) -> (r: Result<Self, ConversionError>) {
        let exchange_id = match XTPExchangeType::try_from(ob.exchange_id) {
            Ok(e) => e,
            Err(e) => return Err(e),
        };
        Ok(OrderBookStruct {
            exchange_id,
            ticker: carray_to_string(ob.ticker.as_slice()),
            last_price: ob.last_price,
            qty: ob.qty,
            turnover: ob.turnover,
            trades_count: ob.trades_count,
            bid: ob.bid,
            ask: ob.ask,
            bid_qty: ob.bid_qty,
            ask_qty: ob.ask_qty,
            data_time: ob.data_time,
        })
    }
}

/// The envelope of a tick-by-tick record.
#[derive(Debug, Clone)]
pub struct XTPTickByTickStruct {
    pub exchange_id: XTPExchangeType,
    pub ticker: String,
    pub seq: i64,
    pub data_time: i64,
    pub type_: XTPTbtType,
}

impl FromRaw<XTPTBT> for XTPTickByTickStruct {
    open spec fn codes_valid(raw: &XTPTBT) -> bool {
        &&& 1 <= raw.exchange_id <= 3
        &&& 1 <= raw.type_ <= 2
    }

    open spec fn converted_from(v: &Self, raw: &XTPTBT) -> bool {
        &&& exchange_of(raw.exchange_id) == Ok::<XTPExchangeType, ConversionError>(v.exchange_id)
        &&& v.ticker@ == text_of(raw.ticker@)
        &&& v.seq == raw.seq
        &&& v.data_time == raw.data_time
        &&& <XTPTbtType as TryFromSpec<u32>>::try_from_spec(raw.type_) == Ok::<
            XTPTbtType,
            ConversionError,
        >(v.type_)
    }

    fn from_raw(tbt: &XTPTBT) -> (r: Result<Self, ConversionError>) {
        let exchange_id = match XTPExchangeType::try_from(tbt.exchange_id) {
            Ok(e) => e,
            Err(e) => return Err(e),
        };
        let type_ = match XTPTbtType::try_from(tbt.type_) {
            Ok(t) => t,
            Err(e) => return Err(e),
        };
        Ok(XTPTickByTickStruct {
            exchange_id,
            ticker: carray_to_string(tbt.ticker.as_slice()),
            seq: tbt.seq,
            data_time: tbt.data_time,
            type_,
        })
    }
}

/// Static information on an instrument.
#[derive(Debug, Clone)]
pub struct XTPQuoteStaticInfo {
    pub exchange_id: XTPExchangeType,
    pub ticker: String,
    pub ticker_name: String,
    pub ticker_type: XTPTickerType,
    /// Bits of an `f64`.
    pub pre_close_price: u64,
    /// Bits of an `f64`.
    pub upper_limit_price: u64,
    /// Bits of an `f64`.
    pub lower_limit_price: u64,
    /// Bits of an `f64`.
    pub price_tick: u64,
    pub buy_qty_unit: i32,
    pub sell_qty_unit: i32,
}

impl FromRaw<XTPQSI> for XTPQuoteStaticInfo {
    open spec fn codes_valid(raw: &XTPQSI) -> bool {
        &&& 1 <= raw.exchange_id <= 3
        &&& raw.ticker_type <= 6
    }

    open spec fn converted_from(v: &Self, raw: &XTPQSI) -> bool {
        &&& exchange_of(raw.exchange_id) == Ok::<XTPExchangeType, ConversionError>(v.exchange_id)
        &&& v.ticker@ == text_of(raw.ticker@)
        &&& v.ticker_name@ == text_of(raw.ticker_name@)
        &&& <XTPTickerType as TryFromSpec<u32>>::try_from_spec(raw.ticker_type) == Ok::<
            XTPTickerType,
            ConversionError,
        >(v.ticker_type)
        &&& v.pre_close_price == raw.pre_close_price
        &&& v.upper_limit_price == raw.upper_limit_price
        &&& v.lower_limit_price == raw.lower_limit_price
        &&& v.price_tick == raw.price_tick
        &&& v.buy_qty_unit == raw.buy_qty_unit
        &&& v.sell_qty_unit == raw.sell_qty_unit
    }

    fn from_raw(qsi: &XTPQSI) -> (r: Result<Self, ConversionError>) {
        let exchange_id = match XTPExchangeType::try_from(qsi.exchange_id) {
            Ok(e) => e,
            Err(e) => return Err(e),
        };
        let ticker_type = match XTPTickerType::try_from(qsi.ticker_type) {
            Ok(t) => t,
            Err(e) => return Err(e),
        };
        Ok(XTPQuoteStaticInfo {
            exchange_id,
            ticker: carray_to_string(qsi.ticker.as_slice()),
            ticker_name: carray_to_string(qsi.ticker_name.as_slice()),
            ticker_type,
            pre_close_price: qsi.pre_close_price,
            upper_limit_price: qsi.upper_limit_price,
            lower_limit_price: qsi.lower_limit_price,
            price_tick: qsi.price_tick,
            buy_qty_unit: qsi.buy_qty_unit,
            sell_qty_unit: qsi.sell_qty_unit,
        })
    }
}

/// The last price of an instrument.
#[derive(Debug, Clone)]
pub struct XTPTickerPriceInfo {
    pub exchange_id: XTPExchangeType,
    pub ticker: String,
    /// Bits of an `f64`.
    pub last_price: u64,
}

impl FromRaw<XTPTPI> for XTPTickerPriceInfo {
    open spec fn codes_valid(raw: &XTPTPI) -> bool {
        1 <= raw.exchange_id <= 3
    }

    open spec fn converted_from(v: &Self, raw: &XTPTPI) -> bool {
        &&& exchange_of(raw.exchange_id) == Ok::<XTPExchangeType, ConversionError>(v.exchange_id)
        &&& v.ticker@ == text_of(raw.ticker@)
        &&& v.last_price == raw.last_price
    }

    fn from_raw(tpi: &XTPTPI) -> (r: Result<Self, ConversionError>) {
        let exchange_id = match XTPExchangeType::try_from(tpi.exchange_id) {
            Ok(e) => e,
            Err(e) => return Err(e),
        };
        Ok(XTPTickerPriceInfo {
            exchange_id,
            ticker: carray_to_string(tpi.ticker.as_slice()),
            last_price: tpi.last_price,
        })
    }
}

} // verus!
