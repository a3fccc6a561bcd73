//! Boundary conversions between the coded integers, fixed text buffers and flat
//! records of the XTP trading interface and owned, strongly-typed values.
pub mod codes;
pub mod errors;
pub mod records;
pub mod text;

pub use codes::{
    XTPExchangeType, XTPLogLevel, XTPMarketType, XTPOrderActionStatusType, XTPOrderStatusType,
    XTPOrderSubmitStatusType, XTPPositionEffectType, XTPPriceType, XTPProtocolType, XTPSideType,
    XTPTbtType, XTPTeResumeType, XTPTickerType,
};
pub use errors::ConversionError;
pub use text::carray_to_string;
pub use records::{
    FromRaw, OrderBookStruct, XTPQuoteStaticInfo, XTPRspInfoStruct, XTPSpecificTickerStruct,
    XTPTickByTickStruct, XTPTickerPriceInfo, XTPOB, XTPQSI, XTPRI, XTPST, XTPTBT, XTPTPI,
    XTP_BOOK_DEPTH, XTP_ERR_MSG_LEN, XTP_TICKER_LEN, XTP_TICKER_NAME_LEN,
};
