use xtp::{
    ConversionError, FromRaw, OrderBookStruct, XTPExchangeType, XTPQuoteStaticInfo,
    XTPRspInfoStruct, XTPSpecificTickerStruct, XTPTbtType, XTPTickByTickStruct, XTPTickerPriceInfo,
    XTPTickerType, XTPOB, XTPQSI, XTPRI, XTPST, XTPTBT, XTPTPI, XTP_BOOK_DEPTH, XTP_ERR_MSG_LEN,
    XTP_TICKER_LEN, XTP_TICKER_NAME_LEN,
};

fn buffer<const N: usize>(bytes: &[u8]) -> [i8; N] {
    let mut b = [0i8; N];
    for (i, x) in bytes.iter().enumerate() {
        b[i] = *x as i8;
    }
    b
}

fn prices(first: f64, step: f64) -> [u64; XTP_BOOK_DEPTH] {
    let mut p = [0u64; XTP_BOOK_DEPTH];
    for (i, x) in p.iter_mut().enumerate() {
        *x = (first + step * i as f64).to_bits();
    }
    p
}

fn order_book(exchange_id: u32) -> XTPOB {
    XTPOB {
        exchange_id,
        ticker: buffer(b"600000"),
        last_price: 12.34f64.to_bits(),
        qty: 1_500_000,
        turnover: 18_510_000.5f64.to_bits(),
        trades_count: 4321,
        bid: prices(12.30, -0.01),
        ask: prices(12.35, 0.01),
        bid_qty: [100, 200, 300, 400, 500, 600, 700, 800, 900, 1000],
        ask_qty: [11, 22, 33, 44, 55, 66, 77, 88, 99, 110],
        data_time: 20240102093000123,
    }
}

#[test]
fn order_book_is_marshaled() {
    let raw = order_book(2);
    let ob = OrderBookStruct::from_raw(&raw).unwrap();
    assert_eq!(ob.exchange_id, XTPExchangeType::SZ);
    assert_eq!(ob.ticker, "600000");
    assert_eq!(f64::from_bits(ob.last_price), 12.34);
    assert_eq!(ob.qty, 1_500_000);
    assert_eq!(f64::from_bits(ob.turnover), 18_510_000.5);
    assert_eq!(ob.trades_count, 4321);
    assert_eq!(f64::from_bits(ob.bid[0]), 12.30);
    for i in 0..XTP_BOOK_DEPTH {
        assert_eq!(f64::from_bits(ob.bid[i]), f64::from_bits(raw.bid[i]));
        assert_eq!(ob.ask[i], raw.ask[i]);
    }
    assert_eq!(ob.bid_qty, raw.bid_qty);
    assert_eq!(ob.ask_qty, raw.ask_qty);
    assert_eq!(ob.data_time, 20240102093000123);
}

#[test]
fn order_book_keeps_nan_bits() {
    let mut raw = order_book(1);
    let odd_nan = 0x7ff8_0000_dead_beefu64;
    raw.last_price = odd_nan;
    raw.bid[9] = (-0.0f64).to_bits();
    let ob = OrderBookStruct::from_raw(&raw).unwrap();
    assert_eq!(ob.exchange_id, XTPExchangeType::SH);
    assert_eq!(ob.last_price, odd_nan);
    assert_eq!(ob.bid[9], (-0.0f64).to_bits());
}

#[test]
fn order_book_with_bad_exchange_fails() {
    assert_eq!(OrderBookStruct::from_raw(&order_book(7)).unwrap_err(), ConversionError);
    assert_eq!(OrderBookStruct::from_raw(&order_book(0)).unwrap_err(), ConversionError);
}

#[test]
fn response_info_with_invalid_message() {
    let raw = XTPRI { error_id: -1, error_msg: buffer::<XTP_ERR_MSG_LEN>(b"login failed\xff") };
    let info = XTPRspInfoStruct::from_raw(&raw).unwrap();
    assert_eq!(info.error_id, -1);
    assert_eq!(info.error_msg, "login failed\u{FFFD}");
}

#[test]
fn response_info_copies_fields() {
    let raw = XTPRI { error_id: 11000001, error_msg: buffer::<XTP_ERR_MSG_LEN>(b"no such ticker") };
    let info = XTPRspInfoStruct::from_raw(&raw).unwrap();
    assert_eq!(info.error_id, 11000001);
    assert_eq!(info.error_msg, "no such ticker");
}

#[test]
fn instrument_key_is_marshaled() {
    let raw = XTPST { exchange_id: 1, ticker: buffer::<XTP_TICKER_LEN>(b"600519") };
    let key = XTPSpecificTickerStruct::from_raw(&raw).unwrap();
    assert_eq!(key.exchange_id, XTPExchangeType::SH);
    assert_eq!(key.ticker, "600519");
    let same = XTPSpecificTickerStruct { exchange_id: XTPExchangeType::SH, ticker: "600519".to_string() };
    assert_eq!(key, same);
    let other = XTPSpecificTickerStruct { exchange_id: XTPExchangeType::SZ, ticker: "600519".to_string() };
    assert_ne!(key, other);
}

#[test]
fn instrument_key_with_bad_exchange_fails() {
    let raw = XTPST { exchange_id: 4, ticker: buffer::<XTP_TICKER_LEN>(b"600519") };
    assert_eq!(XTPSpecificTickerStruct::from_raw(&raw).unwrap_err(), ConversionError);
}

fn tick_by_tick(exchange_id: u32, type_: u32) -> XTPTBT {
    XTPTBT {
        exchange_id,
        ticker: buffer(b"000001"),
        seq: 987654321,
        data_time: 20240102093000500,
        type_,
    }
}

#[test]
fn tick_by_tick_is_marshaled() {
    let t = XTPTickByTickStruct::from_raw(&tick_by_tick(2, 2)).unwrap();
    assert_eq!(t.exchange_id, XTPExchangeType::SZ);
    assert_eq!(t.ticker, "000001");
    assert_eq!(t.seq, 987654321);
    assert_eq!(t.data_time, 20240102093000500);
    assert_eq!(t.type_, XTPTbtType::TRADE);
    let e = XTPTickByTickStruct::from_raw(&tick_by_tick(1, 1)).unwrap();
    assert_eq!(e.type_, XTPTbtType::ENTRUST);
}

#[test]
fn tick_by_tick_with_bad_codes_fails() {
    assert_eq!(XTPTickByTickStruct::from_raw(&tick_by_tick(9, 1)).unwrap_err(), ConversionError);
    assert_eq!(XTPTickByTickStruct::from_raw(&tick_by_tick(1, 3)).unwrap_err(), ConversionError);
    assert_eq!(XTPTickByTickStruct::from_raw(&tick_by_tick(1, 0)).unwrap_err(), ConversionError);
}

fn static_info(exchange_id: u32, ticker_type: u32) -> XTPQSI {
    XTPQSI {
        exchange_id,
        ticker: buffer(b"510050"),
        ticker_name: buffer::<XTP_TICKER_NAME_LEN>("上证50ETF".as_bytes()),
        ticker_type,
        pre_close_price: 2.468f64.to_bits(),
        upper_limit_price: 2.715f64.to_bits(),
        lower_limit_price: 2.221f64.to_bits(),
        price_tick: 0.001f64.to_bits(),
        buy_qty_unit: 100,
        sell_qty_unit: 1,
    }
}

#[test]
fn static_info_is_marshaled() {
    let q = XTPQuoteStaticInfo::from_raw(&static_info(1, 2)).unwrap();
    assert_eq!(q.exchange_id, XTPExchangeType::SH);
    assert_eq!(q.ticker, "510050");
    assert_eq!(q.ticker_name, "上证50ETF");
    assert_eq!(q.ticker_type, XTPTickerType::Fund);
    assert_eq!(f64::from_bits(q.pre_close_price), 2.468);
    assert_eq!(f64::from_bits(q.upper_limit_price), 2.715);
    assert_eq!(f64::from_bits(q.lower_limit_price), 2.221);
    assert_eq!(f64::from_bits(q.price_tick), 0.001);
    assert_eq!(q.buy_qty_unit, 100);
    assert_eq!(q.sell_qty_unit, 1);
}

#[test]
fn static_info_with_bad_codes_fails() {
    assert_eq!(XTPQuoteStaticInfo::from_raw(&static_info(5, 2)).unwrap_err(), ConversionError);
    assert_eq!(XTPQuoteStaticInfo::from_raw(&static_info(1, 7)).unwrap_err(), ConversionError);
}

#[test]
fn last_price_is_marshaled() {
    let raw = XTPTPI { exchange_id: 3, ticker: buffer(b"000002"), last_price: 7.89f64.to_bits() };
    let p = XTPTickerPriceInfo::from_raw(&raw).unwrap();
    assert_eq!(p.exchange_id, XTPExchangeType::Unknown);
    assert_eq!(p.ticker, "000002");
    assert_eq!(f64::from_bits(p.last_price), 7.89);
}

#[test]
fn last_price_with_bad_exchange_fails() {
    let raw = XTPTPI { exchange_id: u32::MAX, ticker: buffer(b"000002"), last_price: 7.89f64.to_bits() };
    assert_eq!(XTPTickerPriceInfo::from_raw(&raw).unwrap_err(), ConversionError);
}
