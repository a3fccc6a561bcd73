use xtp::{
    ConversionError, XTPExchangeType, XTPLogLevel, XTPMarketType, XTPOrderActionStatusType,
    XTPOrderStatusType, XTPOrderSubmitStatusType, XTPPositionEffectType, XTPPriceType,
    XTPProtocolType, XTPSideType, XTPTbtType, XTPTeResumeType, XTPTickerType,
};

fn round_trips_u32<T: TryFrom<u32, Error = ConversionError> + Into<u32> + Copy>(lo: u32, hi: u32) {
    for c in lo..=hi {
        let v = T::try_from(c).expect("code in range");
        let back: u32 = v.into();
        assert_eq!(back, c);
    }
}

fn rejects_u32<T: TryFrom<u32, Error = ConversionError> + std::fmt::Debug>(lo: u32, hi: u32) {
    if lo > 0 {
        assert_eq!(T::try_from(lo - 1).unwrap_err(), ConversionError);
        assert_eq!(T::try_from(0).unwrap_err(), ConversionError);
    }
    assert_eq!(T::try_from(hi + 1).unwrap_err(), ConversionError);
    assert_eq!(T::try_from(hi + 100).unwrap_err(), ConversionError);
    assert_eq!(T::try_from(u32::MAX).unwrap_err(), ConversionError);
    assert_eq!(T::try_from((-1i32) as u32).unwrap_err(), ConversionError);
}

#[test]
fn exchange_code_one_is_shanghai() {
    let v = XTPExchangeType::try_from(1u32).unwrap();
    assert_eq!(v, XTPExchangeType::SH);
    let c: u32 = v.into();
    assert_eq!(c, 1);
}

#[test]
fn exchange_code_seven_is_rejected() {
    assert_eq!(XTPExchangeType::try_from(7u32), Err(ConversionError));
}

#[test]
fn exchange_codes_by_name() {
    assert_eq!(XTPExchangeType::try_from(2u32), Ok(XTPExchangeType::SZ));
    assert_eq!(XTPExchangeType::try_from(3u32), Ok(XTPExchangeType::Unknown));
    assert_eq!(XTPExchangeType::try_from(0u32), Err(ConversionError));
    assert_eq!(XTPExchangeType::try_from(4u32), Err(ConversionError));
}

#[test]
fn wide_domains_round_trip() {
    round_trips_u32::<XTPLogLevel>(0, 5);
    round_trips_u32::<XTPProtocolType>(1, 2);
    round_trips_u32::<XTPExchangeType>(1, 3);
    round_trips_u32::<XTPMarketType>(0, 3);
    round_trips_u32::<XTPPriceType>(1, 9);
    round_trips_u32::<XTPOrderActionStatusType>(1, 3);
    round_trips_u32::<XTPOrderStatusType>(0, 7);
    round_trips_u32::<XTPOrderSubmitStatusType>(1, 6);
    round_trips_u32::<XTPTeResumeType>(0, 2);
    round_trips_u32::<XTPTickerType>(0, 6);
    round_trips_u32::<XTPTbtType>(1, 2);
}

#[test]
fn wide_domains_reject_out_of_range() {
    rejects_u32::<XTPLogLevel>(0, 5);
    rejects_u32::<XTPProtocolType>(1, 2);
    rejects_u32::<XTPExchangeType>(1, 3);
    rejects_u32::<XTPMarketType>(0, 3);
    rejects_u32::<XTPPriceType>(1, 9);
    rejects_u32::<XTPOrderActionStatusType>(1, 3);
    rejects_u32::<XTPOrderStatusType>(0, 7);
    rejects_u32::<XTPOrderSubmitStatusType>(1, 6);
    rejects_u32::<XTPTeResumeType>(0, 2);
    rejects_u32::<XTPTickerType>(0, 6);
    rejects_u32::<XTPTbtType>(1, 2);
}

#[test]
fn named_values_of_wide_domains() {
    assert_eq!(XTPLogLevel::try_from(0u32), Ok(XTPLogLevel::Fatal));
    assert_eq!(XTPLogLevel::try_from(5u32), Ok(XTPLogLevel::Trace));
    assert_eq!(XTPProtocolType::try_from(2u32), Ok(XTPProtocolType::UDP));
    assert_eq!(XTPMarketType::try_from(2u32), Ok(XTPMarketType::SHA));
    assert_eq!(XTPPriceType::try_from(9u32), Ok(XTPPriceType::TypeUnknown));
    assert_eq!(XTPOrderStatusType::try_from(5u32), Ok(XTPOrderStatusType::Canceled));
    assert_eq!(
        XTPOrderSubmitStatusType::try_from(6u32),
        Ok(XTPOrderSubmitStatusType::CancelAccepted)
    );
    assert_eq!(XTPTeResumeType::try_from(2u32), Ok(XTPTeResumeType::Quick));
    assert_eq!(XTPTickerType::try_from(4u32), Ok(XTPTickerType::Option));
    assert_eq!(XTPTbtType::try_from(2u32), Ok(XTPTbtType::TRADE));
    let c: u32 = XTPOrderActionStatusType::Rejected.into();
    assert_eq!(c, 3);
}

#[test]
fn side_codes_round_trip() {
    let codes: [u8; 17] = [1, 2, 7, 8, 9, 10, 11, 12, 21, 22, 23, 24, 26, 27, 28, 29, 30];
    for c in codes {
        let v = XTPSideType::try_from(c).unwrap();
        let back: u8 = v.into();
        assert_eq!(back, c);
    }
    assert_eq!(XTPSideType::try_from(1u8), Ok(XTPSideType::Buy));
    assert_eq!(XTPSideType::try_from(26u8), Ok(XTPSideType::StockRepayStock));
    assert_eq!(XTPSideType::try_from(30u8), Ok(XTPSideType::Unknown));
}

#[test]
fn side_codes_rejected() {
    for c in [0u8, 3, 4, 5, 6, 13, 20, 25, 31, 200, 255] {
        assert_eq!(XTPSideType::try_from(c), Err(ConversionError));
    }
    assert_eq!(XTPSideType::try_from((-1i8) as u8), Err(ConversionError));
}

#[test]
fn position_effect_codes() {
    for c in 1u8..=12 {
        let v = XTPPositionEffectType::try_from(c).unwrap();
        let back: u8 = v.into();
        assert_eq!(back, c);
    }
    assert_eq!(XTPPositionEffectType::try_from(0u8), Err(ConversionError));
    assert_eq!(XTPPositionEffectType::try_from(13u8), Err(ConversionError));
    assert_eq!(XTPPositionEffectType::try_from(1u8), Ok(XTPPositionEffectType::Open));
    assert_eq!(XTPPositionEffectType::try_from(12u8), Ok(XTPPositionEffectType::Unknown));
    let init: u8 = XTPPositionEffectType::Init.into();
    assert_eq!(init, 0);
}
