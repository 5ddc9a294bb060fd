use mercado_bitcoin::envelope::{decode_envelope, Error, Response};
use mercado_bitcoin::status::{ApiStatus, OrderStatus, OrderType};

#[test]
fn success_envelope_yields_payload() {
    assert!(matches!(decode_envelope(Some("payload"), 100), Ok("payload")));
}

#[test]
fn failure_envelope_yields_api_error() {
    assert!(matches!(decode_envelope(Some(1u8), 203), Err(Error::ApiError(ApiStatus::InvalidTapiNonce))));
    assert!(matches!(decode_envelope::<u8>(None, 429), Err(Error::ApiError(ApiStatus::RequestLimitExceeded))));
    assert!(matches!(decode_envelope::<u8>(None, 432), Err(Error::ApiError(ApiStatus::OrderProcessing))));
}

#[test]
fn undocumented_status_fails_to_decode() {
    for code in [0u32, 1, 99, 101, 208, 433, 501, u32::MAX] {
        assert!(matches!(decode_envelope(Some(1u8), code), Err(Error::UnknownStatus(c)) if c == code));
    }
}

#[test]
fn success_without_payload() {
    assert!(matches!(decode_envelope::<u8>(None, 100), Err(Error::MissingPayload)));
}

#[test]
fn response_parts() {
    let r = Response::from_parts(Some(3u8), 100).unwrap();
    assert!(r.is_success());
    assert!(matches!(r.into_result(), Ok(3)));
    let f = Response::from_parts(Some(3u8), 224).unwrap();
    assert!(!f.is_success());
    assert_eq!(f.status_code, ApiStatus::InvalidPrice);
    assert!(matches!(f.into_result(), Err(Error::ApiError(ApiStatus::InvalidPrice))));
    assert!(matches!(Response::from_parts(Some(3u8), 7), Err(Error::UnknownStatus(7))));
}

#[test]
fn status_codes_round_trip() {
    let all = [
        100, 199, 200, 201, 202, 203, 204, 206, 429, 430, 431, 500, 211, 205, 207, 215, 216, 232,
        240, 243, 222, 223, 234, 242, 245, 224, 227, 432,
    ];
    for code in all {
        let s = ApiStatus::from_code(code).unwrap();
        assert_eq!(s.code(), code);
        assert_eq!(s.is_success(), code == 100);
    }
    assert_eq!(ApiStatus::from_code(215), Some(ApiStatus::InsuficientBitcoinBalance));
    assert_eq!(ApiStatus::from_code(212), None);
}

#[test]
fn order_codes() {
    assert_eq!(OrderType::from_code(1), Some(OrderType::Buy));
    assert_eq!(OrderType::from_code(2), Some(OrderType::Sell));
    assert_eq!(OrderType::from_code(3), None);
    assert_eq!(OrderType::Buy.place_order_name(), "place_buy_order");
    assert_eq!(OrderType::Sell.place_order_name(), "place_sell_order");
    assert_eq!(OrderStatus::from_code(2), Some(OrderStatus::Open));
    assert_eq!(OrderStatus::from_code(3), Some(OrderStatus::Cancelled));
    assert_eq!(OrderStatus::from_code(4), Some(OrderStatus::Filled));
    assert_eq!(OrderStatus::from_code(1), None);
}
