use mercado_bitcoin::params::{account_info_params, orderbook_params, place_order_params};
use mercado_bitcoin::status::OrderType;

fn owned(list: &[(&str, &str)]) -> Vec<(String, String)> {
    list.iter().map(|(k, v)| (k.to_string(), v.to_string())).collect()
}

#[test]
fn orderbook_params_in_order() {
    let q = orderbook_params(1600000000000000000, "BRLBTC".to_string(), false);
    assert_eq!(
        q,
        owned(&[
            ("tapi_method", "list_orderbook"),
            ("tapi_nonce", "1600000000000000000"),
            ("coin_pair", "BRLBTC"),
            ("full", "false"),
        ])
    );
}

#[test]
fn sell_order_params_in_order() {
    let q = place_order_params(OrderType::Sell, 0, "BRLLTC".to_string(), 5, 0);
    assert_eq!(
        q,
        owned(&[
            ("tapi_method", "place_sell_order"),
            ("tapi_nonce", "0"),
            ("coin_pair", "BRLLTC"),
            ("quantity", "0.00000005"),
            ("limit_price", "0.00"),
        ])
    );
}

#[test]
fn order_params_with_largest_values() {
    let q = place_order_params(OrderType::Buy, i64::MIN, "X".to_string(), u64::MAX, u64::MAX);
    assert_eq!(q[1].1, "-9223372036854775808");
    assert_eq!(q[3].1, "184467440737.09551615");
    assert_eq!(q[4].1, "184467440737095516.15");
}

#[test]
fn account_info_params_in_order() {
    let q = account_info_params(-12);
    assert_eq!(q, owned(&[("tapi_method", "get_account_info"), ("tapi_nonce", "-12")]));
}
