use mercado_bitcoin::client::Client;
use mercado_bitcoin::params::{account_info_params, orderbook_params, place_order_params};
use mercado_bitcoin::signing::{sign_query, signing_message, Query};
use mercado_bitcoin::status::OrderType;

fn pairs(list: &[(&str, &str)]) -> Query {
    list.iter().map(|(k, v)| (k.to_string(), v.to_string())).collect()
}

const SECRET: &str = "1ebda7d457ece1330dff1c9e04cd62c4e02d1835968ff89d2fb2339f06f73028";

#[test]
fn signing_message_prefixes_version_path() {
    let q = pairs(&[("tapi_method", "list_orderbook"), ("tapi_nonce", "1")]);
    assert_eq!(signing_message(&q), "/tapi/v3/?tapi_method=list_orderbook&tapi_nonce=1");
}

#[test]
fn signing_message_form_encodes_names_and_values() {
    let q = pairs(&[("a b", "x&y=z"), ("\u{e9}", "*-._~/")]);
    assert_eq!(signing_message(&q), "/tapi/v3/?a+b=x%26y%3Dz&%C3%A9=*-._%7E%2F");
}

#[test]
fn signing_message_of_empty_list() {
    assert_eq!(signing_message(&Vec::new()), "/tapi/v3/?");
}

#[test]
fn signature_matches_reference_vector() {
    let q = orderbook_params(1589453345, "BRLBTC".to_string(), true);
    assert_eq!(
        sign_query(SECRET, &q),
        "523daa388175593dc976dc75c0e31e70ff925db81523b35249cca83a5dd3cb1ca78f196fbabab57455c5b737bbc625e8182b0785dd8df7424dedcc69ab420242"
    );
}

#[test]
fn signature_with_long_key_matches_reference_vector() {
    let secret = "k".repeat(200);
    let q = account_info_params(-3);
    assert_eq!(
        sign_query(&secret, &q),
        "685aa14d0373ba73c973a5f53a24525a72d4626e1127e5e0e1d9a5e5dc5e227d8d8edf6dbc6cf779327b9ae187ffa8ef72cf0adf09def6d16d497e25add19669"
    );
}

#[test]
fn buy_order_formats_quantity_and_price_before_signing() {
    // 1.5 and 200.1234, in units of 10^-8 and 10^-2
    let quantity = (1.5f64 * 1e8).round() as u64;
    let price = (200.1234f64 * 100.0).round() as u64;
    let q = place_order_params(OrderType::Buy, 7, "BRLBTC".to_string(), quantity, price);
    assert_eq!(q[3], ("quantity".to_string(), "1.50000000".to_string()));
    assert_eq!(q[4], ("limit_price".to_string(), "200.12".to_string()));
    assert_eq!(
        signing_message(&q),
        "/tapi/v3/?tapi_method=place_buy_order&tapi_nonce=7&coin_pair=BRLBTC&quantity=1.50000000&limit_price=200.12"
    );
    assert_eq!(
        sign_query("secret", &q),
        "26bcf041612a244b8cdfb30e23250f1af840f84f02ac0d9c8d53311ab9be512d1ab578bbb862342e59fd83c6062cec75b5346f7c8a42a6104dfd5a59a3062a56"
    );
}

#[test]
fn signature_is_deterministic() {
    let q = orderbook_params(42, "BRLETH".to_string(), false);
    let a = sign_query("s3cr3t", &q);
    let b = sign_query("s3cr3t", &q.clone());
    assert_eq!(a, b);
    assert_eq!(a.len(), 128);
    assert!(a.chars().all(|c| c.is_ascii_digit() || ('a'..='f').contains(&c)));
}

#[test]
fn signature_changes_with_value_order_and_secret() {
    let base = pairs(&[("tapi_method", "list_orderbook"), ("tapi_nonce", "1"), ("full", "true")]);
    let changed_value = pairs(&[("tapi_method", "list_orderbook"), ("tapi_nonce", "2"), ("full", "true")]);
    let reordered = pairs(&[("tapi_nonce", "1"), ("tapi_method", "list_orderbook"), ("full", "true")]);
    let s = sign_query("secret", &base);
    assert_ne!(s, sign_query("secret", &changed_value));
    assert_ne!(s, sign_query("secret", &reordered));
    assert_ne!(s, sign_query("secret2", &base));
    assert_ne!(signing_message(&base), signing_message(&reordered));
}

#[test]
fn client_sign_uses_its_secret() {
    let c = Client::init_private("https://example.com/tapi/v3/".to_string(), "id".to_string(), SECRET.to_string());
    let q = orderbook_params(1589453345, "BRLBTC".to_string(), true);
    assert_eq!(c.sign(&q), sign_query(SECRET, &q));
}
