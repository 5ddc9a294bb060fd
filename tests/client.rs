use mercado_bitcoin::client::Client;
use mercado_bitcoin::date::CalendarDate;
use mercado_bitcoin::envelope::Error;
use mercado_bitcoin::params::account_info_params;
use mercado_bitcoin::signing::sign_query;

const PUBLIC: &str = "https://www.mercadobitcoin.net/api";
const PRIVATE: &str = "https://www.mercadobitcoin.net/tapi/v3/";

fn full_client() -> Client {
    Client::init(PUBLIC.to_string(), PRIVATE.to_string(), "my-id".to_string(), "my-secret".to_string())
}

#[test]
fn full_client_holds_everything() {
    let c = full_client();
    assert_eq!(c.public_url(), PUBLIC);
    assert_eq!(c.private_url(), PRIVATE);
    assert_eq!(c.identifier(), "my-id");
    assert_eq!(c.secret(), "my-secret");
}

#[test]
fn ticker_url_of_currency() {
    let c = Client::init_public(PUBLIC.to_string());
    assert_eq!(c.ticker_url("BTC").unwrap(), "https://www.mercadobitcoin.net/api/BTC/ticker");
}

#[test]
fn day_summary_url_is_not_padded() {
    let c = Client::init_public(PUBLIC.to_string());
    let date = CalendarDate::new(2021, 3, 4).unwrap();
    assert_eq!(
        c.day_summary_url("BTC", &date).unwrap(),
        "https://www.mercadobitcoin.net/api/BTC/day-summary/2021/3/4"
    );
}

#[test]
fn day_summary_url_of_late_date() {
    let c = full_client();
    let date = CalendarDate::new(1999, 12, 31).unwrap();
    assert_eq!(
        c.day_summary_url("LTC", &date).unwrap(),
        "https://www.mercadobitcoin.net/api/LTC/day-summary/1999/12/31"
    );
}

#[test]
fn public_urls_need_public_client() {
    let c = Client::init_private(PRIVATE.to_string(), "id".to_string(), "s".to_string());
    assert!(matches!(c.ticker_url("BTC"), Err(Error::NotConfigured)));
    let date = CalendarDate::new(2021, 3, 4).unwrap();
    assert!(matches!(c.day_summary_url("BTC", &date), Err(Error::NotConfigured)));
}

#[test]
fn signed_request_needs_credentials() {
    let c = Client::init_public(PUBLIC.to_string());
    assert!(matches!(c.signed_request(account_info_params(1)), Err(Error::NotConfigured)));
}

#[test]
fn signed_request_carries_url_identifier_and_signature() {
    let c = full_client();
    let q = account_info_params(99);
    let r = c.signed_request(q.clone()).unwrap();
    assert_eq!(r.url, PRIVATE);
    assert_eq!(r.identifier, "my-id");
    assert_eq!(r.signature, sign_query("my-secret", &q));
    assert_eq!(r.params, q);
}

#[test]
fn calendar_dates() {
    assert!(CalendarDate::new(2020, 2, 29).is_some());
    assert!(CalendarDate::new(2021, 2, 29).is_none());
    assert!(CalendarDate::new(1900, 2, 29).is_none());
    assert!(CalendarDate::new(2000, 2, 29).is_some());
    assert!(CalendarDate::new(2021, 4, 31).is_none());
    assert!(CalendarDate::new(2021, 13, 1).is_none());
    assert!(CalendarDate::new(2021, 1, 0).is_none());
    assert!(CalendarDate::new(262142, 12, 31).is_some());
    assert!(CalendarDate::new(262143, 1, 1).is_none());
    assert!(CalendarDate::new(-262143, 1, 1).is_some());
    assert!(CalendarDate::new(-262144, 12, 31).is_none());
    let d = CalendarDate::new(2021, 3, 4).unwrap();
    assert_eq!((d.year, d.month, d.day), (2021, 3, 4));
}
