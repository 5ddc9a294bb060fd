use crate::signing::{query_view, Query};
use crate::status::{place_order_method, OrderType};
use crate::text::{
    bool_str, bool_to_string, fixed_point_to_string, fixed_str, i64_to_string, int_str,
};
use vstd::prelude::*;

verus! {

/// Decimal places of an order quantity: a quantity is counted in units of 10^-8.
pub const QUANTITY_DECIMALS: u32 = 8;

/// Decimal places of a limit price: a price is counted in units of 10^-2.
pub const PRICE_DECIMALS: u32 = 2;

/// Parameters of `list_orderbook`, in the order that the signature covers.
pub open spec fn orderbook_query(nonce: int, coin_pair: Seq<char>, full: bool) -> Seq<
    (Seq<char>, Seq<char>),
> {
    seq![
        ("tapi_method"@, "list_orderbook"@),
        ("tapi_nonce"@, int_str(nonce)),
        ("coin_pair"@, coin_pair),
        ("full"@, bool_str(full)),
    ]
}

/// Parameters of `place_buy_order` or `place_sell_order`, in the order that the
/// signature covers; quantity and price are fixed-point with 8 and 2 places.
pub open spec fn place_order_query(
    order_type: OrderType,
    nonce: int,
    coin_pair: Seq<char>,
    quantity: nat,
    limit_price: nat,
) -> Seq<(Seq<char>, Seq<char>)> {
    seq![
        ("tapi_method"@, place_order_method(order_type)),
        ("tapi_nonce"@, int_str(nonce)),
        ("coin_pair"@, coin_pair),
        ("quantity"@, fixed_str(quantity, QUANTITY_DECIMALS as nat)),
        ("limit_price"@, fixed_str(limit_price, PRICE_DECIMALS as nat)),
    ]
}

/// Parameters of `get_account_info`, in the order that the signature covers.
pub open spec fn account_info_query(nonce: int) -> Seq<(Seq<char>, Seq<char>)> {
    seq![("tapi_method"@, "get_account_info"@), ("tapi_nonce"@, int_str(nonce))]
}

fn push_param(q: &mut Query, name: &str, value: String)
    ensures
        query_view(*final(q)) == query_view(*old(q)).push((name@, value@)),
{
    q.push((String::from_str(name), value));
    assert(query_view(*final(q)) =~= query_view(*old(q)).push((name@, value@)));
}

/// Parameters of a request for the account's order book of `coin_pair`;
/// `full` asks for every order rather than the top of each side.
pub fn orderbook_params(nonce: i64, coin_pair: String, full: bool) -> (r: Query)
    ensures
        query_view(r) == orderbook_query(nonce as int, coin_pair@, full),
{
    let mut q: Query = Vec::new();
    push_param(&mut q, "tapi_method", String::from_str("list_orderbook"));
    push_param(&mut q, "tapi_nonce", i64_to_string(nonce));
    push_param(&mut q, "coin_pair", coin_pair);
    push_param(&mut q, "full", bool_to_string(full));
    assert(query_view(q) =~= orderbook_query(nonce as int, coin_pair@, full));
    q
}

/// Parameters of a limit order of side `order_type` for `coin_pair`:
/// `quantity` in units of 10^-8, `limit_price` in units of 10^-2.
pub fn place_order_params(
    order_type: OrderType,
    nonce: i64,
    coin_pair: String,
    quantity: u64,
    limit_price: u64,
) -> (r: Query)
    ensures
        query_view(r) == place_order_query(
            order_type,
            nonce as int,
            coin_pair@,
            quantity as nat,
            limit_price as nat,
        ),
{
    let ghost pair = coin_pair@;
    let mut q: Query = Vec::new();
    push_param(&mut q, "tapi_method", order_type.place_order_name());
    push_param(&mut q, "tapi_nonce", i64_to_string(nonce));
    push_param(&mut q, "coin_pair", coin_pair);
    push_param(&mut q, "quantity", fixed_point_to_string(quantity, QUANTITY_DECIMALS));
    push_param(&mut q, "limit_price", fixed_point_to_string(limit_price, PRICE_DECIMALS));
    assert(query_view(q) =~= place_order_query(
        order_type,
        nonce as int,
        pair,
        quantity as nat,
        limit_price as nat,
    ));
    q
}

/// Parameters of a request for the account's balances and withdrawal limits.
pub fn account_info_params(nonce: i64) -> (r: Query)
    ensures
        query_view(r) == account_info_query(nonce as int),
{
    let mut q: Query = Vec::new();
    push_param(&mut q, "tapi_method", String::from_str("get_account_info"));
    push_param(&mut q, "tapi_nonce", i64_to_string(nonce));
    assert(query_view(q) =~= account_info_query(nonce as int));
    q
}

} // verus!
