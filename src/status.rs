use vstd::prelude::*;

verus! {

/// Status codes that the trade API reports in every response envelope.
/// Exactly one of them, `Success`, means that the request was carried out.
#[derive(Debug, PartialEq, Eq, Structural, Clone, Copy)]
pub enum ApiStatus {
    /// Success (100).
    Success,
    /// Trading stopped (199).
    TradingHalted,
    /// POST request required (200).
    PostRequestRequired,
    /// Invalid TAPI-ID (201).
    InvalidTapiID,
    /// Invalid TAPI-MAC (202).
    InvalidTapiMac,
    /// Invalid TAPI nonce (203).
    InvalidTapiNonce,
    /// Invalid TAPI method (204).
    InvalidTapiMethod,
    /// Invalid parameter (206).
    InvalidParam,
    /// Request limit exceeded (429).
    RequestLimitExceeded,
    /// Invalid request (430).
    InvalidRequest,
    /// Blocked (431).
    RequestBlocked,
    /// Internal error (500).
    InternalError,
    /// Read-only key (211).
    ReadOnlyKey,
    /// Invalid coin pair (205).
    InvalidCoinPair,
    /// Insufficient BRL balance (207).
    InsuficientBrlBalance,
    /// Insufficient Bitcoin balance (215).
    InsuficientBitcoinBalance,
    /// Insufficient Litecoin balance (216).
    InsuficientLitecoinBalance,
    /// Insufficient BCash balance (232).
    InsuficientBCashBalance,
    /// Insufficient XRP balance (240).
    InsuficientXRPBalance,
    /// Insufficient Ethereum balance (243).
    InsuficientEthereumBalance,
    /// Invalid Bitcoin quantity (222).
    InvalidBitcoinQuantity,
    /// Invalid Litecoin quantity (223).
    InvalidLitecoinQuantity,
    /// Invalid BCash quantity (234).
    InvalidBCashQuantity,
    /// Invalid XRP quantity (242).
    InvalidXRPQuantity,
    /// Invalid Ethereum quantity (245).
    InvalidEthereumQuantity,
    /// Invalid price (224).
    InvalidPrice,
    /// Invalid number of decimal places (227).
    InvalidDecimalCases,
    /// Order still processing (432).
    OrderProcessing,
}

/// The numeric code under which the API sends a status.
pub open spec fn status_code_of(s: ApiStatus) -> u32 {
    match s {
        ApiStatus::Success => 100,
        ApiStatus::TradingHalted => 199,
        ApiStatus::PostRequestRequired => 200,
        ApiStatus::InvalidTapiID => 201,
        ApiStatus::InvalidTapiMac => 202,
        ApiStatus::InvalidTapiNonce => 203,
        ApiStatus::InvalidTapiMethod => 204,
        ApiStatus::InvalidParam => 206,
        ApiStatus::RequestLimitExceeded => 429,
        ApiStatus::InvalidRequest => 430,
        ApiStatus::RequestBlocked => 431,
        ApiStatus::InternalError => 500,
        ApiStatus::ReadOnlyKey => 211,
        ApiStatus::InvalidCoinPair => 205,
        ApiStatus::InsuficientBrlBalance => 207,
        ApiStatus::InsuficientBitcoinBalance => 215,
        ApiStatus::InsuficientLitecoinBalance => 216,
        ApiStatus::InsuficientBCashBalance => 232,
        ApiStatus::InsuficientXRPBalance => 240,
        ApiStatus::InsuficientEthereumBalance => 243,
        ApiStatus::InvalidBitcoinQuantity => 222,
        ApiStatus::InvalidLitecoinQuantity => 223,
        ApiStatus::InvalidBCashQuantity => 234,
        ApiStatus::InvalidXRPQuantity => 242,
        ApiStatus::InvalidEthereumQuantity => 245,
        ApiStatus::InvalidPrice => 224,
        ApiStatus::InvalidDecimalCases => 227,
        ApiStatus::OrderProcessing => 432,
    }
}

/// The status that a numeric code stands for; `None` for a code that the API
/// does not document.
pub open spec fn status_of_code(c: u32) -> Option<ApiStatus> {
    match c {
        100 => Some(ApiStatus::Success),
        199 => Some(ApiStatus::TradingHalted),
        200 => Some(ApiStatus::PostRequestRequired),
        201 => Some(ApiStatus::InvalidTapiID),
        202 => Some(ApiStatus::InvalidTapiMac),
        203 => Some(ApiStatus::InvalidTapiNonce),
        204 => Some(ApiStatus::InvalidTapiMethod),
        206 => Some(ApiStatus::InvalidParam),
        429 => Some(ApiStatus::RequestLimitExceeded),
        430 => Some(ApiStatus::InvalidRequest),
        431 => Some(ApiStatus::RequestBlocked),
        500 => Some(ApiStatus::InternalError),
        211 => Some(ApiStatus::ReadOnlyKey),
        205 => Some(ApiStatus::InvalidCoinPair),
        207 => Some(ApiStatus::InsuficientBrlBalance),
        215 => Some(ApiStatus::InsuficientBitcoinBalance),
        216 => Some(ApiStatus::InsuficientLitecoinBalance),
        232 => Some(ApiStatus::InsuficientBCashBalance),
        240 => Some(ApiStatus::InsuficientXRPBalance),
        243 => Some(ApiStatus::InsuficientEthereumBalance),
        222 => Some(ApiStatus::InvalidBitcoinQuantity),
        223 => Some(ApiStatus::InvalidLitecoinQuantity),
        234 => Some(ApiStatus::InvalidBCashQuantity),
        242 => Some(ApiStatus::InvalidXRPQuantity),
        245 => Some(ApiStatus::InvalidEthereumQuantity),
        224 => Some(ApiStatus::InvalidPrice),
        227 => Some(ApiStatus::InvalidDecimalCases),
        432 => Some(ApiStatus::OrderProcessing),
        _ => None,
    }
}

impl ApiStatus {
    /// The numeric code of this status.
    pub fn code(&self) -> (r: u32)
        ensures
            r == status_code_of(*self),
    {
        match self {
            ApiStatus::Success => 100,
            ApiStatus::TradingHalted => 199,
            ApiStatus::PostRequestRequired => 200,
            ApiStatus::InvalidTapiID => 201,
            ApiStatus::InvalidTapiMac => 202,
            ApiStatus::InvalidTapiNonce => 203,
            ApiStatus::InvalidTapiMethod => 204,
            ApiStatus::InvalidParam => 206,
            ApiStatus::RequestLimitExceeded => 429,
            ApiStatus::InvalidRequest => 430,
            ApiStatus::RequestBlocked => 431,
            ApiStatus::InternalError => 500,
            ApiStatus::ReadOnlyKey => 211,
            ApiStatus::InvalidCoinPair => 205,
            ApiStatus::InsuficientBrlBalance => 207,
            ApiStatus::InsuficientBitcoinBalance => 215,
            ApiStatus::InsuficientLitecoinBalance => 216,
            ApiStatus::InsuficientBCashBalance => 232,
            ApiStatus::InsuficientXRPBalance => 240,
            ApiStatus::InsuficientEthereumBalance => 243,
            ApiStatus::InvalidBitcoinQuantity => 222,
            ApiStatus::InvalidLitecoinQuantity => 223,
            ApiStatus::InvalidBCashQuantity => 234,
            ApiStatus::InvalidXRPQuantity => 242,
            ApiStatus::InvalidEthereumQuantity => 245,
            ApiStatus::InvalidPrice => 224,
            ApiStatus::InvalidDecimalCases => 227,
            ApiStatus::OrderProcessing => 432,
        }
    }

    /// Reads a numeric status code; an undocumented code gives `None`.
    pub fn from_code(c: u32) -> (r: Option<ApiStatus>)
        ensures
            r == status_of_code(c),
    {
        match c {
            100 => Some(ApiStatus::Success),
            199 => Some(ApiStatus::TradingHalted),
            200 => Some(ApiStatus::PostRequestRequired),
            201 => Some(ApiStatus::InvalidTapiID),
            202 => Some(ApiStatus::InvalidTapiMac),
            203 => Some(ApiStatus::InvalidTapiNonce),
            204 => Some(ApiStatus::InvalidTapiMethod),
            206 => Some(ApiStatus::InvalidParam),
            429 => Some(ApiStatus::RequestLimitExceeded),
            430 => Some(ApiStatus::InvalidRequest),
            431 => Some(ApiStatus::RequestBlocked),
            500 => Some(ApiStatus::InternalError),
            211 => Some(ApiStatus::ReadOnlyKey),
            205 => Some(ApiStatus::InvalidCoinPair),
            207 => Some(ApiStatus::InsuficientBrlBalance),
            215 => Some(ApiStatus::InsuficientBitcoinBalance),
            216 => Some(ApiStatus::InsuficientLitecoinBalance),
            232 => Some(ApiStatus::InsuficientBCashBalance),
            240 => Some(ApiStatus::InsuficientXRPBalance),
            243 => Some(ApiStatus::InsuficientEthereumBalance),
            222 => Some(ApiStatus::InvalidBitcoinQuantity),
            223 => Some(ApiStatus::InvalidLitecoinQuantity),
            234 => Some(ApiStatus::InvalidBCashQuantity),
            242 => Some(ApiStatus::InvalidXRPQuantity),
            245 => Some(ApiStatus::InvalidEthereumQuantity),
            224 => Some(ApiStatus::InvalidPrice),
            227 => Some(ApiStatus::InvalidDecimalCases),
            432 => Some(ApiStatus::OrderProcessing),
            _ => None,
        }
    }

    /// Whether this status reports success.
    pub fn is_success(&self) -> (r: bool)
        ensures
            r == (*self == ApiStatus::Success),
    {
        matches!(self, ApiStatus::Success)
    }
}

/// Every status is read back from its own code.
pub proof fn lemma_status_code_round_trip(s: ApiStatus)
    ensures
        status_of_code(status_code_of(s)) == Some(s),
{
}

/// A code is read as a status only when it is that status's code: no other code
/// is taken for a documented one.
pub proof fn lemma_status_of_code_exact(c: u32)
    ensures
        status_of_code(c) is Some ==> status_code_of(status_of_code(c)->Some_0) == c,
        status_of_code(c) is None ==> forall|s: ApiStatus| status_code_of(s) != c,
{
}

/// The side of an order.
#[derive(Debug, PartialEq, Eq, Structural, Clone, Copy)]
pub enum OrderType {
    /// Code 1.
    Buy,
    /// Code 2.
    Sell,
}

/// The trade API method that places an order of the given side.
pub open spec fn place_order_method(t: OrderType) -> Seq<char> {
    match t {
        OrderType::Buy => "place_buy_order"@,
        OrderType::Sell => "place_sell_order"@,
    }
}

/// The order side that a numeric code stands for.
pub open spec fn order_type_of_code(c: u8) -> Option<OrderType> {
    match c {
        1 => Some(OrderType::Buy),
        2 => Some(OrderType::Sell),
        _ => None,
    }
}

impl OrderType {
    /// Reads the numeric code of an order side.
    pub fn from_code(c: u8) -> (r: Option<OrderType>)
        ensures
            r == order_type_of_code(c),
    {
        match c {
            1 => Some(OrderType::Buy),
            2 => Some(OrderType::Sell),
            _ => None,
        }
    }

    /// The name of the API method that places an order of this side.
    pub fn place_order_name(&self) -> (r: String)
        ensures
            r@ == place_order_method(*self),
    {
        match self {
            OrderType::Buy => String::from_str("place_buy_order"),
            OrderType::Sell => String::from_str("place_sell_order"),
        }
    }
}

/// The lifecycle state of an order.
#[derive(Debug, PartialEq, Eq, Structural, Clone, Copy)]
pub enum OrderStatus {
    /// Code 2.
    Open,
    /// Code 3.
    Cancelled,
    /// Code 4.
    Filled,
}

/// The order state that a numeric code stands for.
pub open spec fn order_status_of_code(c: u8) -> Option<OrderStatus> {
    match c {
        2 => Some(OrderStatus::Open),
        3 => Some(OrderStatus::Cancelled),
        4 => Some(OrderStatus::Filled),
        _ => None,
    }
}

impl OrderStatus {
    /// Reads the numeric code of an order state.
    pub fn from_code(c: u8) -> (r: Option<OrderStatus>)
        ensures
            r == order_status_of_code(c),
    {
        match c {
            2 => Some(OrderStatus::Open),
            3 => Some(OrderStatus::Cancelled),
            4 => Some(OrderStatus::Filled),
            _ => None,
        }
    }
}

} // verus!
