//! From a webhook's payload to the order that is placed for it.

use vstd::prelude::*;

use crate::text::{lowercase_of, uppercase_of};

verus! {

/// A trading signal as it arrives.
#[derive(Debug, Clone, PartialEq, Eq)]
pub struct WebhookRequest {
    /// "buy" or "sell", in any case.
    pub action: String,
    /// The instrument, in any case.
    pub ticker: String,
    /// The limit price, passed on as it is.
    pub price: String,
}

/// The text of a [`WebhookRequest`].
pub struct WebhookView {
    pub action: Seq<char>,
    pub ticker: Seq<char>,
    pub price: Seq<char>,
}

impl View for WebhookRequest {
    type V = WebhookView;

    open spec fn view(&self) -> WebhookView {
        WebhookView { action: self.action@, ticker: self.ticker@, price: self.price@ }
    }
}

/// An order as the broker's endpoint takes it.
#[derive(Debug, Clone, PartialEq, Eq)]
pub struct AlpacaOrderRequest {
    pub symbol: String,
    pub qty: String,
    pub side: String,
    pub order_type: String,
    pub time_in_force: String,
    pub limit_price: Option<String>,
}

/// The text of an [`AlpacaOrderRequest`].
pub struct OrderView {
    pub symbol: Seq<char>,
    pub qty: Seq<char>,
    pub side: Seq<char>,
    pub order_type: Seq<char>,
    pub time_in_force: Seq<char>,
    pub limit_price: Option<Seq<char>>,
}

impl View for AlpacaOrderRequest {
    type V = OrderView;

    open spec fn view(&self) -> OrderView {
        OrderView {
            symbol: self.symbol@,
            qty: self.qty@,
            side: self.side@,
            order_type: self.order_type@,
            time_in_force: self.time_in_force@,
            limit_price: match self.limit_price {
                Some(price) => Some(price@),
                None => None,
            },
        }
    }
}

/// Why a webhook is turned down before anything is sent.
#[derive(Debug, Clone, Copy, PartialEq, Eq, Structural)]
pub enum ValidationError {
    /// The action, lower-cased, is neither "buy" nor "sell".
    InvalidAction,
}

/// The two sides an order can have.
pub open spec fn is_side(text: Seq<char>) -> bool {
    text == "buy"@ || text == "sell"@
}

/// A text is upper-cased when it is the upper-case form of some text.
pub open spec fn is_upper_cased(text: Seq<char>) -> bool {
    exists|source: Seq<char>| text == #[trigger] uppercase_of(source)
}

/// The order for one unit of `symbol` on `side`, limited at `price`, good for
/// the day.
pub open spec fn limit_day_order(side: Seq<char>, symbol: Seq<char>, price: Seq<char>)
    -> OrderView {
    OrderView {
        symbol,
        qty: "1"@,
        side,
        order_type: "limit"@,
        time_in_force: "day"@,
        limit_price: Some(price),
    }
}

/// What a payload translates to: the action is lower-cased and must be a side,
/// the ticker is upper-cased, the price is kept.
pub open spec fn translation(payload: WebhookView) -> Result<OrderView, ValidationError> {
    if is_side(lowercase_of(payload.action)) {
        Ok(
            limit_day_order(
                lowercase_of(payload.action),
                uppercase_of(payload.ticker),
                payload.price,
            ),
        )
    } else {
        Err(ValidationError::InvalidAction)
    }
}

impl AlpacaOrderRequest {
    /// What holds of every order that [`translate`] makes: a side, an
    /// upper-cased symbol, one unit, a limit price, good for the day.
    pub open spec fn well_formed(&self) -> bool {
        &&& is_side(self.side@)
        &&& is_upper_cased(self.symbol@)
        &&& self.qty@ == "1"@
        &&& self.order_type@ == "limit"@
        &&& self.time_in_force@ == "day"@
        &&& self.limit_price is Some
    }
}

/// Builds the order from an action that is already lower-cased and a symbol
/// that is already upper-cased.
pub fn order_from(side: String, symbol: String, price: String) -> (made: Result<
    AlpacaOrderRequest,
    ValidationError,
>)
    ensures
        is_side(side@) ==> (made matches Ok(order) && order@ == limit_day_order(
            side@,
            symbol@,
            price@,
        )),
        !is_side(side@) ==> made == Err::<AlpacaOrderRequest, ValidationError>(
            ValidationError::InvalidAction,
        ),
{
    let buy = "buy".to_owned();
    let sell = "sell".to_owned();
    if side == buy || side == sell {
        Ok(
            AlpacaOrderRequest {
                symbol,
                qty: "1".to_owned(),
                side,
                order_type: "limit".to_owned(),
                time_in_force: "day".to_owned(),
                limit_price: Some(price),
            },
        )
    } else {
        Err(ValidationError::InvalidAction)
    }
}

/// Translates a webhook's payload into the order to place, or turns it down.
pub fn translate(payload: WebhookRequest) -> (made: Result<AlpacaOrderRequest, ValidationError>)
    ensures
        match translation(payload@) {
            Ok(order) => made matches Ok(o) && o@ == order && o.well_formed(),
            Err(error) => made == Err::<AlpacaOrderRequest, ValidationError>(error),
        },
{
    let side = payload.action.as_str().to_lowercase();
    let symbol = payload.ticker.as_str().to_uppercase();
    order_from(side, symbol, payload.price)
}

} // verus!
