//! The JSON text of an order, as it goes to the broker.

use vstd::prelude::*;
use vstd::string::StringExecFns;

use crate::broker::BrokerError;
use crate::order::{AlpacaOrderRequest, OrderView};

verus! {

/// The error of the JSON encoder. Nothing is known of its content.
#[verifier::external_type_specification]
#[verifier::external_body]
pub struct ExJsonError(serde_json::Error);

/// What `serde_json::to_string` makes of a text: the JSON string literal it
/// writes (the text between double quotes, with the characters escaped that
/// JSON wants escaped), or `None` where it reports an error.
pub uninterp spec fn json_string_of(text: Seq<char>) -> Option<Seq<char>>;

/// `serde_json::to_string`, on a text. Whether the encoder succeeds, and the
/// literal it then returns, depend on the text alone. That it succeeds is not
/// claimed, nor anything of the error it may report.
#[verifier::external_body]
fn json_string(text: &str) -> (encoded: Result<String, serde_json::Error>)
    ensures
        match encoded {
            Ok(json) => json_string_of(text@) == Some(json@),
            Err(_) => json_string_of(text@) is None,
        },
{
    serde_json::to_string(text)
}

/// The JSON value of an optional text: its string literal, or `null`.
pub open spec fn json_optional_string_of(text: Option<Seq<char>>) -> Option<Seq<char>> {
    match text {
        Some(text) => json_string_of(text),
        None => Some("null"@),
    }
}

/// The JSON object of an order whose six values are already JSON text, with
/// the member names and the member order of the broker's endpoint.
pub open spec fn order_object(
    symbol: Seq<char>,
    qty: Seq<char>,
    side: Seq<char>,
    order_type: Seq<char>,
    time_in_force: Seq<char>,
    limit_price: Seq<char>,
) -> Seq<char> {
    "{\"symbol\":"@ + symbol + ",\"qty\":"@ + qty + ",\"side\":"@ + side + ",\"type\":"@
        + order_type + ",\"time_in_force\":"@ + time_in_force + ",\"limit_price\":"@
        + limit_price + "}"@
}

/// The JSON text of an order: the object of its six encoded values, or `None`
/// where the encoder reports an error for one of them.
pub open spec fn order_json(order: OrderView) -> Option<Seq<char>> {
    match (
        json_string_of(order.symbol),
        json_string_of(order.qty),
        json_string_of(order.side),
        json_string_of(order.order_type),
        json_string_of(order.time_in_force),
        json_optional_string_of(order.limit_price),
    ) {
        (
            Some(symbol),
            Some(qty),
            Some(side),
            Some(order_type),
            Some(time_in_force),
            Some(limit_price),
        ) => Some(order_object(symbol, qty, side, order_type, time_in_force, limit_price)),
        _ => None,
    }
}

/// Frames six JSON values as the order object.
pub fn frame_order(
    symbol: &str,
    qty: &str,
    side: &str,
    order_type: &str,
    time_in_force: &str,
    limit_price: &str,
) -> (object: String)
    ensures
        object@ == order_object(
            symbol@,
            qty@,
            side@,
            order_type@,
            time_in_force@,
            limit_price@,
        ),
{
    let mut object = "{\"symbol\":".to_owned();
    object.append(symbol);
    object.append(",\"qty\":");
    object.append(qty);
    object.append(",\"side\":");
    object.append(side);
    object.append(",\"type\":");
    object.append(order_type);
    object.append(",\"time_in_force\":");
    object.append(time_in_force);
    object.append(",\"limit_price\":");
    object.append(limit_price);
    object.append("}");
    object
}

/// Encodes a text as a JSON string literal.
pub fn encode_string(text: &str) -> (encoded: Result<String, BrokerError>)
    ensures
        match json_string_of(text@) {
            Some(json) => encoded matches Ok(made) && made@ == json,
            None => encoded is Err,
        },
{
    match json_string(text) {
        Ok(json) => Ok(json),
        Err(error) => Err(BrokerError { message: error.to_string() }),
    }
}

/// Encodes an optional text as a JSON string literal, or as `null`.
pub fn encode_optional_string(text: &Option<String>) -> (encoded: Result<String, BrokerError>)
    ensures
        match json_optional_string_of(
            match *text {
                Some(text) => Some(text@),
                None => None,
            },
        ) {
            Some(json) => encoded matches Ok(made) && made@ == json,
            None => encoded is Err,
        },
{
    match text {
        Some(text) => encode_string(text.as_str()),
        None => Ok("null".to_owned()),
    }
}

/// Encodes an order as the JSON text that the broker's endpoint takes.
pub fn encode_order(order: &AlpacaOrderRequest) -> (encoded: Result<String, BrokerError>)
    ensures
        match order_json(order@) {
            Some(json) => encoded matches Ok(made) && made@ == json,
            None => encoded is Err,
        },
{
    let symbol = encode_string(order.symbol.as_str())?;
    let qty = encode_string(order.qty.as_str())?;
    let side = encode_string(order.side.as_str())?;
    let order_type = encode_string(order.order_type.as_str())?;
    let time_in_force = encode_string(order.time_in_force.as_str())?;
    let limit_price = encode_optional_string(&order.limit_price)?;
    Ok(
        frame_order(
            symbol.as_str(),
            qty.as_str(),
            side.as_str(),
            order_type.as_str(),
            time_in_force.as_str(),
            limit_price.as_str(),
        ),
    )
}

} // verus!
