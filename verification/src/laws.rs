//! What holds of the relay for every webhook and every answer of the broker.

use vstd::prelude::*;

use crate::broker::{is_success_status, order_url, BrokerAnswer, ClientView};
use crate::handler::{first_step, health_reply, last_step, ActionView};
use crate::order::{is_side, translation, WebhookView};
use crate::text::{lowercase_of, uppercase_of};
use crate::wire::{json_string_of, order_object};

verus! {

/// A webhook whose action is "buy" or "sell" in any case gets an order, and
/// the order's side is the lower-cased action.
pub proof fn side_is_lowered_action(payload: WebhookView)
    requires
        is_side(lowercase_of(payload.action)),
    ensures
        translation(payload) matches Ok(order) && order.side == lowercase_of(payload.action),
{
}

/// A webhook with any other action is answered with 400 "Invalid action", and
/// no request to the broker comes of it.
pub proof fn other_action_sends_nothing(client: ClientView, payload: WebhookView)
    requires
        !is_side(lowercase_of(payload.action)),
    ensures
        translation(payload) is Err,
        first_step(client, payload) == ActionView::Reply((400u16, "Invalid action"@)),
        !(first_step(client, payload) is Send),
{
}

/// The symbol of every order is the upper-cased ticker, whatever the ticker.
pub proof fn symbol_is_raised_ticker(payload: WebhookView)
    ensures
        translation(payload) matches Ok(order) ==> order.symbol == uppercase_of(payload.ticker),
{
}

/// Every order is for one unit, at a limit, for the day, whatever the webhook.
pub proof fn terms_are_fixed(payload: WebhookView)
    ensures
        translation(payload) matches Ok(order) ==> order.qty == "1"@ && order.order_type
            == "limit"@ && order.time_in_force == "day"@,
{
}

/// The limit price of every order is the webhook's price, unchanged.
pub proof fn limit_price_is_price(payload: WebhookView)
    ensures
        translation(payload) matches Ok(order) ==> order.limit_price == Some(payload.price),
{
}

/// Whatever is sent for a webhook goes to the order endpoint, and its body is
/// the JSON object of the upper-cased ticker, "1", the lower-cased action,
/// "limit", "day" and the price, each as the encoder writes it.
pub proof fn sent_request_is_the_order(client: ClientView, payload: WebhookView)
    ensures
        first_step(client, payload) matches ActionView::Send(request) ==> {
            &&& is_side(lowercase_of(payload.action))
            &&& request.url == order_url(client.base_url)
            &&& request.body == order_object(
                json_string_of(uppercase_of(payload.ticker))->0,
                json_string_of("1"@)->0,
                json_string_of(lowercase_of(payload.action))->0,
                json_string_of("limit"@)->0,
                json_string_of("day"@)->0,
                json_string_of(payload.price)->0,
            )
        },
{
}

/// Where the broker answers with a status of the class 2xx, the webhook is
/// answered with 200 "Order placed successfully".
pub proof fn success_status_replies_ok(status: u16, text: String)
    requires
        is_success_status(status),
    ensures
        last_step(BrokerAnswer::Response { status, text }) == (
            200u16,
            "Order placed successfully"@,
        ),
{
}

/// Where the broker answers with any other status, the webhook is answered
/// with 500 "Failed to place order".
pub proof fn other_status_replies_failure(status: u16, text: String)
    requires
        !is_success_status(status),
    ensures
        last_step(BrokerAnswer::Response { status, text }) == (500u16, "Failed to place order"@),
{
}

/// Where no complete answer arrives, the webhook is answered with 500 "Failed
/// to place order".
pub proof fn transport_failure_replies_failure(message: String)
    ensures
        last_step(BrokerAnswer::TransportFailure { message }) == (
            500u16,
            "Failed to place order"@,
        ),
{
}

/// The health route answers 200 "Server is running". Its reply has no input:
/// neither the broker nor its answer has a part in it.
pub proof fn health_is_ok()
    ensures
        health_reply() == (200u16, "Server is running"@),
{
}

} // verus!
