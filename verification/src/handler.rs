//! The two routes of the service: what each replies, and what the webhook
//! route asks of the broker before it replies.

use vstd::prelude::*;

use crate::broker::{
    is_success_status, order_post, place_order_outcome, AlpacaClient, BrokerAnswer, BrokerError,
    ClientView, PostRequest, PostView,
};
use crate::order::{translate, translation, WebhookRequest, WebhookView};
use crate::wire::order_json;

verus! {

/// The reply to an HTTP request: a status code and a body of plain text.
#[derive(Debug, Clone, PartialEq, Eq)]
pub struct HttpReply {
    pub status: u16,
    pub body: String,
}

impl View for HttpReply {
    type V = (u16, Seq<char>);

    open spec fn view(&self) -> (u16, Seq<char>) {
        (self.status, self.body@)
    }
}

/// What the webhook route does next.
#[derive(Debug, Clone, PartialEq, Eq)]
pub enum WebhookAction {
    /// Reply at once; nothing is sent to the broker.
    Reply(HttpReply),
    /// Send this request to the broker, then reply by [`finish_webhook`].
    Send(PostRequest),
}

/// What the webhook route does next, as text.
pub enum ActionView {
    Reply((u16, Seq<char>)),
    Send(PostView),
}

impl View for WebhookAction {
    type V = ActionView;

    open spec fn view(&self) -> ActionView {
        match self {
            WebhookAction::Reply(reply) => ActionView::Reply(reply@),
            WebhookAction::Send(request) => ActionView::Send(request@),
        }
    }
}

/// The reply of the health route.
pub open spec fn health_reply() -> (u16, Seq<char>) {
    (200, "Server is running"@)
}

/// The reply to a webhook whose action is no side.
pub open spec fn invalid_action_reply() -> (u16, Seq<char>) {
    (400, "Invalid action"@)
}

/// The reply to a webhook whose order was placed.
pub open spec fn placed_reply() -> (u16, Seq<char>) {
    (200, "Order placed successfully"@)
}

/// The reply to a webhook whose order was not placed.
pub open spec fn failed_reply() -> (u16, Seq<char>) {
    (500, "Failed to place order"@)
}

/// The first step for a payload: turn it down, send its order, or give up
/// where the order has no JSON text.
pub open spec fn first_step(client: ClientView, payload: WebhookView) -> ActionView {
    match translation(payload) {
        Err(_) => ActionView::Reply(invalid_action_reply()),
        Ok(order) => match order_json(order) {
            Some(body) => ActionView::Send(order_post(client, body)),
            None => ActionView::Reply(failed_reply()),
        },
    }
}

/// The reply once the broker's answer is in: success on a 2xx status, failure
/// on every other status and on every transport failure.
pub open spec fn last_step(answer: BrokerAnswer) -> (u16, Seq<char>) {
    match answer {
        BrokerAnswer::Response { status, .. } => if is_success_status(status) {
            placed_reply()
        } else {
            failed_reply()
        },
        BrokerAnswer::TransportFailure { .. } => failed_reply(),
    }
}

/// `GET /health`: the service is up. Nothing is asked of the broker.
pub fn health_check() -> (reply: HttpReply)
    ensures
        reply@ == health_reply(),
{
    HttpReply { status: 200, body: "Server is running".to_owned() }
}

/// The reply for the outcome of placing an order.
pub fn order_reply(outcome: &Result<(), BrokerError>) -> (reply: HttpReply)
    ensures
        outcome is Ok ==> reply@ == placed_reply(),
        outcome is Err ==> reply@ == failed_reply(),
{
    match outcome {
        Ok(_) => HttpReply { status: 200, body: "Order placed successfully".to_owned() },
        Err(_) => HttpReply { status: 500, body: "Failed to place order".to_owned() },
    }
}

/// `POST /webhook`, up to the call to the broker: an action that is no side is
/// turned down with 400 and nothing is sent; otherwise the order's request is
/// handed out to be sent.
pub fn handle_webhook(client: &AlpacaClient, payload: WebhookRequest) -> (action: WebhookAction)
    ensures
        action@ == first_step(client@, payload@),
{
    match translate(payload) {
        Err(_) => WebhookAction::Reply(
            HttpReply { status: 400, body: "Invalid action".to_owned() },
        ),
        Ok(order) => match client.place_order_request(&order) {
            Ok(request) => WebhookAction::Send(request),
            Err(error) => WebhookAction::Reply(order_reply(&Err(error))),
        },
    }
}

/// `POST /webhook`, from the broker's answer on: 200 where the order was
/// placed, 500 where it was not.
pub fn finish_webhook(answer: BrokerAnswer) -> (reply: HttpReply)
    ensures
        reply@ == last_step(answer),
{
    let outcome = place_order_outcome(answer);
    order_reply(&outcome)
}

} // verus!
