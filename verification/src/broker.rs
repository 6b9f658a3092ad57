//! The broker's order endpoint: the call that places an order, and what its
//! answer means.

use vstd::prelude::*;
use vstd::string::StringExecFns;

use crate::order::AlpacaOrderRequest;
use crate::wire::{encode_order, order_json};

verus! {

/// Why an order was not placed: what the broker answered, or what went wrong
/// on the way.
#[derive(Debug, Clone, PartialEq, Eq)]
pub struct BrokerError {
    pub message: String,
}

/// The credentials and the address of the broker. Made once, then only read.
#[derive(Debug, Clone, PartialEq, Eq)]
pub struct AlpacaClient {
    pub api_key: String,
    pub secret_key: String,
    pub base_url: String,
}

/// The text of an [`AlpacaClient`].
pub struct ClientView {
    pub api_key: Seq<char>,
    pub secret_key: Seq<char>,
    pub base_url: Seq<char>,
}

impl View for AlpacaClient {
    type V = ClientView;

    open spec fn view(&self) -> ClientView {
        ClientView {
            api_key: self.api_key@,
            secret_key: self.secret_key@,
            base_url: self.base_url@,
        }
    }
}

/// One header of an HTTP request.
#[derive(Debug, Clone, PartialEq, Eq)]
pub struct Header {
    pub name: String,
    pub value: String,
}

impl View for Header {
    type V = (Seq<char>, Seq<char>);

    open spec fn view(&self) -> (Seq<char>, Seq<char>) {
        (self.name@, self.value@)
    }
}

/// An HTTP POST that is still to be sent.
#[derive(Debug, Clone, PartialEq, Eq)]
pub struct PostRequest {
    pub url: String,
    pub headers: Vec<Header>,
    pub body: String,
}

/// The text of a [`PostRequest`]: each header is a name and a value.
pub struct PostView {
    pub url: Seq<char>,
    pub headers: Seq<(Seq<char>, Seq<char>)>,
    pub body: Seq<char>,
}

impl View for PostRequest {
    type V = PostView;

    open spec fn view(&self) -> PostView {
        PostView {
            url: self.url@,
            headers: Seq::new(self.headers@.len(), |i: int| self.headers@[i]@),
            body: self.body@,
        }
    }
}

/// What came of sending a request to the broker.
#[derive(Debug, Clone, PartialEq, Eq)]
pub enum BrokerAnswer {
    /// The broker answered, with this status code and this body.
    Response { status: u16, text: String },
    /// No complete answer arrived; the message says what went wrong.
    TransportFailure { message: String },
}

/// The address of the paper-trading host.
pub open spec fn paper_trading_url() -> Seq<char> {
    "https://paper-api.alpaca.markets"@
}

/// The address of the order endpoint under a base address.
pub open spec fn order_url(base_url: Seq<char>) -> Seq<char> {
    base_url + "/v2/orders"@
}

/// The headers of every call: the key's id, the secret key, and the kind of
/// the body.
pub open spec fn order_headers(client: ClientView) -> Seq<(Seq<char>, Seq<char>)> {
    seq![
        ("APCA-API-KEY-ID"@, client.api_key),
        ("APCA-API-SECRET-KEY"@, client.secret_key),
        ("content-type"@, "application/json"@),
    ]
}

/// The POST that places an order whose JSON text is `body`.
pub open spec fn order_post(client: ClientView, body: Seq<char>) -> PostView {
    PostView { url: order_url(client.base_url), headers: order_headers(client), body }
}

/// A status code of the class 2xx.
pub open spec fn is_success_status(status: u16) -> bool {
    200 <= status < 300
}

/// The message of the error for an answer that is no success.
pub open spec fn rejection_message(text: Seq<char>) -> Seq<char> {
    "Failed to place order: "@ + text
}

/// What an answer means for the order: placed on a 2xx status; otherwise an
/// error that carries the answer's body, or the transport's own message.
pub open spec fn outcome_of(answer: BrokerAnswer) -> Result<(), Seq<char>> {
    match answer {
        BrokerAnswer::Response { status, text } => if is_success_status(status) {
            Ok(())
        } else {
            Err(rejection_message(text@))
        },
        BrokerAnswer::TransportFailure { message } => Err(message@),
    }
}

/// Whether a status code is of the class 2xx.
pub fn is_success(status: u16) -> (success: bool)
    ensures
        success == is_success_status(status),
{
    200 <= status && status < 300
}

impl AlpacaClient {
    /// A client for the paper-trading host.
    pub fn new(api_key: String, secret_key: String) -> (client: AlpacaClient)
        ensures
            client.api_key == api_key,
            client.secret_key == secret_key,
            client.base_url@ == paper_trading_url(),
    {
        AlpacaClient { api_key, secret_key, base_url: "https://paper-api.alpaca.markets".to_owned() }
    }

    /// The address of the order endpoint.
    pub fn order_url(&self) -> (url: String)
        ensures
            url@ == order_url(self.base_url@),
    {
        let mut url = self.base_url.clone();
        url.append("/v2/orders");
        url
    }

    /// The headers that go with every call.
    pub fn order_headers(&self) -> (headers: Vec<Header>)
        ensures
            headers@.len() == 3,
            Seq::new(3, |i: int| headers@[i]@) == order_headers(self@),
    {
        let mut headers: Vec<Header> = Vec::new();
        headers.push(Header { name: "APCA-API-KEY-ID".to_owned(), value: self.api_key.clone() });
        headers.push(
            Header { name: "APCA-API-SECRET-KEY".to_owned(), value: self.secret_key.clone() },
        );
        headers.push(
            Header { name: "content-type".to_owned(), value: "application/json".to_owned() },
        );
        headers
    }

    /// The first half of placing an order: the request to send. It fails only
    /// where the order has no JSON text.
    pub fn place_order_request(&self, order: &AlpacaOrderRequest) -> (made: Result<
        PostRequest,
        BrokerError,
    >)
        ensures
            match order_json(order@) {
                Some(body) => made matches Ok(request) && request@ == order_post(self@, body),
                None => made is Err,
            },
    {
        let body = encode_order(order)?;
        let url = self.order_url();
        let headers = self.order_headers();
        let request = PostRequest { url, headers, body };
        Ok(request)
    }
}

/// The second half of placing an order: what the answer means.
pub fn place_order_outcome(answer: BrokerAnswer) -> (outcome: Result<(), BrokerError>)
    ensures
        match outcome_of(answer) {
            Ok(_) => outcome is Ok,
            Err(message) => outcome matches Err(error) && error.message@ == message,
        },
{
    match answer {
        BrokerAnswer::Response { status, text } => {
            if is_success(status) {
                Ok(())
            } else {
                let mut message = "Failed to place order: ".to_owned();
                message.append(text.as_str());
                Err(BrokerError { message })
            }
        },
        BrokerAnswer::TransportFailure { message } => Err(BrokerError { message }),
    }
}

} // verus!
