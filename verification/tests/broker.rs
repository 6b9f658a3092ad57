use webhook_relay::broker::{
    is_success, place_order_outcome, AlpacaClient, BrokerAnswer, BrokerError, Header,
};
use webhook_relay::order::AlpacaOrderRequest;
use webhook_relay::wire::{encode_optional_string, encode_order, encode_string, frame_order};

fn order(symbol: &str, side: &str, price: Option<&str>) -> AlpacaOrderRequest {
    AlpacaOrderRequest {
        symbol: symbol.to_string(),
        qty: "1".to_string(),
        side: side.to_string(),
        order_type: "limit".to_string(),
        time_in_force: "day".to_string(),
        limit_price: price.map(|p| p.to_string()),
    }
}

fn header(name: &str, value: &str) -> Header {
    Header { name: name.to_string(), value: value.to_string() }
}

#[test]
fn new_client_points_at_the_paper_trading_host() {
    let client = AlpacaClient::new("key".to_string(), "secret".to_string());
    assert_eq!(client.api_key, "key");
    assert_eq!(client.secret_key, "secret");
    assert_eq!(client.base_url, "https://paper-api.alpaca.markets");
    assert_eq!(client.order_url(), "https://paper-api.alpaca.markets/v2/orders");
}

#[test]
fn order_url_is_under_the_base_url() {
    let client = AlpacaClient {
        api_key: String::new(),
        secret_key: String::new(),
        base_url: "http://127.0.0.1:9".to_string(),
    };
    assert_eq!(client.order_url(), "http://127.0.0.1:9/v2/orders");
}

#[test]
fn headers_carry_both_keys() {
    let client = AlpacaClient::new("PK123".to_string(), "s3cr3t".to_string());
    assert_eq!(
        client.order_headers(),
        vec![
            header("APCA-API-KEY-ID", "PK123"),
            header("APCA-API-SECRET-KEY", "s3cr3t"),
            header("content-type", "application/json"),
        ]
    );
}

#[test]
fn strings_are_encoded_as_json_literals() {
    assert_eq!(encode_string("AAPL").unwrap(), "\"AAPL\"");
    assert_eq!(encode_string("").unwrap(), "\"\"");
    assert_eq!(encode_string("a\"b\\c").unwrap(), "\"a\\\"b\\\\c\"");
    assert_eq!(encode_string("line\nbreak\ttab").unwrap(), "\"line\\nbreak\\ttab\"");
    assert_eq!(encode_string("\u{1}").unwrap(), "\"\\u0001\"");
    assert_eq!(encode_string("\u{e9}").unwrap(), "\"\u{e9}\"");
}

#[test]
fn absent_text_is_encoded_as_null() {
    assert_eq!(encode_optional_string(&None).unwrap(), "null");
    assert_eq!(encode_optional_string(&Some("1.5".to_string())).unwrap(), "\"1.5\"");
    assert_eq!(encode_optional_string(&Some("null".to_string())).unwrap(), "\"null\"");
}

#[test]
fn frame_names_the_members_in_the_endpoint_order() {
    assert_eq!(
        frame_order("1", "2", "3", "4", "5", "6"),
        "{\"symbol\":1,\"qty\":2,\"side\":3,\"type\":4,\"time_in_force\":5,\"limit_price\":6}"
    );
    assert_eq!(
        frame_order("", "", "", "", "", ""),
        "{\"symbol\":,\"qty\":,\"side\":,\"type\":,\"time_in_force\":,\"limit_price\":}"
    );
}

#[test]
fn order_is_encoded_as_the_endpoint_takes_it() {
    assert_eq!(
        encode_order(&order("AAPL", "buy", Some("150.25"))).unwrap(),
        "{\"symbol\":\"AAPL\",\"qty\":\"1\",\"side\":\"buy\",\"type\":\"limit\",\"time_in_force\":\"day\",\"limit_price\":\"150.25\"}"
    );
    assert_eq!(
        encode_order(&order("MSFT", "sell", None)).unwrap(),
        "{\"symbol\":\"MSFT\",\"qty\":\"1\",\"side\":\"sell\",\"type\":\"limit\",\"time_in_force\":\"day\",\"limit_price\":null}"
    );
    assert_eq!(
        encode_order(&order("A\"B", "buy", Some("1\\2"))).unwrap(),
        "{\"symbol\":\"A\\\"B\",\"qty\":\"1\",\"side\":\"buy\",\"type\":\"limit\",\"time_in_force\":\"day\",\"limit_price\":\"1\\\\2\"}"
    );
}

#[test]
fn encoded_order_reads_back_as_json() {
    let text = encode_order(&order("BRK.B", "sell", Some("412.10"))).unwrap();
    let value: serde_json::Value = serde_json::from_str(&text).unwrap();
    let object = value.as_object().unwrap();
    assert_eq!(object.len(), 6);
    assert_eq!(object["symbol"], "BRK.B");
    assert_eq!(object["qty"], "1");
    assert_eq!(object["side"], "sell");
    assert_eq!(object["type"], "limit");
    assert_eq!(object["time_in_force"], "day");
    assert_eq!(object["limit_price"], "412.10");
}

#[test]
fn request_to_place_an_order() {
    let client = AlpacaClient::new("PK123".to_string(), "s3cr3t".to_string());
    let request = client.place_order_request(&order("AAPL", "buy", Some("150.25"))).unwrap();
    assert_eq!(request.url, "https://paper-api.alpaca.markets/v2/orders");
    assert_eq!(
        request.headers,
        vec![
            header("APCA-API-KEY-ID", "PK123"),
            header("APCA-API-SECRET-KEY", "s3cr3t"),
            header("content-type", "application/json"),
        ]
    );
    assert_eq!(
        request.body,
        "{\"symbol\":\"AAPL\",\"qty\":\"1\",\"side\":\"buy\",\"type\":\"limit\",\"time_in_force\":\"day\",\"limit_price\":\"150.25\"}"
    );
}

#[test]
fn success_is_the_class_2xx() {
    for status in [200u16, 201, 202, 204, 250, 299] {
        assert!(is_success(status), "status {}", status);
    }
    for status in [0u16, 1, 99, 100, 101, 199, 300, 301, 304, 400, 401, 403, 404, 422, 429, 500, 502, 503, 599, 999, 1000, u16::MAX] {
        assert!(!is_success(status), "status {}", status);
    }
}

#[test]
fn every_status_is_a_success_or_not() {
    for status in 0..=u16::MAX {
        assert_eq!(is_success(status), (200..300).contains(&status));
    }
}

#[test]
fn answer_with_2xx_places_the_order() {
    for status in [200u16, 201, 204, 299] {
        let answer = BrokerAnswer::Response { status, text: "{\"id\":\"1\"}".to_string() };
        assert_eq!(place_order_outcome(answer), Ok(()));
    }
}

#[test]
fn answer_with_another_status_carries_its_body() {
    let answer = BrokerAnswer::Response {
        status: 403,
        text: "{\"message\":\"insufficient buying power\"}".to_string(),
    };
    assert_eq!(
        place_order_outcome(answer),
        Err(BrokerError {
            message: "Failed to place order: {\"message\":\"insufficient buying power\"}".to_string()
        })
    );
    let answer = BrokerAnswer::Response { status: 500, text: String::new() };
    assert_eq!(
        place_order_outcome(answer),
        Err(BrokerError { message: "Failed to place order: ".to_string() })
    );
    let answer = BrokerAnswer::Response { status: 199, text: "early".to_string() };
    assert_eq!(
        place_order_outcome(answer),
        Err(BrokerError { message: "Failed to place order: early".to_string() })
    );
    let answer = BrokerAnswer::Response { status: 300, text: "moved".to_string() };
    assert_eq!(
        place_order_outcome(answer),
        Err(BrokerError { message: "Failed to place order: moved".to_string() })
    );
}

#[test]
fn transport_failure_carries_its_message() {
    let answer = BrokerAnswer::TransportFailure { message: "connection refused".to_string() };
    assert_eq!(
        place_order_outcome(answer),
        Err(BrokerError { message: "connection refused".to_string() })
    );
}
