use bybit_shiprekt::decode::{decode, decode_document};
use bybit_shiprekt::json::Json;
use bybit_shiprekt::notify::{contract_label, display_currency, side_label};
use bybit_shiprekt::numeral::Decimal;
use bybit_shiprekt::types::{
    BybitLiquidationData, DecodeError, GenericData, GenericTopic, RequestResponse,
    ResponseRequestField, VariantResponse,
};

const SAMPLE: &str = r#"{"topic":"liquidation.BTCUSDT","data":{"symbol":"BTCUSDT","side":"Buy","price":"45000.5","qty":"100","time":1700000000000}}"#;

fn text(value: &str) -> Json {
    Json::Text(value.to_string())
}

fn object(members: Vec<(&str, Json)>) -> Json {
    Json::Object(members.into_iter().map(|(key, value)| (key.to_string(), value)).collect())
}

fn liquidation_document(price: Json, qty: Json, time: Json) -> Json {
    object(vec![
        ("topic", text("liquidation.BTCUSDT")),
        (
            "data",
            object(vec![
                ("symbol", text("BTCUSDT")),
                ("side", text("Buy")),
                ("price", price),
                ("qty", qty),
                ("time", time),
            ]),
        ),
    ])
}

fn response_document() -> Json {
    object(vec![
        ("success", Json::Bool(true)),
        ("ret_msg", text("")),
        ("conn_id", text("abc-123")),
        (
            "request",
            object(vec![("op", text("subscribe")), ("args", Json::Array(vec![text("liquidation")]))]),
        ),
    ])
}

#[test]
fn sample_liquidation_decodes() {
    let decoded = decode(SAMPLE);
    let expected = VariantResponse::Liquidation(GenericTopic {
        topic: "liquidation.BTCUSDT".to_string(),
        data: GenericData::Liquidation(BybitLiquidationData {
            symbol: "BTCUSDT".to_string(),
            side: "Buy".to_string(),
            price: Decimal { negative: false, units: 450005, scale: 1 },
            qty: 100,
            time: 1700000000000,
        }),
    });
    assert_eq!(decoded, Ok(expected));
}

#[test]
fn sample_liquidation_has_the_expected_facts() {
    let decoded = decode(SAMPLE).unwrap();
    let event = match decoded {
        VariantResponse::Liquidation(GenericTopic { data: GenericData::Liquidation(event), .. }) => {
            event
        },
        other => panic!("not a liquidation: {:?}", other),
    };
    let price = event.price.units as f64 / 10f64.powi(event.price.scale as i32);
    assert_eq!(price, 45000.5);
    assert!(!event.price.negative);
    assert_eq!(event.qty, 100);
    assert_eq!(display_currency(&event.symbol), "USDT");
    assert_eq!(side_label(&event.side), "Long");
    assert_eq!(contract_label(&event.symbol), "Perpetual futures");
}

#[test]
fn quantity_that_is_no_number_is_a_coercion_error() {
    let text = r#"{"topic":"liquidation.BTCUSDT","data":{"symbol":"BTCUSDT","side":"Buy","price":"45000.5","qty":"abc","time":1700000000000}}"#;
    assert_eq!(decode(text), Err(DecodeError::FieldCoercion("qty".to_string())));
}

#[test]
fn quantity_beyond_32_bits_is_a_coercion_error() {
    let text = r#"{"topic":"t","data":{"symbol":"BTCUSD","side":"Sell","price":"1","qty":"4294967296","time":1}}"#;
    assert_eq!(decode(text), Err(DecodeError::FieldCoercion("qty".to_string())));
}

#[test]
fn price_that_is_no_number_is_a_coercion_error() {
    let text = r#"{"topic":"t","data":{"symbol":"BTCUSD","side":"Sell","price":"cheap","qty":"1","time":1}}"#;
    assert_eq!(decode(text), Err(DecodeError::FieldCoercion("price".to_string())));
}

#[test]
fn price_is_read_before_quantity() {
    let text = r#"{"topic":"t","data":{"symbol":"BTCUSD","side":"Sell","price":"","qty":"","time":1}}"#;
    assert_eq!(decode(text), Err(DecodeError::FieldCoercion("price".to_string())));
}

#[test]
fn subscription_answer_decodes() {
    let text = r#"{"success":true,"ret_msg":"","conn_id":"abc-123","request":{"op":"subscribe","args":["liquidation"]}}"#;
    let expected = VariantResponse::Response(RequestResponse {
        success: true,
        ret_msg: Some(String::new()),
        conn_id: "abc-123".to_string(),
        request: ResponseRequestField {
            op: "subscribe".to_string(),
            args: vec!["liquidation".to_string()],
        },
    });
    assert_eq!(decode(text), Ok(expected));
}

#[test]
fn subscription_answer_without_message_decodes() {
    let missing = r#"{"success":false,"conn_id":"c","request":{"op":"subscribe","args":[]}}"#;
    let null = r#"{"success":false,"ret_msg":null,"conn_id":"c","request":{"op":"subscribe","args":[]}}"#;
    let expected = VariantResponse::Response(RequestResponse {
        success: false,
        ret_msg: None,
        conn_id: "c".to_string(),
        request: ResponseRequestField { op: "subscribe".to_string(), args: vec![] },
    });
    assert_eq!(decode(missing), Ok(expected.clone()));
    assert_eq!(decode(null), Ok(expected));
}

#[test]
fn response_shape_wins_over_liquidation_shape() {
    let text = r#"{"success":true,"conn_id":"c","request":{"op":"o","args":["a","b"]},"topic":"t","data":{"symbol":"BTCUSD","side":"Sell","price":"x","qty":"y","time":1}}"#;
    let expected = VariantResponse::Response(RequestResponse {
        success: true,
        ret_msg: None,
        conn_id: "c".to_string(),
        request: ResponseRequestField {
            op: "o".to_string(),
            args: vec!["a".to_string(), "b".to_string()],
        },
    });
    assert_eq!(decode(text), Ok(expected));
}

#[test]
fn texts_of_no_known_shape_do_not_decode() {
    let texts = [
        "",
        "not json",
        "{",
        "[]",
        "null",
        "42",
        "{}",
        r#"{"topic":"t"}"#,
        r#"{"topic":"t","data":[]}"#,
        r#"{"topic":"t","data":{"symbol":"BTCUSD","side":"Sell","price":"1","qty":"1"}}"#,
        r#"{"topic":"t","data":{"symbol":"BTCUSD","side":"Sell","price":1,"qty":"1","time":1}}"#,
        r#"{"topic":"t","data":{"symbol":"BTCUSD","side":"Sell","price":"1","qty":1,"time":1}}"#,
        r#"{"topic":"t","data":{"symbol":"BTCUSD","side":"Sell","price":"1","qty":"1","time":"1"}}"#,
        r#"{"topic":"t","data":{"symbol":"BTCUSD","side":"Sell","price":"1","qty":"1","time":-1}}"#,
        r#"{"topic":"t","data":{"symbol":"BTCUSD","side":"Sell","price":"1","qty":"1","time":1.5}}"#,
        r#"{"topic":7,"data":{"symbol":"BTCUSD","side":"Sell","price":"1","qty":"1","time":1}}"#,
        r#"{"success":"yes","conn_id":"c","request":{"op":"o","args":[]}}"#,
        r#"{"success":true,"conn_id":"c","request":{"op":"o"}}"#,
        r#"{"success":true,"conn_id":"c","request":{"op":"o","args":null}}"#,
        r#"{"success":true,"conn_id":"c","request":{"op":"o","args":[1]}}"#,
        r#"{"success":true,"conn_id":"c","request":"o"}"#,
        r#"{"success":true,"ret_msg":5,"conn_id":"c","request":{"op":"o","args":[]}}"#,
        r#"{"success":true,"request":{"op":"o","args":[]}}"#,
    ];
    for text in texts {
        assert_eq!(decode(text), Err(DecodeError::NoMatchingVariant), "{}", text);
    }
}

#[test]
fn reader_turns_text_into_a_document() {
    assert_eq!(Json::parse("null"), Some(Json::Null));
    assert_eq!(Json::parse("true"), Some(Json::Bool(true)));
    assert_eq!(Json::parse("17"), Some(Json::Number(Some(17))));
    assert_eq!(Json::parse("18446744073709551615"), Some(Json::Number(Some(u64::MAX))));
    assert_eq!(Json::parse("-17"), Some(Json::Number(None)));
    assert_eq!(Json::parse("1.5"), Some(Json::Number(None)));
    assert_eq!(Json::parse("18446744073709551616"), Some(Json::Number(None)));
    assert_eq!(Json::parse(r#""a\"b""#), Some(text("a\"b")));
    assert_eq!(
        Json::parse(r#"[1,"x",[]]"#),
        Some(Json::Array(vec![Json::Number(Some(1)), text("x"), Json::Array(vec![])]))
    );
    assert_eq!(
        Json::parse(r#"{"a":{"b":null}}"#),
        Some(object(vec![("a", object(vec![("b", Json::Null)]))]))
    );
    assert_eq!(Json::parse("{"), None);
    assert_eq!(Json::parse(""), None);
    assert_eq!(Json::parse("{} x"), None);
}

#[test]
fn members_are_found_by_key() {
    let document = object(vec![("a", Json::Null), ("b", Json::Bool(true)), ("a", Json::Bool(false))]);
    assert_eq!(document.get("a"), Some(&Json::Null));
    assert_eq!(document.get("b"), Some(&Json::Bool(true)));
    assert_eq!(document.get("c"), None);
    assert_eq!(Json::Null.get("a"), None);
    assert_eq!(Json::Array(vec![]).get("a"), None);
    let parsed = Json::parse(r#"{"k":1,"k":2}"#).unwrap();
    assert_eq!(parsed.get("k"), Some(&Json::Number(Some(2))));
}

#[test]
fn documents_decode_like_their_text() {
    assert_eq!(
        decode_document(&liquidation_document(text("45000.5"), text("100"), Json::Number(Some(1700000000000)))),
        decode(SAMPLE)
    );
    assert!(matches!(decode_document(&response_document()), Ok(VariantResponse::Response(_))));
}

#[test]
fn documents_with_wrong_fields_do_not_decode() {
    assert_eq!(
        decode_document(&liquidation_document(text("1"), text("1"), Json::Number(None))),
        Err(DecodeError::NoMatchingVariant)
    );
    assert_eq!(
        decode_document(&liquidation_document(Json::Number(Some(1)), text("1"), Json::Number(Some(1)))),
        Err(DecodeError::NoMatchingVariant)
    );
    assert_eq!(
        decode_document(&liquidation_document(text("1"), text("one"), Json::Number(Some(1)))),
        Err(DecodeError::FieldCoercion("qty".to_string()))
    );
    assert_eq!(
        decode_document(&liquidation_document(text("1e5"), text("1"), Json::Number(Some(1)))),
        Err(DecodeError::FieldCoercion("price".to_string()))
    );
    assert_eq!(decode_document(&Json::Null), Err(DecodeError::NoMatchingVariant));
}
