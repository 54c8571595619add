//! Decoding a text frame into one of the known messages. The wire carries no
//! tag, so the shapes are tried in a fixed order and the first that fits wins:
//! the answer to a request first, then a liquidation.

use vstd::prelude::*;
use crate::json::{json_document, Json};
use crate::numeral::{
    de_string_to_decimal, de_string_to_number, decimal_numeral, is_digit, unsigned_numeral,
    DecimalValue,
};
use crate::text::text_view;
use crate::types::{
    BybitLiquidationData, DecodeError, DecodeErrorView, GenericData, GenericTopic,
    LiquidationView, RequestFieldView, RequestResponse, ResponseRequestField, ResponseView,
    TopicView, VariantResponse, VariantView,
};

verus! {

/// The text of a value that is a string.
pub open spec fn as_text(value: Option<Json>) -> Option<Seq<char>> {
    match value {
        Some(Json::Text(text)) => Some(text@),
        _ => None,
    }
}

/// The truth value of a value that is a boolean.
pub open spec fn as_flag(value: Option<Json>) -> Option<bool> {
    match value {
        Some(Json::Bool(flag)) => Some(flag),
        _ => None,
    }
}

/// The number of a value that is a non-negative integer of 64 bits.
pub open spec fn as_unsigned(value: Option<Json>) -> Option<u64> {
    match value {
        Some(Json::Number(Some(number))) => Some(number),
        _ => None,
    }
}

/// An optional string: missing and `null` both stand for no text; a value
/// of any other kind than a string does not fit.
pub open spec fn as_optional_text(value: Option<Json>) -> Option<Option<Seq<char>>> {
    match value {
        None => Some(None),
        Some(Json::Null) => Some(None),
        Some(Json::Text(text)) => Some(Some(text@)),
        _ => None,
    }
}

pub open spec fn item_text(item: Json) -> Seq<char> {
    match item {
        Json::Text(text) => text@,
        _ => Seq::empty(),
    }
}

pub open spec fn all_texts(items: Seq<Json>) -> bool {
    forall|i: int| 0 <= i < items.len() ==> #[trigger] items[i] is Text
}

/// The texts of a value that is an array of strings.
pub open spec fn as_texts(value: Option<Json>) -> Option<Seq<Seq<char>>> {
    match value {
        Some(Json::Array(items)) => if all_texts(items@) {
            Some(Seq::new(items@.len(), |i: int| item_text(items@[i])))
        } else {
            None
        },
        _ => None,
    }
}

/// The request of a response: an object with a string `op` and an array of
/// strings `args`.
pub open spec fn request_field_of(value: Option<Json>) -> Option<RequestFieldView> {
    match value {
        Some(request) => match (
            as_text(request.member("op"@)),
            as_texts(request.member("args"@)),
        ) {
            (Some(op), Some(args)) => Some(RequestFieldView { op, args }),
            _ => None,
        },
        None => None,
    }
}

/// The first shape: a boolean `success`, an optional string `ret_msg`, a
/// string `conn_id` and a `request`.
pub open spec fn response_of(document: Json) -> Option<ResponseView> {
    match (
        as_flag(document.member("success"@)),
        as_optional_text(document.member("ret_msg"@)),
        as_text(document.member("conn_id"@)),
        request_field_of(document.member("request"@)),
    ) {
        (Some(success), Some(ret_msg), Some(conn_id), Some(request)) => Some(
            ResponseView { success, ret_msg, conn_id, request },
        ),
        _ => None,
    }
}

/// The fields of a liquidation as they stand on the wire: the two numbers
/// still written as text.
pub ghost struct WireLiquidation {
    pub topic: Seq<char>,
    pub symbol: Seq<char>,
    pub side: Seq<char>,
    pub price: Seq<char>,
    pub qty: Seq<char>,
    pub time: u64,
}

/// The second shape: a string `topic` and an object `data` with the strings
/// `symbol`, `side`, `price` and `qty` and the unsigned integer `time`.
pub open spec fn wire_liquidation_of(document: Json) -> Option<WireLiquidation> {
    match (as_text(document.member("topic"@)), document.member("data"@)) {
        (Some(topic), Some(data)) => match (
            as_text(data.member("symbol"@)),
            as_text(data.member("side"@)),
            as_text(data.member("price"@)),
            as_text(data.member("qty"@)),
            as_unsigned(data.member("time"@)),
        ) {
            (Some(symbol), Some(side), Some(price), Some(qty), Some(time)) => Some(
                WireLiquidation { topic, symbol, side, price, qty, time },
            ),
            _ => None,
        },
        _ => None,
    }
}

/// The price that a text holds: a decimal numeral whose digits fit 64 bits.
pub open spec fn price_of(text: Seq<char>) -> Option<DecimalValue> {
    match decimal_numeral(text) {
        Some(value) => if value.units <= u64::MAX {
            Some(value)
        } else {
            None
        },
        None => None,
    }
}

/// The quantity that a text holds: an unsigned numeral that fits 32 bits.
pub open spec fn quantity_of(text: Seq<char>) -> Option<nat> {
    match unsigned_numeral(text) {
        Some(value) => if value <= u32::MAX {
            Some(value)
        } else {
            None
        },
        None => None,
    }
}

/// What a document decodes to. The response shape is tried first. A document
/// with the liquidation shape decodes when both numbers can be read; the
/// price is read first, and the first number that cannot be read is named.
pub open spec fn decoded(document: Json) -> Result<VariantView, DecodeErrorView> {
    match response_of(document) {
        Some(response) => Ok(VariantView::Response(response)),
        None => match wire_liquidation_of(document) {
            None => Err(DecodeErrorView::NoMatchingVariant),
            Some(wire) => match price_of(wire.price) {
                None => Err(DecodeErrorView::FieldCoercion("price"@)),
                Some(price) => match quantity_of(wire.qty) {
                    None => Err(DecodeErrorView::FieldCoercion("qty"@)),
                    Some(qty) => Ok(
                        VariantView::Liquidation(
                            TopicView {
                                topic: wire.topic,
                                data: GenericData::Liquidation(
                                    LiquidationView {
                                        symbol: wire.symbol,
                                        side: wire.side,
                                        price,
                                        qty,
                                        time: wire.time as nat,
                                    },
                                ),
                            },
                        ),
                    ),
                },
            },
        },
    }
}

/// What a text decodes to: what its document decodes to; a text that is not
/// JSON has the shape of no message.
pub open spec fn decoded_text(text: Seq<char>) -> Result<VariantView, DecodeErrorView> {
    match json_document(text) {
        Some(document) => decoded(document),
        None => Err(DecodeErrorView::NoMatchingVariant),
    }
}

/// The view of a decoding outcome.
pub open spec fn outcome_view(outcome: Result<VariantResponse, DecodeError>) -> Result<
    VariantView,
    DecodeErrorView,
> {
    match outcome {
        Ok(message) => Ok(message@),
        Err(error) => Err(error@),
    }
}

fn read_text(value: Option<&Json>) -> (text: Option<String>)
    ensures
        text_view(text) == as_text(
            match value {
                Some(v) => Some(*v),
                None => None,
            },
        ),
{
    match value {
        Some(Json::Text(text)) => Some(text.clone()),
        _ => None,
    }
}

fn read_texts(value: Option<&Json>) -> (texts: Option<Vec<String>>)
    ensures
        match texts {
            Some(list) => as_texts(
                match value {
                    Some(v) => Some(*v),
                    None => None,
                },
            ) == Some(list.deep_view()),
            None => as_texts(
                match value {
                    Some(v) => Some(*v),
                    None => None,
                },
            ) is None,
        },
{
    match value {
        Some(Json::Array(items)) => {
            let mut list: Vec<String> = Vec::new();
            let mut i: usize = 0;
            while i < items.len()
                invariant
                    i <= items.len(),
                    value matches Some(v) && *v == Json::Array(*items),
                    list@.len() == i,
                    forall|j: int| 0 <= j < i ==> #[trigger] items@[j] is Text,
                    forall|j: int| 0 <= j < i ==> #[trigger] list@[j]@ == item_text(items@[j]),
                decreases items.len() - i,
            {
                match &items[i] {
                    Json::Text(text) => {
                        list.push(text.clone());
                    },
                    _ => {
                        return None;
                    },
                }
                i += 1;
            }
            Some(list)
        },
        _ => None,
    }
}

fn read_request(value: Option<&Json>) -> (request: Option<ResponseRequestField>)
    ensures
        match request {
            Some(field) => request_field_of(
                match value {
                    Some(v) => Some(*v),
                    None => None,
                },
            ) == Some(field@),
            None => request_field_of(
                match value {
                    Some(v) => Some(*v),
                    None => None,
                },
            ) is None,
        },
{
    match value {
        Some(request) => {
            let op = read_text(request.get("op"));
            let args = read_texts(request.get("args"));
            match (op, args) {
                (Some(op), Some(args)) => Some(ResponseRequestField { op, args }),
                _ => None,
            }
        },
        None => None,
    }
}

fn read_response(document: &Json) -> (response: Option<RequestResponse>)
    ensures
        match response {
            Some(r) => response_of(*document) == Some(r@),
            None => response_of(*document) is None,
        },
{
    let success = match document.get("success") {
        Some(Json::Bool(flag)) => *flag,
        _ => {
            return None;
        },
    };
    let ret_msg = match document.get("ret_msg") {
        None => None,
        Some(Json::Null) => None,
        Some(Json::Text(text)) => Some(text.clone()),
        _ => {
            return None;
        },
    };
    let conn_id = match read_text(document.get("conn_id")) {
        Some(text) => text,
        None => {
            return None;
        },
    };
    match read_request(document.get("request")) {
        Some(request) => Some(RequestResponse { success, ret_msg, conn_id, request }),
        None => None,
    }
}

struct WireFields {
    topic: String,
    symbol: String,
    side: String,
    price: String,
    qty: String,
    time: u64,
}

impl View for WireFields {
    type V = WireLiquidation;

    closed spec fn view(&self) -> WireLiquidation {
        WireLiquidation {
            topic: self.topic@,
            symbol: self.symbol@,
            side: self.side@,
            price: self.price@,
            qty: self.qty@,
            time: self.time,
        }
    }
}

fn read_wire_liquidation(document: &Json) -> (wire: Option<WireFields>)
    ensures
        match wire {
            Some(w) => wire_liquidation_of(*document) == Some(w@),
            None => wire_liquidation_of(*document) is None,
        },
{
    let topic = match read_text(document.get("topic")) {
        Some(text) => text,
        None => {
            return None;
        },
    };
    let data = match document.get("data") {
        Some(data) => data,
        None => {
            return None;
        },
    };
    let symbol = read_text(data.get("symbol"));
    let side = read_text(data.get("side"));
    let price = read_text(data.get("price"));
    let qty = read_text(data.get("qty"));
    let time = match data.get("time") {
        Some(Json::Number(Some(number))) => Some(*number),
        _ => None,
    };
    match (symbol, side, price, qty, time) {
        (Some(symbol), Some(side), Some(price), Some(qty), Some(time)) => Some(
            WireFields { topic, symbol, side, price, qty, time },
        ),
        _ => None,
    }
}

/// Decodes a document into a message.
pub fn decode_document(document: &Json) -> (outcome: Result<VariantResponse, DecodeError>)
    ensures
        outcome_view(outcome) == decoded(*document),
{
    match read_response(document) {
        Some(response) => {
            return Ok(VariantResponse::Response(response));
        },
        None => {},
    }
    let wire = match read_wire_liquidation(document) {
        Some(wire) => wire,
        None => {
            return Err(DecodeError::NoMatchingVariant);
        },
    };
    let price = match de_string_to_decimal(wire.price.as_str()) {
        Ok(price) => price,
        Err(_) => {
            return Err(DecodeError::FieldCoercion("price".to_owned()));
        },
    };
    let qty = match de_string_to_number(wire.qty.as_str()) {
        Ok(qty) => qty,
        Err(_) => {
            return Err(DecodeError::FieldCoercion("qty".to_owned()));
        },
    };
    Ok(
        VariantResponse::Liquidation(
            GenericTopic {
                topic: wire.topic,
                data: GenericData::Liquidation(
                    BybitLiquidationData {
                        symbol: wire.symbol,
                        side: wire.side,
                        price,
                        qty,
                        time: wire.time,
                    },
                ),
            },
        ),
    )
}

/// Decodes the text of a frame into a message.
pub fn decode(text: &str) -> (outcome: Result<VariantResponse, DecodeError>)
    ensures
        outcome_view(outcome) == decoded_text(text@),
{
    match Json::parse(text) {
        Some(document) => decode_document(&document),
        None => Err(DecodeError::NoMatchingVariant),
    }
}

/// The first shape wins: a document with the shape of a response decodes to
/// that response, whatever else it holds.
pub proof fn lemma_response_shape_wins(document: Json)
    requires
        response_of(document) is Some,
    ensures
        decoded(document) == Ok::<VariantView, DecodeErrorView>(
            VariantView::Response(response_of(document).unwrap()),
        ),
{
}

/// A number that cannot be read is never passed over: a document with the
/// shape of a liquidation, and not of a response, decodes to no message when
/// its price or its quantity is no number of its type, and the error names
/// the field.
pub proof fn lemma_unreadable_number_fails_decoding(document: Json)
    requires
        response_of(document) is None,
        wire_liquidation_of(document) is Some,
    ensures
        price_of(wire_liquidation_of(document).unwrap().price) is None ==> decoded(document)
            == Err::<VariantView, DecodeErrorView>(DecodeErrorView::FieldCoercion("price"@)),
        price_of(wire_liquidation_of(document).unwrap().price) is Some && quantity_of(
            wire_liquidation_of(document).unwrap().qty,
        ) is None ==> decoded(document) == Err::<VariantView, DecodeErrorView>(
            DecodeErrorView::FieldCoercion("qty"@),
        ),
        decoded(document) is Ok <==> price_of(wire_liquidation_of(document).unwrap().price) is Some
            && quantity_of(wire_liquidation_of(document).unwrap().qty) is Some,
{
}

/// A text that holds letters where digits belong is no quantity.
pub proof fn lemma_letters_are_no_quantity(text: Seq<char>, at: int)
    requires
        0 <= at < text.len(),
        !is_digit(text[at]),
        text[at] != '+' || at > 0,
    ensures
        quantity_of(text) is None,
{
    let digits = if text.len() > 0 && text[0] == '+' {
        text.skip(1)
    } else {
        text
    };
    if text[0] == '+' {
        assert(digits[at - 1] == text[at]);
    } else {
        assert(digits[at] == text[at]);
    }
}

} // verus!
