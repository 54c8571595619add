//! The messages of the feed as typed values, with their mathematical views.

use vstd::prelude::*;
use crate::numeral::{Decimal, DecimalValue};

verus! {

/// The request that a response answers.
#[derive(Debug, Clone, PartialEq, Eq)]
pub struct ResponseRequestField {
    /// Operation
    pub op: String,
    /// Arguments
    pub args: Vec<String>,
}

pub ghost struct RequestFieldView {
    pub op: Seq<char>,
    pub args: Seq<Seq<char>>,
}

impl View for ResponseRequestField {
    type V = RequestFieldView;

    open spec fn view(&self) -> RequestFieldView {
        RequestFieldView { op: self.op@, args: self.args.deep_view() }
    }
}

/// The answer of the feed to a request, such as a subscription.
#[derive(Debug, Clone, PartialEq, Eq)]
pub struct RequestResponse {
    /// Whether or not the request succeeded
    pub success: bool,
    /// Returned message
    pub ret_msg: Option<String>,
    /// Connection id as string
    pub conn_id: String,
    /// The request that is answered
    pub request: ResponseRequestField,
}

pub ghost struct ResponseView {
    pub success: bool,
    pub ret_msg: Option<Seq<char>>,
    pub conn_id: Seq<char>,
    pub request: RequestFieldView,
}

impl View for RequestResponse {
    type V = ResponseView;

    open spec fn view(&self) -> ResponseView {
        ResponseView {
            success: self.success,
            ret_msg: match self.ret_msg {
                Some(text) => Some(text@),
                None => None,
            },
            conn_id: self.conn_id@,
            request: self.request@,
        }
    }
}

/// One forced close of a leveraged position.
#[derive(Debug, Clone, PartialEq, Eq)]
pub struct BybitLiquidationData {
    /// Symbol; ticker
    pub symbol: String,
    /// Buy side, or sell side
    pub side: String,
    /// Bankruptcy price
    pub price: Decimal,
    /// Quantity
    pub qty: u32,
    /// Timestamp in milliseconds
    pub time: u64,
}

pub ghost struct LiquidationView {
    pub symbol: Seq<char>,
    pub side: Seq<char>,
    pub price: DecimalValue,
    pub qty: nat,
    pub time: nat,
}

impl View for BybitLiquidationData {
    type V = LiquidationView;

    open spec fn view(&self) -> LiquidationView {
        LiquidationView {
            symbol: self.symbol@,
            side: self.side@,
            price: self.price@,
            qty: self.qty as nat,
            time: self.time as nat,
        }
    }
}

/// The data of a topic message; one kind of data is known.
#[derive(Debug, Clone, PartialEq, Eq)]
pub enum GenericData<T> {
    Liquidation(T),
}

impl<T: View> View for GenericData<T> {
    type V = GenericData<T::V>;

    open spec fn view(&self) -> GenericData<T::V> {
        match self {
            GenericData::Liquidation(data) => GenericData::Liquidation(data@),
        }
    }
}

/// A message that the feed pushes under a topic.
#[derive(Debug, Clone, PartialEq, Eq)]
pub struct GenericTopic<T> {
    pub topic: String,
    pub data: GenericData<T>,
}

pub ghost struct TopicView<V> {
    pub topic: Seq<char>,
    pub data: GenericData<V>,
}

impl<T: View> View for GenericTopic<T> {
    type V = TopicView<T::V>;

    open spec fn view(&self) -> TopicView<T::V> {
        TopicView { topic: self.topic@, data: self.data@ }
    }
}

/// What a text frame of the feed can decode to.
#[derive(Debug, Clone, PartialEq, Eq)]
pub enum VariantResponse {
    /// The answer to a request
    Response(RequestResponse),
    /// Liquidation
    Liquidation(GenericTopic<BybitLiquidationData>),
}

pub ghost enum VariantView {
    Response(ResponseView),
    Liquidation(TopicView<LiquidationView>),
}

impl View for VariantResponse {
    type V = VariantView;

    open spec fn view(&self) -> VariantView {
        match self {
            VariantResponse::Response(response) => VariantView::Response(response@),
            VariantResponse::Liquidation(message) => VariantView::Liquidation(message@),
        }
    }
}

/// Why a text frame did not decode.
#[derive(Debug, Clone, PartialEq, Eq)]
pub enum DecodeError {
    /// The text has the shape of none of the known messages.
    NoMatchingVariant,
    /// The text has the shape of a message, but the named field does not
    /// hold a number of its type.
    FieldCoercion(String),
}

pub ghost enum DecodeErrorView {
    NoMatchingVariant,
    FieldCoercion(Seq<char>),
}

impl View for DecodeError {
    type V = DecodeErrorView;

    open spec fn view(&self) -> DecodeErrorView {
        match self {
            DecodeError::NoMatchingVariant => DecodeErrorView::NoMatchingVariant,
            DecodeError::FieldCoercion(field) => DecodeErrorView::FieldCoercion(field@),
        }
    }
}

} // verus!
