//! What the session needs before its loop starts: the address of the feed,
//! the requests that it sends, and the errors that end the process when the
//! start fails.

use vstd::prelude::*;
use vstd::string::StringExecFns;
use crate::errors::OperationError;
use crate::text::text_view;

verus! {

/// The address of the feed.
pub const FEED_ENDPOINT: &'static str = "wss://stream.bybit.com/realtime";

/// The payload of the keepalive frame.
pub const KEEPALIVE_PAYLOAD: &'static str = "{\"op\":\"ping\"}";

/// The topic that the session subscribes to.
pub const LIQUIDATION_TOPIC: &'static str = "liquidation";

/// The environment variable that holds the credential of the bot.
pub const BOT_TOKEN_VARIABLE: &'static str = "HX_BYBIT_SHIPREKT_TELEGRAM_BOT_TOKEN";

/// The environment variable that holds the channel to notify.
pub const CHAT_ID_VARIABLE: &'static str = "HX_BYBIT_SHIPREKT_TELEGRAM_CHANNEL_CHAT_ID";

/// Why a text is no absolute URL, in words; `None` for a text that is one.
pub uninterp spec fn url_rejection(address: Seq<char>) -> Option<Seq<char>>;

/// Calls `url::Url::parse` and, where it fails, `to_string` on the error.
/// What comes back depends on the text alone.
#[verifier::external_body]
fn url_parse_rejection(address: &str) -> (rejection: Option<String>)
    ensures
        text_view(rejection) == url_rejection(address@),
{
    match url::Url::parse(address) {
        Ok(_) => None,
        Err(error) => Some(error.to_string()),
    }
}

/// The topics of a subscription as they stand in the request: each in double
/// quotes, with commas between them.
pub open spec fn quoted_topics(topics: Seq<Seq<char>>) -> Seq<char>
    decreases topics.len(),
{
    if topics.len() == 0 {
        Seq::empty()
    } else if topics.len() == 1 {
        "\""@ + topics[0] + "\""@
    } else {
        quoted_topics(topics.drop_last()) + ","@ + "\""@ + topics.last() + "\""@
    }
}

/// The text of the request that subscribes to `topics`.
pub open spec fn subscribe_request_text(topics: Seq<Seq<char>>) -> Seq<char> {
    "{\"op\":\"subscribe\",\"args\":["@ + quoted_topics(topics) + "]}"@
}

/// What the error says when the address of the feed is no URL.
pub open spec fn endpoint_rejection_detail(why: Seq<char>) -> Seq<char> {
    "Url parsing error; err="@ + why
}

/// What the error says when the connection cannot be made.
pub open spec fn connect_failure_detail(why: Seq<char>) -> Seq<char> {
    "cannot connect to WSS; err="@ + why
}

/// What the error says when the subscription cannot be sent.
pub open spec fn subscribe_failure_detail(why: Seq<char>) -> Seq<char> {
    "error subscribing to liquidation topic; err="@ + why
}

/// What the error says when a required environment variable is missing.
pub open spec fn missing_variable_detail(name: Seq<char>, why: Seq<char>) -> Seq<char> {
    name + " not defined; err="@ + why
}

/// The error for an address that is no URL; `why` is what the parser said.
pub fn invalid_endpoint(why: &str) -> (error: OperationError)
    ensures
        error matches OperationError::ErrorInternalGeneric(Some(detail)) && detail@
            == endpoint_rejection_detail(why@),
{
    let mut detail = String::from_str("Url parsing error; err=");
    detail.append(why);
    OperationError::ErrorInternalGeneric(Some(detail))
}

/// Tells whether the address of the feed is an absolute URL, and if not, why.
pub fn check_endpoint(address: &str) -> (checked: Result<(), OperationError>)
    ensures
        match url_rejection(address@) {
            None => checked is Ok,
            Some(why) => checked matches Err(OperationError::ErrorInternalGeneric(Some(detail)))
                && detail@ == endpoint_rejection_detail(why),
        },
{
    match url_parse_rejection(address) {
        None => Ok(()),
        Some(why) => Err(invalid_endpoint(why.as_str())),
    }
}

/// The error for a connection that could not be made; `why` is what the
/// transport said.
pub fn connect_failure(why: &str) -> (error: OperationError)
    ensures
        error matches OperationError::ErrorWssConnect(Some(detail)) && detail@
            == connect_failure_detail(why@),
{
    let mut detail = String::from_str("cannot connect to WSS; err=");
    detail.append(why);
    OperationError::ErrorWssConnect(Some(detail))
}

/// The error for a subscription that could not be sent; `why` is what the
/// transport said.
pub fn subscribe_failure(why: &str) -> (error: OperationError)
    ensures
        error matches OperationError::ErrorWssTopicSubscription(Some(detail)) && detail@
            == subscribe_failure_detail(why@),
{
    let mut detail = String::from_str("error subscribing to liquidation topic; err=");
    detail.append(why);
    OperationError::ErrorWssTopicSubscription(Some(detail))
}

/// The error for a required environment variable that is not set.
pub fn missing_variable(name: &str, why: &str) -> (error: OperationError)
    ensures
        error matches OperationError::ErrorMissingRequiredEnvVar(Some(detail)) && detail@
            == missing_variable_detail(name@, why@),
{
    let mut detail = String::from_str(name);
    detail.append(" not defined; err=");
    detail.append(why);
    OperationError::ErrorMissingRequiredEnvVar(Some(detail))
}

/// Writes the request that subscribes to `topics`.
pub fn subscribe_request(topics: &Vec<String>) -> (request: String)
    ensures
        request@ == subscribe_request_text(topics.deep_view()),
{
    let ghost all = topics.deep_view();
    let mut list = String::new();
    let mut i: usize = 0;
    while i < topics.len()
        invariant
            i <= topics.len(),
            all == topics.deep_view(),
            list@ == quoted_topics(all.take(i as int)),
        decreases topics.len() - i,
    {
        assert(all.take(i + 1).drop_last() =~= all.take(i as int));
        if i > 0 {
            list.append(",");
        }
        list.append("\"");
        list.append(topics[i].as_str());
        list.append("\"");
        i += 1;
    }
    assert(all.take(i as int) =~= all);
    let mut request = String::from_str("{\"op\":\"subscribe\",\"args\":[");
    request.append(list.as_str());
    request.append("]}");
    request
}

} // verus!
