//! The notification that is sent out for a liquidation.

use vstd::prelude::*;
use vstd::string::StringExecFns;
use crate::amount::{
    grouped_digits, notional, notional_thousandths, render_count, render_decimal, rendered,
};
use crate::symbol::{
    base_currency, get_base_currency, is_dated_future, is_linear, is_linear_perpetual,
    is_non_perpetual_contract,
};
use crate::text::same_text;
use crate::types::{BybitLiquidationData, LiquidationView};

verus! {

/// The position that was closed: a `Buy` closes a long, anything else a short.
pub open spec fn side_label_of(side: Seq<char>) -> Seq<char> {
    if side == "Buy"@ {
        "Long"@
    } else {
        "Short"@
    }
}

/// The currency in which the quantity is shown: `USDT` for a linear
/// perpetual, else the base currency, or `UNKNOWN` where the symbol has none.
pub open spec fn display_currency_of(symbol: Seq<char>) -> Seq<char> {
    if is_linear(symbol) {
        "USDT"@
    } else {
        match base_currency(symbol) {
            Some(base) => base,
            None => "UNKNOWN"@,
        }
    }
}

/// The kind of contract: `Futures` for a dated future, else `Perpetual futures`.
pub open spec fn contract_label_of(symbol: Seq<char>) -> Seq<char> {
    if is_dated_future(symbol) {
        "Futures"@
    } else {
        "Perpetual futures"@
    }
}

/// The text of the notification for a liquidation that happened at `when`.
pub open spec fn notification_text(event: LiquidationView, when: Seq<char>) -> Seq<char> {
    "Bybit shiprekt a "@ + side_label_of(event.side) + " position of "@ + grouped_digits(event.qty)
        + " "@ + display_currency_of(event.symbol) + " (worth $"@ + rendered(
        event.price.negative,
        notional_thousandths(event.price.units, event.price.scale, event.qty),
        3,
    ) + ") on the "@ + event.symbol + " "@ + contract_label_of(event.symbol) + " contract at $"@
        + rendered(event.price.negative, event.price.units, event.price.scale) + " - "@ + when
}

/// Names the position that a liquidation closed.
pub fn side_label(side: &str) -> (label: &'static str)
    ensures
        label@ == side_label_of(side@),
{
    if same_text(side, "Buy") {
        "Long"
    } else {
        "Short"
    }
}

/// Picks the currency in which a symbol's quantity is shown.
pub fn display_currency<'a>(symbol: &'a str) -> (currency: &'a str)
    ensures
        currency@ == display_currency_of(symbol@),
{
    if is_linear_perpetual(symbol) {
        "USDT"
    } else {
        match get_base_currency(symbol) {
            Ok(base) => base,
            Err(_) => "UNKNOWN",
        }
    }
}

/// Names the kind of contract that a symbol stands for.
pub fn contract_label(symbol: &str) -> (label: &'static str)
    ensures
        label@ == contract_label_of(symbol@),
{
    if is_non_perpetual_contract(symbol) {
        "Futures"
    } else {
        "Perpetual futures"
    }
}

/// Writes the notification for a liquidation; `when` is the time of the
/// event as it is to appear in the text.
pub fn liquidation_message(event: &BybitLiquidationData, when: &str) -> (message: String)
    ensures
        message@ == notification_text(event@, when@),
{
    let worth = notional(&event.price, event.qty);
    let mut message = String::from_str("Bybit shiprekt a ");
    message.append(side_label(event.side.as_str()));
    message.append(" position of ");
    message.append(render_count(event.qty).as_str());
    message.append(" ");
    message.append(display_currency(event.symbol.as_str()));
    message.append(" (worth $");
    message.append(render_decimal(event.price.negative, worth, 3).as_str());
    message.append(") on the ");
    message.append(event.symbol.as_str());
    message.append(" ");
    message.append(contract_label(event.symbol.as_str()));
    message.append(" contract at $");
    message.append(
        render_decimal(event.price.negative, event.price.units as u128, event.price.scale).as_str(),
    );
    message.append(" - ");
    message.append(when);
    message
}

} // verus!
