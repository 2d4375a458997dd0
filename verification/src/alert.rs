//! Alert message construction and delivery planning.
//!
//! A qualifying balance delta becomes one human-readable alert: the
//! transferred amount to two decimal places, an explorer link built
//! from the transaction identifier, and the pre/post balances. The
//! dispatcher is best-effort and may be disabled: with either
//! notification credential absent, planning yields no outbound
//! request at all, so the system runs in observe-only mode without
//! failing.

use vstd::prelude::*;
use vstd::string::*;
use crate::numfmt::spec_sol_two_decimals;
use crate::numfmt::format_sol_two_decimals;
use crate::resolve::BalanceDelta;

verus! {

/// One alert, built only for qualifying deltas and consumed once.
pub struct AlertMessage {
    pub text: String,
    pub link: String,
}

/// Notification credentials as read once from process configuration;
/// either may be absent, which disables delivery.
pub struct DispatchConfig {
    pub telegram_token: Option<String>,
    pub telegram_chat_id: Option<String>,
}

/// What the dispatcher decided for one message: no outbound call at
/// all, or exactly one HTTP POST with the given endpoint, chat and
/// text.
pub enum DeliveryPlan {
    Skip,
    Post { url: String, chat_id: String, text: String },
}

/// The explorer link for a transaction identifier.
pub open spec fn spec_explorer_link(id: Seq<char>) -> Seq<char> {
    "https://solscan.io/tx/"@ + id
}

/// The full alert text for a delta: headline, amount to two decimal
/// places, explorer link, and the pre/post balances to two decimal
/// places.
pub open spec fn spec_alert_text(
    amount_lamports: int,
    id: Seq<char>,
    pre_lamports: int,
    post_lamports: int,
) -> Seq<char> {
    "<b>Whale alert!</b>\nAmount: "@ + spec_sol_two_decimals(amount_lamports)
        + " SOL\nhttps://solscan.io/tx/"@ + id + "\nBalance change: "@ + spec_sol_two_decimals(
        pre_lamports,
    ) + " -> "@ + spec_sol_two_decimals(post_lamports)
}

/// The notification endpoint for a bot token.
pub open spec fn spec_bot_url(token: Seq<char>) -> Seq<char> {
    "https://api.telegram.org/bot"@ + token + "/sendMessage"@
}

/// Builds the alert for a qualifying delta: the text described by
/// `spec_alert_text` and the explorer link for the delta's
/// transaction identifier.
pub fn build_alert_message(delta: &BalanceDelta) -> (m: AlertMessage)
    ensures
        m.text@ == spec_alert_text(
            delta.amount_lamports as int,
            delta.id@,
            delta.pre_lamports as int,
            delta.post_lamports as int,
        ),
        m.link@ == spec_explorer_link(delta.id@),
{
    let mut link = String::from_str("https://solscan.io/tx/");
    link.append(delta.id.as_str());

    let mut text = String::from_str("<b>Whale alert!</b>\nAmount: ");
    let amount = format_sol_two_decimals(delta.amount_lamports);
    text.append(amount.as_str());
    text.append(" SOL\nhttps://solscan.io/tx/");
    text.append(delta.id.as_str());
    text.append("\nBalance change: ");
    let pre = format_sol_two_decimals(delta.pre_lamports);
    text.append(pre.as_str());
    text.append(" -> ");
    let post = format_sol_two_decimals(delta.post_lamports);
    text.append(post.as_str());

    AlertMessage { text, link }
}

/// Plans delivery of one message. With either credential absent the
/// plan is to do nothing — zero outbound calls, whatever the message.
/// With both present the plan is one POST to the token's endpoint,
/// carrying the configured chat and the message text unchanged.
pub fn plan_delivery(config: &DispatchConfig, message: AlertMessage) -> (p: DeliveryPlan)
    ensures
        (config.telegram_token is None || config.telegram_chat_id is None) <==> p is Skip,
        p matches DeliveryPlan::Post { url, chat_id, text } ==> ({
            &&& config.telegram_token matches Some(t) && url@ == spec_bot_url(t@)
            &&& config.telegram_chat_id matches Some(c) && chat_id@ == c@
            &&& text@ == message.text@
        }),
{
    match (&config.telegram_token, &config.telegram_chat_id) {
        (Some(token), Some(chat)) => {
            let mut url = String::from_str("https://api.telegram.org/bot");
            url.append(token.as_str());
            url.append("/sendMessage");
            DeliveryPlan::Post { url, chat_id: chat.clone(), text: message.text }
        },
        _ => DeliveryPlan::Skip,
    }
}

} // verus!
