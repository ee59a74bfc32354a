//! The notification side: the short status texts, the framed request bodies
//! for the messaging provider's push and reply calls, and the reply plan for
//! a webhook batch.

use vstd::prelude::*;
use crate::json::{escape_json_text, escape_seq};

verus! {

/// One element of an inbound webhook batch: the one-time reply address it
/// carries and its message text.
pub struct InboundEvent {
    pub reply_address: String,
    pub message: String,
}

/// One reply that is owed: the address to reply to and the framed request
/// body to send there.
pub struct ReplyDirective {
    pub reply_address: String,
    pub body: String,
}

/// One push that is owed: the fixed recipient and the framed request body.
pub struct PushDirective {
    pub to: String,
    pub body: String,
}

/// The status text: affirmative when a contribution was found, negative
/// otherwise.
pub open spec fn text_for_spec(contributed: bool) -> Seq<char> {
    if contributed {
        "done"@
    } else {
        "yet"@
    }
}

/// Map the evaluation outcome to the short status text.
pub fn text_for(contributed: bool) -> (r: String)
    ensures
        r@ == text_for_spec(contributed),
{
    if contributed {
        "done".to_owned()
    } else {
        "yet".to_owned()
    }
}

/// The messaging provider's reply body: one text message for the given
/// reply token.
pub open spec fn reply_body_spec(token: Seq<char>, text: Seq<char>) -> Seq<char> {
    "{\"replyToken\":\""@ + token + "\",\"messages\":[{\"type\":\"text\",\"text\":\""@ + text
        + "\"}]}"@
}

/// The messaging provider's push body: one text message for the given
/// recipient.
pub open spec fn push_body_spec(to: Seq<char>, text: Seq<char>) -> Seq<char> {
    "{\"to\":\""@ + to + "\",\"messages\":[{\"type\":\"text\",\"text\":\""@ + text + "\"}]}"@
}

/// Frame the reply body for one reply token, escaping both texts for
/// their place inside the JSON string literals.
pub fn build_reply_body(token: &str, text: &str) -> (r: String)
    ensures
        r@ == reply_body_spec(escape_seq(token@), escape_seq(text@)),
{
    let tok = escape_json_text(token);
    let tx = escape_json_text(text);
    let mut body: String = "{\"replyToken\":\"".to_owned();
    body.append(tok.as_str());
    body.append("\",\"messages\":[{\"type\":\"text\",\"text\":\"");
    body.append(tx.as_str());
    body.append("\"}]}");
    body
}

/// Frame the push body for the fixed recipient, escaping both texts for
/// their place inside the JSON string literals.
pub fn build_push_body(to: &str, text: &str) -> (r: String)
    ensures
        r@ == push_body_spec(escape_seq(to@), escape_seq(text@)),
{
    let rcpt = escape_json_text(to);
    let tx = escape_json_text(text);
    let mut body: String = "{\"to\":\"".to_owned();
    body.append(rcpt.as_str());
    body.append("\",\"messages\":[{\"type\":\"text\",\"text\":\"");
    body.append(tx.as_str());
    body.append("\"}]}");
    body
}

/// Plan the replies for a webhook batch: one directive per inbound event,
/// in order, each keyed to that event's own reply address and carrying the
/// status text for the shared evaluation outcome. Every event gets its
/// directive; no outcome of any single delivery can remove another event's.
pub fn plan_replies(events: &Vec<InboundEvent>, contributed: bool) -> (r: Vec<ReplyDirective>)
    ensures
        r@.len() == events@.len(),
        forall|i: int|
            0 <= i < events@.len() ==> (#[trigger] r@[i]).reply_address@
                == events@[i].reply_address@ && r@[i].body@ == reply_body_spec(
                escape_seq(events@[i].reply_address@),
                escape_seq(text_for_spec(contributed)),
            ),
{
    let text = text_for(contributed);
    let mut out: Vec<ReplyDirective> = Vec::new();
    let mut i: usize = 0;
    while i < events.len()
        invariant
            0 <= i <= events@.len(),
            out@.len() == i,
            text@ == text_for_spec(contributed),
            forall|k: int|
                0 <= k < i ==> (#[trigger] out@[k]).reply_address@ == events@[k].reply_address@
                    && out@[k].body@ == reply_body_spec(
                    escape_seq(events@[k].reply_address@),
                    escape_seq(text_for_spec(contributed)),
                ),
        decreases events@.len() - i,
    {
        let ev = &events[i];
        let body = build_reply_body(ev.reply_address.as_str(), text.as_str());
        out.push(ReplyDirective { reply_address: ev.reply_address.clone(), body });
        i = i + 1;
    }
    out
}

} // verus!
