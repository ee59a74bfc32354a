//! The three delivery paths share one evaluation core: take what the
//! calendar fetch produced, evaluate it for the target date, and shape the
//! answer for the pull response, the webhook replies, or the daily push.

use vstd::prelude::*;
use crate::calendar::{cal_contributed, evaluate, ContributionCalendar, EvaluationResult};
use crate::errors::ServiceError;
use crate::json::escape_seq;
use crate::notify::{
    build_push_body, plan_replies, push_body_spec, reply_body_spec, text_for, text_for_spec,
    InboundEvent, PushDirective, ReplyDirective,
};

verus! {

/// The unified evaluation core: a failed fetch aborts the cycle with that
/// same error — never a default "no contribution" answer — and a fetched
/// calendar is evaluated for the target date.
pub fn evaluate_fetch(
    fetch: Result<ContributionCalendar, ServiceError>,
    today: &String,
) -> (r: Result<EvaluationResult, ServiceError>)
    ensures
        r is Ok <==> fetch is Ok,
        fetch matches Err(e) ==> r matches Err(e2) && e2 == e,
        fetch matches Ok(c) ==> r matches Ok(res) && res.date@ == today@ && res.contributed
            == cal_contributed(c, today@),
{
    match fetch {
        Ok(cal) => Ok(evaluate(&cal, today)),
        Err(e) => Err(e),
    }
}

/// The pull path: the evaluation result itself is the response; no
/// notification is dispatched.
pub fn pull_cycle(
    fetch: Result<ContributionCalendar, ServiceError>,
    today: &String,
) -> (r: Result<EvaluationResult, ServiceError>)
    ensures
        r is Ok <==> fetch is Ok,
        fetch matches Err(e) ==> r matches Err(e2) && e2 == e,
        fetch matches Ok(c) ==> r matches Ok(res) && res.date@ == today@ && res.contributed
            == cal_contributed(c, today@),
{
    evaluate_fetch(fetch, today)
}

/// The webhook path: one shared fetch and evaluation for the batch, then
/// one reply directive per inbound event, each keyed to its own reply
/// address. A failed fetch fails the whole request with that error.
pub fn webhook_cycle(
    events: &Vec<InboundEvent>,
    fetch: Result<ContributionCalendar, ServiceError>,
    today: &String,
) -> (r: Result<Vec<ReplyDirective>, ServiceError>)
    ensures
        r is Ok <==> fetch is Ok,
        fetch matches Err(e) ==> r matches Err(e2) && e2 == e,
        fetch matches Ok(c) ==> r matches Ok(ds) && ds@.len() == events@.len() && forall|i: int|
            0 <= i < events@.len() ==> (#[trigger] ds@[i]).reply_address@
                == events@[i].reply_address@ && ds@[i].body@ == reply_body_spec(
                escape_seq(events@[i].reply_address@),
                escape_seq(text_for_spec(cal_contributed(c, today@))),
            ),
{
    match evaluate_fetch(fetch, today) {
        Ok(res) => Ok(plan_replies(events, res.contributed)),
        Err(e) => Err(e),
    }
}

/// The daily push path: evaluate the fetched calendar and frame the one
/// push that the trigger owes to the fixed recipient. A failed fetch skips
/// that day's push, reporting the error.
pub fn push_cycle(
    fetch: Result<ContributionCalendar, ServiceError>,
    today: &String,
    recipient: &str,
) -> (r: Result<PushDirective, ServiceError>)
    ensures
        r is Ok <==> fetch is Ok,
        fetch matches Err(e) ==> r matches Err(e2) && e2 == e,
        fetch matches Ok(c) ==> r matches Ok(p) && p.to@ == recipient@ && p.body@
            == push_body_spec(
            escape_seq(recipient@),
            escape_seq(text_for_spec(cal_contributed(c, today@))),
        ),
{
    match evaluate_fetch(fetch, today) {
        Ok(res) => {
            let text = text_for(res.contributed);
            let body = build_push_body(recipient, text.as_str());
            Ok(PushDirective { to: recipient.to_owned(), body })
        },
        Err(e) => Err(e),
    }
}

} // verus!
