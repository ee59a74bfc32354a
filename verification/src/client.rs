//! The calendar client's core: the request body sent to the calendar
//! provider, the status check on its answer, and the extraction of the
//! normalized calendar out of the provider's nested JSON payload.

use vstd::prelude::*;
use crate::calendar::{ContributionCalendar, ContributionDay, Week};
use crate::errors::ServiceError;
use crate::json::{escape_json_text, escape_seq, json_get, JsonValue};

verus! {

/// The `weeks` array of the payload, reached through the nested
/// `data.user.contributionsCollection.contributionCalendar` path.
pub open spec fn weeks_of(v: JsonValue) -> Option<Seq<JsonValue>> {
    match json_get(v, "data"@) {
        Some(d) => match json_get(d, "user"@) {
            Some(u) => match json_get(u, "contributionsCollection"@) {
                Some(cc) => match json_get(cc, "contributionCalendar"@) {
                    Some(cal) => match json_get(cal, "weeks"@) {
                        Some(JsonValue::Arr(ws)) => Some(ws@),
                        _ => None,
                    },
                    None => None,
                },
                None => None,
            },
            None => None,
        },
        None => None,
    }
}

/// The `contributionDays` array of one week node.
pub open spec fn days_of(w: JsonValue) -> Option<Seq<JsonValue>> {
    match json_get(w, "contributionDays"@) {
        Some(JsonValue::Arr(ds)) => Some(ds@),
        _ => None,
    }
}

/// A day node carries a string `date`.
pub open spec fn day_date_wf(d: JsonValue) -> bool {
    match json_get(d, "date"@) {
        Some(JsonValue::Str(_)) => true,
        _ => false,
    }
}

/// A day node carries an integer `contributionCount` within `u32` range.
pub open spec fn day_count_wf(d: JsonValue) -> bool {
    match json_get(d, "contributionCount"@) {
        Some(JsonValue::Int(n)) => 0 <= n <= u32::MAX,
        _ => false,
    }
}

/// A day node has the expected shape.
pub open spec fn day_wf(d: JsonValue) -> bool {
    day_date_wf(d) && day_count_wf(d)
}

/// A week node has the expected shape: a day array, every day well-shaped.
pub open spec fn week_wf(w: JsonValue) -> bool {
    match days_of(w) {
        Some(ds) => forall|j: int| 0 <= j < ds.len() ==> day_wf(#[trigger] ds[j]),
        None => false,
    }
}

/// The whole payload has the expected nested shape.
pub open spec fn response_wf(v: JsonValue) -> bool {
    match weeks_of(v) {
        Some(ws) => forall|i: int| 0 <= i < ws.len() ==> week_wf(#[trigger] ws[i]),
        None => false,
    }
}

/// `d` is exactly the day that a well-shaped day node `v` describes.
pub open spec fn day_matches(d: ContributionDay, v: JsonValue) -> bool {
    &&& match json_get(v, "date"@) {
        Some(JsonValue::Str(s)) => d.date == s,
        _ => false,
    }
    &&& match json_get(v, "contributionCount"@) {
        Some(JsonValue::Int(n)) => d.count == n,
        _ => false,
    }
}

/// `w` holds exactly the days that week node `v` describes, in order.
pub open spec fn week_matches(w: Week, v: JsonValue) -> bool {
    match days_of(v) {
        Some(ds) => w.days@.len() == ds.len() && forall|j: int|
            0 <= j < ds.len() ==> day_matches(#[trigger] w.days@[j], ds[j]),
        None => false,
    }
}

/// `c` holds exactly the weeks that payload `v` describes, in order.
pub open spec fn calendar_matches(c: ContributionCalendar, v: JsonValue) -> bool {
    match weeks_of(v) {
        Some(ws) => c.weeks@.len() == ws.len() && forall|i: int|
            0 <= i < ws.len() ==> week_matches(#[trigger] c.weeks@[i], ws[i]),
        None => false,
    }
}

fn parse_day(v: &JsonValue) -> (r: Result<ContributionDay, ServiceError>)
    ensures
        r is Ok <==> day_wf(*v),
        r matches Ok(d) ==> day_matches(d, *v),
        r matches Err(e) ==> e == ServiceError::MalformedResponse,
{
    let date = match v.get("date") {
        Some(x) => match x.as_str() {
            Some(s) => s,
            None => {
                return Err(ServiceError::MalformedResponse);
            },
        },
        None => {
            return Err(ServiceError::MalformedResponse);
        },
    };
    let count = match v.get("contributionCount") {
        Some(x) => match x.as_int() {
            Some(n) => n,
            None => {
                return Err(ServiceError::MalformedResponse);
            },
        },
        None => {
            return Err(ServiceError::MalformedResponse);
        },
    };
    if count < 0 || count > u32::MAX as i64 {
        return Err(ServiceError::MalformedResponse);
    }
    Ok(ContributionDay { date: date.clone(), count: count as u32 })
}

fn parse_week(v: &JsonValue) -> (r: Result<Week, ServiceError>)
    ensures
        r is Ok <==> week_wf(*v),
        r matches Ok(w) ==> week_matches(w, *v),
        r matches Err(e) ==> e == ServiceError::MalformedResponse,
{
    let ds = match v.get("contributionDays") {
        Some(x) => match x.as_arr() {
            Some(a) => a,
            None => {
                return Err(ServiceError::MalformedResponse);
            },
        },
        None => {
            return Err(ServiceError::MalformedResponse);
        },
    };
    let mut days: Vec<ContributionDay> = Vec::new();
    let mut j: usize = 0;
    while j < ds.len()
        invariant
            days_of(*v) == Some(ds@),
            0 <= j <= ds@.len(),
            days@.len() == j,
            forall|k: int|
                0 <= k < j ==> day_wf(#[trigger] ds@[k]) && day_matches(days@[k], ds@[k]),
        decreases ds@.len() - j,
    {
        match parse_day(&ds[j]) {
            Ok(d) => {
                days.push(d);
            },
            Err(e) => {
                proof {
                    assert(!day_wf(ds@[j as int]));
                    assert(days_of(*v)->Some_0 == ds@);
                    if week_wf(*v) {
                        assert(day_wf(ds@[j as int]));
                    }
                }
                return Err(e);
            },
        }
        j = j + 1;
    }
    Ok(Week { days })
}

/// Extract the normalized calendar out of the provider's payload.
///
/// Succeeds exactly when the payload has the expected nested shape, and
/// then returns exactly the weeks and days the payload describes; any
/// shape mismatch is reported as `MalformedResponse`, never as an empty or
/// default calendar.
pub fn parse_calendar(v: &JsonValue) -> (r: Result<ContributionCalendar, ServiceError>)
    ensures
        r is Ok <==> response_wf(*v),
        r matches Ok(c) ==> calendar_matches(c, *v),
        r matches Err(e) ==> e == ServiceError::MalformedResponse,
{
    let d = match v.get("data") {
        Some(x) => x,
        None => {
            return Err(ServiceError::MalformedResponse);
        },
    };
    let u = match d.get("user") {
        Some(x) => x,
        None => {
            return Err(ServiceError::MalformedResponse);
        },
    };
    let cc = match u.get("contributionsCollection") {
        Some(x) => x,
        None => {
            return Err(ServiceError::MalformedResponse);
        },
    };
    let cal = match cc.get("contributionCalendar") {
        Some(x) => x,
        None => {
            return Err(ServiceError::MalformedResponse);
        },
    };
    let wsv = match cal.get("weeks") {
        Some(x) => x,
        None => {
            return Err(ServiceError::MalformedResponse);
        },
    };
    let ws = match wsv.as_arr() {
        Some(a) => a,
        None => {
            return Err(ServiceError::MalformedResponse);
        },
    };
    let mut weeks: Vec<Week> = Vec::new();
    let mut i: usize = 0;
    while i < ws.len()
        invariant
            weeks_of(*v) == Some(ws@),
            0 <= i <= ws@.len(),
            weeks@.len() == i,
            forall|k: int|
                0 <= k < i ==> week_wf(#[trigger] ws@[k]) && week_matches(weeks@[k], ws@[k]),
        decreases ws@.len() - i,
    {
        match parse_week(&ws[i]) {
            Ok(w) => {
                weeks.push(w);
            },
            Err(e) => {
                proof {
                    assert(!week_wf(ws@[i as int]));
                    assert(weeks_of(*v)->Some_0 == ws@);
                    if response_wf(*v) {
                        assert(week_wf(ws@[i as int]));
                    }
                }
                return Err(e);
            },
        }
        i = i + 1;
    }
    Ok(ContributionCalendar { weeks })
}

/// The request body asked of the calendar provider: the fixed query with
/// the tracked user bound as the `userName` variable.
pub open spec fn calendar_request_body_spec(user: Seq<char>) -> Seq<char> {
    "{\"query\":\"query($userName:String!){user(login:$userName){contributionsCollection{contributionCalendar{totalContributions weeks{contributionDays{contributionCount date}}}}}}\",\"variables\":{\"userName\":\""@
        + user + "\"}}"@
}

/// Frame the provider request body for the tracked user, escaping the user
/// identifier for its place inside the JSON string literal.
pub fn build_calendar_request_body(user: &str) -> (r: String)
    ensures
        r@ == calendar_request_body_spec(escape_seq(user@)),
{
    let u = escape_json_text(user);
    let mut body: String =
        "{\"query\":\"query($userName:String!){user(login:$userName){contributionsCollection{contributionCalendar{totalContributions weeks{contributionDays{contributionCount date}}}}}}\",\"variables\":{\"userName\":\"".to_owned();
    body.append(u.as_str());
    body.append("\"}}");
    body
}

/// Map an HTTP status from either provider: a success status passes,
/// anything else is `UpstreamRejected` carrying that status.
pub fn classify_status(status: u16) -> (r: Result<(), ServiceError>)
    ensures
        r is Ok <==> 200 <= status < 300,
        r matches Err(e) ==> e == ServiceError::UpstreamRejected(status),
{
    if 200 <= status && status < 300 {
        Ok(())
    } else {
        Err(ServiceError::UpstreamRejected(status))
    }
}

} // verus!
