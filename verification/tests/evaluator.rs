use contrib_notify::calendar::{ContributionCalendar, ContributionDay, Week, evaluate};
use contrib_notify::client::{build_calendar_request_body, classify_status, parse_calendar};
use contrib_notify::config::build_config;
use contrib_notify::errors::{ConfigError, ServiceError};
use contrib_notify::handlers::{evaluate_fetch, pull_cycle, webhook_cycle};
use contrib_notify::json::JsonValue;
use contrib_notify::notify::{InboundEvent, build_push_body, build_reply_body, text_for};

fn one_day_calendar(date: &str, count: u32) -> ContributionCalendar {
    ContributionCalendar {
        weeks: vec![Week {
            days: vec![ContributionDay { date: date.to_string(), count }],
        }],
    }
}

#[test]
fn contribution_found_on_matching_date() {
    let cal = one_day_calendar("2024-08-15", 3);
    let r = evaluate(&cal, &"2024-08-15".to_string());
    assert!(r.contributed);
    assert_eq!(r.date, "2024-08-15");
}

#[test]
fn zero_count_on_matching_date_is_no_contribution() {
    let cal = one_day_calendar("2024-08-15", 0);
    let r = evaluate(&cal, &"2024-08-15".to_string());
    assert!(!r.contributed);
}

#[test]
fn empty_calendar_is_no_contribution() {
    let cal = ContributionCalendar { weeks: vec![] };
    let r = evaluate(&cal, &"2024-08-15".to_string());
    assert!(!r.contributed);
    let cal2 = ContributionCalendar { weeks: vec![] };
    let r2 = evaluate(&cal2, &"1999-01-01".to_string());
    assert!(!r2.contributed);
}

#[test]
fn absent_date_is_no_contribution() {
    let cal = one_day_calendar("2024-08-15", 5);
    let r = evaluate(&cal, &"2024-08-16".to_string());
    assert!(!r.contributed);
}

#[test]
fn scan_covers_every_week() {
    let cal = ContributionCalendar {
        weeks: vec![
            Week { days: vec![ContributionDay { date: "2024-08-10".to_string(), count: 0 }] },
            Week { days: vec![ContributionDay { date: "2024-08-15".to_string(), count: u32::MAX }] },
        ],
    };
    let r = evaluate(&cal, &"2024-08-15".to_string());
    assert!(r.contributed);
}

fn obj(members: Vec<(&str, JsonValue)>) -> JsonValue {
    JsonValue::Obj(members.into_iter().map(|(k, v)| (k.to_string(), v)).collect())
}

fn day_node(date: &str, count: i64) -> JsonValue {
    obj(vec![
        ("contributionCount", JsonValue::Int(count)),
        ("date", JsonValue::Str(date.to_string())),
    ])
}

fn payload(weeks: Vec<JsonValue>) -> JsonValue {
    obj(vec![(
        "data",
        obj(vec![(
            "user",
            obj(vec![(
                "contributionsCollection",
                obj(vec![(
                    "contributionCalendar",
                    obj(vec![
                        ("totalContributions", JsonValue::Int(12)),
                        ("weeks", JsonValue::Arr(weeks)),
                    ]),
                )]),
            )]),
        )]),
    )])
}

#[test]
fn well_shaped_payload_parses() {
    let v = payload(vec![
        obj(vec![(
            "contributionDays",
            JsonValue::Arr(vec![day_node("2024-08-14", 0), day_node("2024-08-15", 3)]),
        )]),
    ]);
    let cal = parse_calendar(&v).expect("shape is good");
    assert_eq!(cal.weeks.len(), 1);
    assert_eq!(cal.weeks[0].days.len(), 2);
    assert_eq!(cal.weeks[0].days[0].date, "2024-08-14");
    assert_eq!(cal.weeks[0].days[0].count, 0);
    assert_eq!(cal.weeks[0].days[1].date, "2024-08-15");
    assert_eq!(cal.weeks[0].days[1].count, 3);
    let r = evaluate(&cal, &"2024-08-15".to_string());
    assert!(r.contributed);
}

#[test]
fn empty_weeks_payload_parses_empty() {
    let v = payload(vec![]);
    let cal = parse_calendar(&v).expect("shape is good");
    assert!(cal.weeks.is_empty());
}

#[test]
fn missing_path_is_malformed() {
    let v = obj(vec![("data", obj(vec![]))]);
    assert_eq!(parse_calendar(&v).err(), Some(ServiceError::MalformedResponse));
}

#[test]
fn negative_count_is_malformed() {
    let v = payload(vec![obj(vec![(
        "contributionDays",
        JsonValue::Arr(vec![day_node("2024-08-15", -1)]),
    )])]);
    assert_eq!(parse_calendar(&v).err(), Some(ServiceError::MalformedResponse));
}

#[test]
fn non_integer_count_is_malformed() {
    let v = payload(vec![obj(vec![(
        "contributionDays",
        JsonValue::Arr(vec![obj(vec![
            ("contributionCount", JsonValue::BigNum),
            ("date", JsonValue::Str("2024-08-15".to_string())),
        ])]),
    )])]);
    assert_eq!(parse_calendar(&v).err(), Some(ServiceError::MalformedResponse));
}

#[test]
fn count_above_u32_is_malformed() {
    let v = payload(vec![obj(vec![(
        "contributionDays",
        JsonValue::Arr(vec![day_node("2024-08-15", (u32::MAX as i64) + 1)]),
    )])]);
    assert_eq!(parse_calendar(&v).err(), Some(ServiceError::MalformedResponse));
    let ok = payload(vec![obj(vec![(
        "contributionDays",
        JsonValue::Arr(vec![day_node("2024-08-15", u32::MAX as i64)]),
    )])]);
    assert!(parse_calendar(&ok).is_ok());
}

#[test]
fn request_body_carries_user() {
    let body = build_calendar_request_body("octocat");
    assert!(body.starts_with("{\"query\":\"query($userName:String!)"));
    assert!(body.ends_with("\"variables\":{\"userName\":\"octocat\"}}"));
}

#[test]
fn status_classification() {
    assert!(classify_status(200).is_ok());
    assert!(classify_status(299).is_ok());
    assert_eq!(classify_status(404), Err(ServiceError::UpstreamRejected(404)));
    assert_eq!(classify_status(500), Err(ServiceError::UpstreamRejected(500)));
    assert_eq!(classify_status(199), Err(ServiceError::UpstreamRejected(199)));
}

#[test]
fn fetch_error_aborts_cycle_with_same_error() {
    let r = evaluate_fetch(Err(ServiceError::UpstreamUnavailable), &"2024-08-15".to_string());
    assert_eq!(r.err(), Some(ServiceError::UpstreamUnavailable));
    let r2 = pull_cycle(Err(ServiceError::UpstreamRejected(502)), &"2024-08-15".to_string());
    assert_eq!(r2.err(), Some(ServiceError::UpstreamRejected(502)));
}

#[test]
fn pull_cycle_reports_the_evaluation() {
    let r = pull_cycle(Ok(one_day_calendar("2024-08-15", 2)), &"2024-08-15".to_string())
        .expect("fetch was fine");
    assert!(r.contributed);
    assert_eq!(r.date, "2024-08-15");
}

#[test]
fn webhook_batch_gets_one_reply_each() {
    let events = vec![
        InboundEvent { reply_address: "tokenA".to_string(), message: "hi".to_string() },
        InboundEvent { reply_address: "tokenB".to_string(), message: "yo".to_string() },
    ];
    let r = webhook_cycle(&events, Ok(one_day_calendar("2024-08-15", 1)), &"2024-08-15".to_string())
        .expect("fetch was fine");
    assert_eq!(r.len(), 2);
    assert_eq!(r[0].reply_address, "tokenA");
    assert_eq!(r[1].reply_address, "tokenB");
    // Delivery outcomes are independent: a failed first send removes nothing
    // from the plan, so the second reply is still attempted.
    let mut attempted = Vec::new();
    for (i, d) in r.iter().enumerate() {
        let outcome = if i == 0 { classify_status(500) } else { classify_status(200) };
        attempted.push((d.reply_address.clone(), outcome.is_ok()));
    }
    assert_eq!(attempted.len(), 2);
    assert_eq!(attempted[0], ("tokenA".to_string(), false));
    assert_eq!(attempted[1], ("tokenB".to_string(), true));
}

#[test]
fn webhook_fetch_failure_fails_whole_request() {
    let events = vec![InboundEvent {
        reply_address: "tokenA".to_string(),
        message: "hi".to_string(),
    }];
    let r = webhook_cycle(&events, Err(ServiceError::MalformedResponse), &"2024-08-15".to_string());
    assert_eq!(r.err(), Some(ServiceError::MalformedResponse));
}

#[test]
fn status_texts() {
    assert_eq!(text_for(true), "done");
    assert_eq!(text_for(false), "yet");
}

#[test]
fn framed_bodies_are_exact() {
    assert_eq!(
        build_reply_body("rt-1", "done"),
        "{\"replyToken\":\"rt-1\",\"messages\":[{\"type\":\"text\",\"text\":\"done\"}]}"
    );
    assert_eq!(
        build_push_body("user-9", "yet"),
        "{\"to\":\"user-9\",\"messages\":[{\"type\":\"text\",\"text\":\"yet\"}]}"
    );
}

#[test]
fn body_texts_are_json_escaped() {
    assert_eq!(
        build_reply_body("a\"b\\c", "do\nne"),
        "{\"replyToken\":\"a\\\"b\\\\c\",\"messages\":[{\"type\":\"text\",\"text\":\"do\\nne\"}]}"
    );
    let body = build_calendar_request_body("tab\there");
    assert!(body.ends_with("\"variables\":{\"userName\":\"tab\\there\"}}"));
}

#[test]
fn config_needs_every_field() {
    let full = build_config(
        Some("gh".to_string()),
        Some("octocat".to_string()),
        Some("line".to_string()),
        Some("uid".to_string()),
        22,
        0,
    )
    .expect("all fields present");
    assert_eq!(full.tracked_user, "octocat");
    assert_eq!(full.recipient, "uid");
    assert_eq!(full.trigger_hour, 22);
    assert_eq!(full.trigger_minute, 0);
    let missing = build_config(
        Some("gh".to_string()),
        None,
        Some("line".to_string()),
        Some("uid".to_string()),
        22,
        0,
    );
    assert_eq!(missing.err(), Some(ConfigError::ConfigurationMissing));
}
