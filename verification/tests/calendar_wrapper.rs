use tooldispatch::calendar::calendar_tool_registry;
use tooldispatch::calendar::freebusy_schema;
use tooldispatch::calendar::list_events_schema;
use tooldispatch::calendar::parse_events_args;
use tooldispatch::calendar::parse_freebusy_args;
use tooldispatch::calendar::parse_timezone_args;
use tooldispatch::calendar::plan_events;
use tooldispatch::calendar::plan_freebusy;
use tooldispatch::calendar::plan_list_calendars;
use tooldispatch::calendar::plan_timezone;
use tooldispatch::calendar::render_calendars;
use tooldispatch::calendar::render_events;
use tooldispatch::calendar::render_freebusy;
use tooldispatch::calendar::render_timezone;
use tooldispatch::decode::decode_args;
use tooldispatch::dispatch::ToolError;
use tooldispatch::http::HttpMethod;
use tooldispatch::text::u64_to_dec;
use tooldispatch::value::lookup_arg;
use tooldispatch::ArgValue;

fn str_val(s: &str) -> ArgValue {
    ArgValue::Str(s.to_string())
}

#[test]
fn calendar_registry_serves_four_tools() {
    let reg = calendar_tool_registry().unwrap();
    let names: Vec<&str> = reg.list().iter().map(|s| s.name.as_str()).collect();
    assert_eq!(
        names,
        vec![
            "list_calendars",
            "list_calendar_events",
            "retrieve_timezone",
            "retrieve_calendar_free_busy_slots",
        ]
    );
}

#[test]
fn decode_substitutes_calendar_defaults() {
    let out = decode_args(&list_events_schema(), vec![]).unwrap();
    let calendar_id = lookup_arg(&out, "calendar_id").unwrap();
    assert_eq!(*calendar_id, str_val("primary"));
    let verbose = lookup_arg(&out, "verbose").unwrap();
    assert_eq!(*verbose, ArgValue::Bool(false));
}

#[test]
fn decode_keeps_given_value_over_default() {
    let args = vec![("calendar_id".to_string(), str_val("work"))];
    let out = decode_args(&list_events_schema(), args).unwrap();
    let calendar_id = lookup_arg(&out, "calendar_id").unwrap();
    assert_eq!(*calendar_id, str_val("work"));
}

#[test]
fn decode_freebusy_requires_both_bounds() {
    let args = vec![("time_min".to_string(), str_val("2024-01-01T00:00:00Z"))];
    let err = decode_args(&freebusy_schema(), args).unwrap_err();
    assert_eq!(err.field, "time_max");
}

#[test]
fn plan_list_calendars_url() {
    let p = plan_list_calendars("https://www.googleapis.com/calendar/v3", "tok");
    assert_eq!(p.method, HttpMethod::Get);
    assert_eq!(p.url, "https://www.googleapis.com/calendar/v3/users/me/calendarList");
    assert_eq!(p.bearer, "tok");
}

#[test]
fn plan_events_url_and_query() {
    let args = vec![
        ("calendar_id".to_string(), str_val("work")),
        ("time_min".to_string(), str_val("2024-01-01T00:00:00Z")),
        ("time_max".to_string(), str_val("2024-01-31T00:00:00Z")),
    ];
    let a = parse_events_args(&args);
    let p = plan_events(&a, "https://www.googleapis.com/calendar/v3", "tok");
    assert_eq!(p.url, "https://www.googleapis.com/calendar/v3/calendars/work/events");
    assert_eq!(
        p.query,
        vec![
            ("timeMax".to_string(), "2024-01-31T00:00:00Z".to_string()),
            ("timeMin".to_string(), "2024-01-01T00:00:00Z".to_string()),
        ]
    );
}

#[test]
fn plan_timezone_url_defaults_to_primary() {
    let a = parse_timezone_args(&vec![]);
    let p = plan_timezone(&a, "https://www.googleapis.com/calendar/v3", "tok");
    assert_eq!(p.url, "https://www.googleapis.com/calendar/v3/calendars/primary");
}

#[test]
fn plan_freebusy_posts_typed_body() {
    let args = vec![
        ("time_min".to_string(), str_val("2024-01-01T00:00:00Z")),
        ("time_max".to_string(), str_val("2024-01-02T00:00:00Z")),
        (
            "calendar_ids".to_string(),
            ArgValue::Arr(vec![str_val("primary"), str_val("work")]),
        ),
    ];
    let a = parse_freebusy_args(&args).unwrap();
    assert_eq!(a.timezone, "UTC");
    let p = plan_freebusy(&a, "https://www.googleapis.com/calendar/v3", "tok");
    assert_eq!(p.method, HttpMethod::Post);
    assert_eq!(p.url, "https://www.googleapis.com/calendar/v3/freeBusy");
    assert_eq!(
        p.body,
        Some(ArgValue::Obj(vec![
            ("timeMin".to_string(), str_val("2024-01-01T00:00:00Z")),
            ("timeMax".to_string(), str_val("2024-01-02T00:00:00Z")),
            ("timeZone".to_string(), str_val("UTC")),
            (
                "items".to_string(),
                ArgValue::Arr(vec![
                    ArgValue::Obj(vec![("id".to_string(), str_val("primary"))]),
                    ArgValue::Obj(vec![("id".to_string(), str_val("work"))]),
                ])
            ),
        ]))
    );
}

#[test]
fn parse_freebusy_rejects_non_string_ids() {
    let args = vec![
        ("time_min".to_string(), str_val("a")),
        ("time_max".to_string(), str_val("b")),
        ("calendar_ids".to_string(), ArgValue::Arr(vec![ArgValue::Int(3)])),
    ];
    assert_eq!(
        parse_freebusy_args(&args),
        Err(ToolError::Handler("calendar_ids must be a list of strings".to_string()))
    );
}

#[test]
fn render_calendars_lists_each_item() {
    let body = ArgValue::Obj(vec![(
        "items".to_string(),
        ArgValue::Arr(vec![ArgValue::Obj(vec![
            ("summary".to_string(), str_val("Work")),
            ("id".to_string(), str_val("work@example.com")),
            ("primary".to_string(), ArgValue::Bool(true)),
            ("accessRole".to_string(), str_val("owner")),
        ])]),
    )]);
    assert_eq!(
        render_calendars(&body),
        "**Calendars List**\n\n\u{2022} **Work** (ID: work@example.com)\n  - Primary: true\n  - Access Role: owner\n\n"
    );
}

#[test]
fn render_calendars_without_items_is_bare_header() {
    assert_eq!(render_calendars(&ArgValue::Obj(vec![])), "**Calendars List**\n\n");
}

#[test]
fn render_events_empty() {
    let body = ArgValue::Obj(vec![("items".to_string(), ArgValue::Arr(vec![]))]);
    assert_eq!(
        render_events(&body, false),
        "No events found for the specified time period."
    );
}

#[test]
fn render_events_basic_block() {
    let event = ArgValue::Obj(vec![
        ("summary".to_string(), str_val("Standup")),
        (
            "start".to_string(),
            ArgValue::Obj(vec![("dateTime".to_string(), str_val("2024-01-01T09:00:00Z"))]),
        ),
        (
            "end".to_string(),
            ArgValue::Obj(vec![("date".to_string(), str_val("2024-01-01"))]),
        ),
    ]);
    let body = ArgValue::Obj(vec![("items".to_string(), ArgValue::Arr(vec![event]))]);
    assert_eq!(
        render_events(&body, false),
        "**Calendar Events** (1 found)\n\n### Standup\n**Start**: 2024-01-01T09:00:00Z\n**End**: 2024-01-01\n\n---\n\n"
    );
}

#[test]
fn render_events_verbose_includes_attendees() {
    let event = ArgValue::Obj(vec![
        ("summary".to_string(), str_val("Standup")),
        ("status".to_string(), str_val("confirmed")),
        (
            "attendees".to_string(),
            ArgValue::Arr(vec![ArgValue::Obj(vec![
                ("email".to_string(), str_val("ada@example.com")),
                ("responseStatus".to_string(), str_val("accepted")),
            ])]),
        ),
        ("location".to_string(), str_val("Room 1")),
    ]);
    let body = ArgValue::Obj(vec![("items".to_string(), ArgValue::Arr(vec![event]))]);
    let text = render_events(&body, true);
    assert!(text.contains("**Status**: confirmed\n"));
    assert!(text.contains("**Creator**: Unknown\n"));
    assert!(text.contains("**Attendees** (1):\n  - ada@example.com (accepted)\n"));
    assert!(text.contains("**Location**: Room 1\n"));
}

#[test]
fn render_events_truncates_at_whole_blocks() {
    let long = "x".repeat(9000);
    let event = ArgValue::Obj(vec![("summary".to_string(), ArgValue::Str(long))]);
    let body = ArgValue::Obj(vec![("items".to_string(), ArgValue::Arr(vec![event]))]);
    let text = render_events(&body, false);
    assert_eq!(
        text,
        "**Calendar Events** (1 found)\n\n\n\n*[Response truncated - too much data]*"
    );
}

#[test]
fn render_timezone_exactly() {
    let body = ArgValue::Obj(vec![
        ("summary".to_string(), str_val("Work")),
        ("timeZone".to_string(), str_val("Europe/Berlin")),
    ]);
    assert_eq!(
        render_timezone(&body),
        "**Calendar Timezone Information**\n\n**Calendar**: Work\n**Timezone**: Europe/Berlin\n**Location**: Not specified\n"
    );
}

#[test]
fn render_freebusy_sections() {
    let args = vec![
        ("time_min".to_string(), str_val("2024-01-01T00:00:00Z")),
        ("time_max".to_string(), str_val("2024-01-02T00:00:00Z")),
    ];
    let a = parse_freebusy_args(&args).unwrap();
    let body = ArgValue::Obj(vec![(
        "calendars".to_string(),
        ArgValue::Obj(vec![
            (
                "primary".to_string(),
                ArgValue::Obj(vec![(
                    "busy".to_string(),
                    ArgValue::Arr(vec![ArgValue::Obj(vec![
                        ("start".to_string(), str_val("2024-01-01T09:00:00Z")),
                        ("end".to_string(), str_val("2024-01-01T10:00:00Z")),
                    ])]),
                )]),
            ),
            (
                "work".to_string(),
                ArgValue::Obj(vec![
                    ("busy".to_string(), ArgValue::Arr(vec![])),
                    (
                        "errors".to_string(),
                        ArgValue::Arr(vec![ArgValue::Obj(vec![(
                            "reason".to_string(),
                            str_val("notFound"),
                        )])]),
                    ),
                ]),
            ),
        ]),
    )]);
    assert_eq!(
        render_freebusy(&a, &body),
        "**Free/Busy Information**\n\n**Time Range**: 2024-01-01T00:00:00Z to 2024-01-02T00:00:00Z\n**Timezone**: UTC\n\n### Calendar: primary\n**Busy periods**:\n  - 2024-01-01T09:00:00Z to 2024-01-01T10:00:00Z\n\n### Calendar: work\n**No busy periods found**\n**Errors**:\n  - notFound\n\n"
    );
}

#[test]
fn decimal_rendering() {
    assert_eq!(u64_to_dec(0), "0");
    assert_eq!(u64_to_dec(7), "7");
    assert_eq!(u64_to_dec(10), "10");
    assert_eq!(u64_to_dec(12045), "12045");
}

#[test]
fn decode_freebusy_substitutes_nested_defaults() {
    let args = vec![
        ("time_min".to_string(), str_val("a")),
        ("time_max".to_string(), str_val("b")),
    ];
    let out = decode_args(&freebusy_schema(), args).unwrap();
    assert_eq!(*lookup_arg(&out, "timezone").unwrap(), str_val("UTC"));
    assert_eq!(
        *lookup_arg(&out, "calendar_ids").unwrap(),
        ArgValue::Arr(vec![str_val("primary")])
    );
}

#[test]
fn lookup_takes_the_first_of_equal_keys() {
    let m = vec![
        ("k".to_string(), str_val("first")),
        ("k".to_string(), str_val("second")),
    ];
    assert_eq!(*lookup_arg(&m, "k").unwrap(), str_val("first"));
}
