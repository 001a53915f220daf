//! The calendar wrapper: tool schemas, typed arguments, request planning,
//! and rendering for a calendar HTTP API.
//!
//! Four read-only tools: list the user's calendars, list a calendar's events
//! over a time window (with a capped, whole-event rendering), retrieve a
//! calendar's timezone, and query free/busy slots across several calendars.

use vstd::prelude::*;

use crate::dispatch::ToolError;
use crate::dispatch::ToolErrorV;
use crate::http::HttpMethod;
use crate::http::HttpRequestSpec;
use crate::http::HttpRequestV;
use crate::schema::ParamDef;
use crate::schema::ParamDefV;
use crate::schema::ParamType;
use crate::schema::SchemaV;
use crate::schema::ToolSchema;
use crate::value::arg_map_view;
use crate::value::lemma_fields_view;
use crate::value::lemma_seq_view;
use crate::value::opt_str_arg;
use crate::value::opt_view;
use crate::value::seq_view;
use crate::value::spec_opt_str;
use crate::value::str_or;
use crate::value::ArgValue;
use crate::value::Val;

verus! {

/// The schema `list_calendars` is registered under: no parameters.
pub open spec fn spec_list_calendars_schema() -> SchemaV {
    SchemaV {
        name: "list_calendars"@,
        description: "Lists all user calendars."@,
        params: Seq::empty(),
        required: Seq::empty(),
    }
}

/// The schema `list_calendars` is registered under.
pub fn list_calendars_schema() -> (r: ToolSchema)
    ensures
        r@ == spec_list_calendars_schema(),
{
    let r = ToolSchema {
        name: String::from_str("list_calendars"),
        description: String::from_str("Lists all user calendars."),
        params: Vec::new(),
        required: Vec::new(),
    };
    proof {
        assert(r@ =~~= spec_list_calendars_schema());
    }
    r
}

/// The schema `list_calendar_events` is registered under: the calendar id
/// defaults to `primary`, the time bounds are optional, and `verbose`
/// defaults to off.
pub open spec fn spec_list_events_schema() -> SchemaV {
    SchemaV {
        name: "list_calendar_events"@,
        description: "Get all events for a specified time period for a given calendar."@,
        params: seq![
            ParamDefV {
                name: "calendar_id"@,
                ptype: ParamType::Text,
                allowed: Option::None,
                default: Option::Some(Val::Str("primary"@)),
            },
            ParamDefV {
                name: "time_max"@,
                ptype: ParamType::Text,
                allowed: Option::None,
                default: Option::None,
            },
            ParamDefV {
                name: "time_min"@,
                ptype: ParamType::Text,
                allowed: Option::None,
                default: Option::None,
            },
            ParamDefV {
                name: "verbose"@,
                ptype: ParamType::Flag,
                allowed: Option::None,
                default: Option::Some(Val::Bool(false)),
            },
        ],
        required: Seq::empty(),
    }
}

/// The schema `list_calendar_events` is registered under.
pub fn list_events_schema() -> (r: ToolSchema)
    ensures
        r@ == spec_list_events_schema(),
{
    let mut params: Vec<ParamDef> = Vec::new();
    params.push(
        ParamDef {
            name: String::from_str("calendar_id"),
            ptype: ParamType::Text,
            allowed: None,
            default: Some(ArgValue::Str(String::from_str("primary"))),
        },
    );
    params.push(
        ParamDef {
            name: String::from_str("time_max"),
            ptype: ParamType::Text,
            allowed: None,
            default: None,
        },
    );
    params.push(
        ParamDef {
            name: String::from_str("time_min"),
            ptype: ParamType::Text,
            allowed: None,
            default: None,
        },
    );
    params.push(
        ParamDef {
            name: String::from_str("verbose"),
            ptype: ParamType::Flag,
            allowed: None,
            default: Some(ArgValue::Bool(false)),
        },
    );
    let r = ToolSchema {
        name: String::from_str("list_calendar_events"),
        description: String::from_str(
            "Get all events for a specified time period for a given calendar.",
        ),
        params,
        required: Vec::new(),
    };
    proof {
        assert(r@.params =~~= spec_list_events_schema().params);
        assert(r@ =~~= spec_list_events_schema());
    }
    r
}

/// The schema `retrieve_timezone` is registered under: the calendar id
/// defaults to `primary`.
pub open spec fn spec_timezone_schema() -> SchemaV {
    SchemaV {
        name: "retrieve_timezone"@,
        description: "Retrieves timezone for a given calendar."@,
        params: seq![
            ParamDefV {
                name: "calendar_id"@,
                ptype: ParamType::Text,
                allowed: Option::None,
                default: Option::Some(Val::Str("primary"@)),
            },
        ],
        required: Seq::empty(),
    }
}

/// The schema `retrieve_timezone` is registered under.
pub fn timezone_schema() -> (r: ToolSchema)
    ensures
        r@ == spec_timezone_schema(),
{
    let mut params: Vec<ParamDef> = Vec::new();
    params.push(
        ParamDef {
            name: String::from_str("calendar_id"),
            ptype: ParamType::Text,
            allowed: None,
            default: Some(ArgValue::Str(String::from_str("primary"))),
        },
    );
    let r = ToolSchema {
        name: String::from_str("retrieve_timezone"),
        description: String::from_str("Retrieves timezone for a given calendar."),
        params,
        required: Vec::new(),
    };
    proof {
        assert(r@.params =~~= spec_timezone_schema().params);
        assert(r@ =~~= spec_timezone_schema());
    }
    r
}

/// The schema `retrieve_calendar_free_busy_slots` is registered under: the
/// time bounds are required, the timezone defaults to `UTC`, and the queried
/// calendars default to the primary one.
pub open spec fn spec_freebusy_schema() -> SchemaV {
    SchemaV {
        name: "retrieve_calendar_free_busy_slots"@,
        description: "Retrieves free and busy slots from the calendars of the calendar_ids list."@,
        params: seq![
            ParamDefV {
                name: "time_min"@,
                ptype: ParamType::Text,
                allowed: Option::None,
                default: Option::None,
            },
            ParamDefV {
                name: "time_max"@,
                ptype: ParamType::Text,
                allowed: Option::None,
                default: Option::None,
            },
            ParamDefV {
                name: "timezone"@,
                ptype: ParamType::Text,
                allowed: Option::None,
                default: Option::Some(Val::Str("UTC"@)),
            },
            ParamDefV {
                name: "calendar_ids"@,
                ptype: ParamType::List,
                allowed: Option::None,
                default: Option::Some(Val::Arr(seq![Val::Str("primary"@)])),
            },
        ],
        required: seq!["time_min"@, "time_max"@],
    }
}

/// The schema `retrieve_calendar_free_busy_slots` is registered under.
pub fn freebusy_schema() -> (r: ToolSchema)
    ensures
        r@ == spec_freebusy_schema(),
{
    let mut params: Vec<ParamDef> = Vec::new();
    params.push(
        ParamDef {
            name: String::from_str("time_min"),
            ptype: ParamType::Text,
            allowed: None,
            default: None,
        },
    );
    params.push(
        ParamDef {
            name: String::from_str("time_max"),
            ptype: ParamType::Text,
            allowed: None,
            default: None,
        },
    );
    params.push(
        ParamDef {
            name: String::from_str("timezone"),
            ptype: ParamType::Text,
            allowed: None,
            default: Some(ArgValue::Str(String::from_str("UTC"))),
        },
    );
    let mut default_ids: Vec<ArgValue> = Vec::new();
    default_ids.push(ArgValue::Str(String::from_str("primary")));
    proof {
        lemma_seq_view(default_ids@);
        assert(seq_view(default_ids@) =~= seq![Val::Str("primary"@)]);
    }
    params.push(
        ParamDef {
            name: String::from_str("calendar_ids"),
            ptype: ParamType::List,
            allowed: None,
            default: Some(ArgValue::Arr(default_ids)),
        },
    );
    let mut required: Vec<String> = Vec::new();
    required.push(String::from_str("time_min"));
    required.push(String::from_str("time_max"));
    let r = ToolSchema {
        name: String::from_str("retrieve_calendar_free_busy_slots"),
        description: String::from_str(
            "Retrieves free and busy slots from the calendars of the calendar_ids list.",
        ),
        params,
        required,
    };
    proof {
        assert(r@.params =~~= spec_freebusy_schema().params);
        assert(r@.required =~~= spec_freebusy_schema().required);
        assert(r@ =~~= spec_freebusy_schema());
    }
    r
}

/// The typed arguments of one `list_calendar_events` call.
#[derive(Debug, PartialEq, Eq)]
pub struct EventsArgs {
    pub calendar_id: String,
    pub time_max: Option<String>,
    pub time_min: Option<String>,
    pub verbose: bool,
}

/// The mathematical model of `list_calendar_events` arguments.
#[verifier::ext_equal]
pub struct EventsArgsV {
    pub calendar_id: Seq<char>,
    pub time_max: Option<Seq<char>>,
    pub time_min: Option<Seq<char>>,
    pub verbose: bool,
}

impl View for EventsArgs {
    type V = EventsArgsV;

    open spec fn view(&self) -> EventsArgsV {
        EventsArgsV {
            calendar_id: self.calendar_id@,
            time_max: opt_view(self.time_max),
            time_min: opt_view(self.time_min),
            verbose: self.verbose,
        }
    }
}

/// What parsing a decoded `list_calendar_events` argument map yields; the
/// schema's defaults make the fallbacks here unreachable through dispatch.
pub open spec fn spec_parse_events_args(m: Seq<(Seq<char>, Val)>) -> EventsArgsV {
    EventsArgsV {
        calendar_id: str_or(spec_opt_str(m, "calendar_id"@), "primary"@),
        time_max: spec_opt_str(m, "time_max"@),
        time_min: spec_opt_str(m, "time_min"@),
        verbose: crate::value::spec_opt_bool_or(m, "verbose"@, false),
    }
}

/// Parse a decoded `list_calendar_events` argument map.
pub fn parse_events_args(args: &Vec<(String, ArgValue)>) -> (r: EventsArgs)
    ensures
        r@ == spec_parse_events_args(arg_map_view(args@)),
{
    let calendar_id = match opt_str_arg(args, "calendar_id") {
        Some(s) => s,
        None => String::from_str("primary"),
    };
    EventsArgs {
        calendar_id,
        time_max: opt_str_arg(args, "time_max"),
        time_min: opt_str_arg(args, "time_min"),
        verbose: crate::value::opt_bool_arg_or(args, "verbose", false),
    }
}

/// The typed arguments of one `retrieve_timezone` call.
#[derive(Debug, PartialEq, Eq)]
pub struct TimezoneArgs {
    pub calendar_id: String,
}

/// What parsing a decoded `retrieve_timezone` argument map yields.
pub open spec fn spec_parse_timezone_args(m: Seq<(Seq<char>, Val)>) -> Seq<char> {
    str_or(spec_opt_str(m, "calendar_id"@), "primary"@)
}

/// Parse a decoded `retrieve_timezone` argument map.
pub fn parse_timezone_args(args: &Vec<(String, ArgValue)>) -> (r: TimezoneArgs)
    ensures
        r.calendar_id@ == spec_parse_timezone_args(arg_map_view(args@)),
{
    let calendar_id = match opt_str_arg(args, "calendar_id") {
        Some(s) => s,
        None => String::from_str("primary"),
    };
    TimezoneArgs { calendar_id }
}

/// The typed arguments of one `retrieve_calendar_free_busy_slots` call.
#[derive(Debug, PartialEq, Eq)]
pub struct FreeBusyArgs {
    pub time_min: String,
    pub time_max: String,
    pub timezone: String,
    pub calendar_ids: Vec<String>,
}

/// The mathematical model of free/busy arguments.
#[verifier::ext_equal]
pub struct FreeBusyArgsV {
    pub time_min: Seq<char>,
    pub time_max: Seq<char>,
    pub timezone: Seq<char>,
    pub calendar_ids: Seq<Seq<char>>,
}

/// The models of a sequence of owned strings.
pub open spec fn strs_view(ss: Seq<String>) -> Seq<Seq<char>> {
    Seq::new(ss.len(), |i: int| ss[i]@)
}

impl View for FreeBusyArgs {
    type V = FreeBusyArgsV;

    open spec fn view(&self) -> FreeBusyArgsV {
        FreeBusyArgsV {
            time_min: self.time_min@,
            time_max: self.time_max@,
            timezone: self.timezone@,
            calendar_ids: strs_view(self.calendar_ids@),
        }
    }
}

/// The calendar ids named by the first `n` items, or nothing if any one of
/// them is not a string.
pub open spec fn spec_ids_upto(items: Seq<Val>, n: int) -> Option<Seq<Seq<char>>>
    decreases n,
{
    if n <= 0 {
        Option::Some(Seq::empty())
    } else {
        match spec_ids_upto(items, n - 1) {
            Option::None => Option::None,
            Option::Some(pre) => match items[n - 1] {
                Val::Str(s) => Option::Some(pre + seq![s]),
                _ => Option::None,
            },
        }
    }
}

/// Once the id scan hits a non-string, it stays failed.
pub proof fn lemma_ids_none_stable(items: Seq<Val>, i: int, n: int)
    requires
        0 <= i <= n <= items.len(),
        spec_ids_upto(items, i) is None,
    ensures
        spec_ids_upto(items, n) is None,
    decreases n,
{
    if n > i {
        lemma_ids_none_stable(items, i, n - 1);
    }
}

/// What parsing a decoded free/busy argument map yields: the typed arguments,
/// or a handler failure when a bound is missing or the id list is not a list
/// of strings. The schema makes the missing-bound failures unreachable
/// through dispatch.
pub open spec fn spec_parse_freebusy_args(m: Seq<(Seq<char>, Val)>) -> Result<
    FreeBusyArgsV,
    ToolErrorV,
> {
    match spec_opt_str(m, "time_min"@) {
        Option::None => Result::Err(ToolErrorV::Handler("time_min is required"@)),
        Option::Some(tmin) => match spec_opt_str(m, "time_max"@) {
            Option::None => Result::Err(ToolErrorV::Handler("time_max is required"@)),
            Option::Some(tmax) => {
                let ids = match crate::value::map_get(m, "calendar_ids"@) {
                    Option::None => Option::Some(seq!["primary"@]),
                    Option::Some(Val::Arr(items)) => spec_ids_upto(items, items.len() as int),
                    Option::Some(_) => Option::None,
                };
                match ids {
                    Option::None => Result::Err(
                        ToolErrorV::Handler("calendar_ids must be a list of strings"@),
                    ),
                    Option::Some(ids) => Result::Ok(
                        FreeBusyArgsV {
                            time_min: tmin,
                            time_max: tmax,
                            timezone: str_or(spec_opt_str(m, "timezone"@), "UTC"@),
                            calendar_ids: ids,
                        },
                    ),
                }
            },
        },
    }
}

/// Parse a decoded free/busy argument map into typed arguments.
#[verifier::loop_isolation(false)]
pub fn parse_freebusy_args(args: &Vec<(String, ArgValue)>) -> (r: Result<FreeBusyArgs, ToolError>)
    ensures
        match r {
            Ok(a) => spec_parse_freebusy_args(arg_map_view(args@)) == Result::<
                FreeBusyArgsV,
                ToolErrorV,
            >::Ok(a@),
            Err(e) => spec_parse_freebusy_args(arg_map_view(args@)) == Result::<
                FreeBusyArgsV,
                ToolErrorV,
            >::Err(e@),
        },
{
    let time_min = match opt_str_arg(args, "time_min") {
        Some(s) => s,
        None => {
            return Err(ToolError::Handler(String::from_str("time_min is required")));
        },
    };
    let time_max = match opt_str_arg(args, "time_max") {
        Some(s) => s,
        None => {
            return Err(ToolError::Handler(String::from_str("time_max is required")));
        },
    };
    let timezone = match opt_str_arg(args, "timezone") {
        Some(s) => s,
        None => String::from_str("UTC"),
    };
    let mut calendar_ids: Vec<String> = Vec::new();
    match crate::value::lookup_arg(args, "calendar_ids") {
        None => {
            calendar_ids.push(String::from_str("primary"));
            proof {
                assert(strs_view(calendar_ids@) =~= seq!["primary"@]);
            }
        },
        Some(v) => {
            let items = match v {
                ArgValue::Arr(items) => items,
                _ => {
                    return Err(
                        ToolError::Handler(
                            String::from_str("calendar_ids must be a list of strings"),
                        ),
                    );
                },
            };
            let ghost iv = seq_view(items@);
            proof {
                lemma_seq_view(items@);
            }
            let mut i: usize = 0;
            while i < items.len()
                invariant
                    0 <= i <= items.len(),
                    spec_ids_upto(iv, i as int) == Option::Some(strs_view(calendar_ids@)),
                decreases items.len() - i,
            {
                let ghost pre = strs_view(calendar_ids@);
                match &items[i] {
                    ArgValue::Str(s) => {
                        calendar_ids.push(s.clone());
                        proof {
                            assert(strs_view(calendar_ids@) =~= pre + seq![s@]);
                        }
                    },
                    _ => {
                        proof {
                            lemma_ids_none_stable(iv, i as int + 1, iv.len() as int);
                        }
                        return Err(
                            ToolError::Handler(
                                String::from_str("calendar_ids must be a list of strings"),
                            ),
                        );
                    },
                }
                i = i + 1;
            }
        },
    }
    Ok(FreeBusyArgs { time_min, time_max, timezone, calendar_ids })
}

/// The request `list_calendars` plans: one GET of the calendar list.
pub open spec fn spec_plan_list_calendars(base: Seq<char>, token: Seq<char>) -> HttpRequestV {
    crate::tasks::spec_get_request(base + "/users/me/calendarList"@, token)
}

/// Plan the request of a `list_calendars` call.
pub fn plan_list_calendars(base: &str, token: &str) -> (r: HttpRequestSpec)
    ensures
        r@ == spec_plan_list_calendars(base@, token@),
{
    let mut url = String::from_str(base);
    url.append("/users/me/calendarList");
    let r = HttpRequestSpec {
        method: HttpMethod::Get,
        url,
        query: Vec::new(),
        bearer: token.to_owned(),
        body: None,
    };
    proof {
        assert(r@ =~~= spec_plan_list_calendars(base@, token@));
    }
    r
}

/// A query entry: present only when the argument is.
pub open spec fn opt_query(k: Seq<char>, o: Option<Seq<char>>) -> Seq<(Seq<char>, Seq<char>)> {
    match o {
        Option::Some(s) => seq![(k, s)],
        Option::None => Seq::empty(),
    }
}

/// The request `list_calendar_events` plans: a GET of the calendar's events,
/// with the given time bounds as query parameters, upper bound first.
pub open spec fn spec_plan_events(a: EventsArgsV, base: Seq<char>, token: Seq<char>) -> HttpRequestV {
    HttpRequestV {
        method: HttpMethod::Get,
        url: base + "/calendars/"@ + a.calendar_id + "/events"@,
        query: opt_query("timeMax"@, a.time_max) + opt_query("timeMin"@, a.time_min),
        bearer: token,
        body: Option::None,
    }
}

/// Plan the request of a `list_calendar_events` call.
pub fn plan_events(a: &EventsArgs, base: &str, token: &str) -> (r: HttpRequestSpec)
    ensures
        r@ == spec_plan_events(a@, base@, token@),
{
    let mut url = String::from_str(base);
    url.append("/calendars/");
    url.append(a.calendar_id.as_str());
    url.append("/events");
    let mut query: Vec<(String, String)> = Vec::new();
    if let Some(tmax) = &a.time_max {
        query.push((String::from_str("timeMax"), tmax.clone()));
    }
    if let Some(tmin) = &a.time_min {
        query.push((String::from_str("timeMin"), tmin.clone()));
    }
    let r = HttpRequestSpec {
        method: HttpMethod::Get,
        url,
        query,
        bearer: token.to_owned(),
        body: None,
    };
    proof {
        assert(r@.query =~= spec_plan_events(a@, base@, token@).query);
        assert(r@ =~~= spec_plan_events(a@, base@, token@));
    }
    r
}

/// The request `retrieve_timezone` plans: a GET of the calendar record.
pub open spec fn spec_plan_timezone(calendar_id: Seq<char>, base: Seq<char>, token: Seq<char>) -> HttpRequestV {
    crate::tasks::spec_get_request(base + "/calendars/"@ + calendar_id, token)
}

/// Plan the request of a `retrieve_timezone` call.
pub fn plan_timezone(a: &TimezoneArgs, base: &str, token: &str) -> (r: HttpRequestSpec)
    ensures
        r@ == spec_plan_timezone(a.calendar_id@, base@, token@),
{
    let mut url = String::from_str(base);
    url.append("/calendars/");
    url.append(a.calendar_id.as_str());
    let r = HttpRequestSpec {
        method: HttpMethod::Get,
        url,
        query: Vec::new(),
        bearer: token.to_owned(),
        body: None,
    };
    proof {
        assert(r@ =~~= spec_plan_timezone(a.calendar_id@, base@, token@));
    }
    r
}

/// The items of a free/busy request body: one object per queried calendar.
pub open spec fn spec_freebusy_items(ids: Seq<Seq<char>>, n: int) -> Seq<Val>
    decreases n,
{
    if n <= 0 {
        Seq::empty()
    } else {
        spec_freebusy_items(ids, n - 1) + seq![Val::Obj(seq![("id"@, Val::Str(ids[n - 1]))])]
    }
}

/// The body a free/busy query posts.
pub open spec fn spec_freebusy_body(a: FreeBusyArgsV) -> Val {
    Val::Obj(
        seq![
            ("timeMin"@, Val::Str(a.time_min)),
            ("timeMax"@, Val::Str(a.time_max)),
            ("timeZone"@, Val::Str(a.timezone)),
            ("items"@, Val::Arr(spec_freebusy_items(a.calendar_ids, a.calendar_ids.len() as int))),
        ],
    )
}

/// The request `retrieve_calendar_free_busy_slots` plans: a POST of the
/// free/busy query.
pub open spec fn spec_plan_freebusy(a: FreeBusyArgsV, base: Seq<char>, token: Seq<char>) -> HttpRequestV {
    HttpRequestV {
        method: HttpMethod::Post,
        url: base + "/freeBusy"@,
        query: Seq::empty(),
        bearer: token,
        body: Option::Some(spec_freebusy_body(a)),
    }
}

/// Plan the request of a `retrieve_calendar_free_busy_slots` call.
#[verifier::loop_isolation(false)]
pub fn plan_freebusy(a: &FreeBusyArgs, base: &str, token: &str) -> (r: HttpRequestSpec)
    ensures
        r@ == spec_plan_freebusy(a@, base@, token@),
{
    let mut url = String::from_str(base);
    url.append("/freeBusy");
    let mut items: Vec<ArgValue> = Vec::new();
    let ghost ids = strs_view(a.calendar_ids@);
    let mut i: usize = 0;
    while i < a.calendar_ids.len()
        invariant
            0 <= i <= a.calendar_ids.len(),
            seq_view(items@) == spec_freebusy_items(ids, i as int),
        decreases a.calendar_ids.len() - i,
    {
        let ghost pre = seq_view(items@);
        let mut fields: Vec<(String, ArgValue)> = Vec::new();
        fields.push((String::from_str("id"), ArgValue::Str(a.calendar_ids[i].clone())));
        let item = ArgValue::Obj(fields);
        proof {
            lemma_fields_view(fields@);
            assert(item@ matches Val::Obj(fs) && fs =~= seq![("id"@, Val::Str(ids[i as int]))]);
        }
        let ghost prev_items = items@;
        items.push(item);
        proof {
            lemma_seq_view(prev_items);
            lemma_seq_view(items@);
            assert(seq_view(items@) =~= pre + seq![Val::Obj(
                seq![("id"@, Val::Str(ids[i as int]))],
            )]);
        }
        i = i + 1;
    }
    let mut body_fields: Vec<(String, ArgValue)> = Vec::new();
    body_fields.push((String::from_str("timeMin"), ArgValue::Str(a.time_min.clone())));
    body_fields.push((String::from_str("timeMax"), ArgValue::Str(a.time_max.clone())));
    body_fields.push((String::from_str("timeZone"), ArgValue::Str(a.timezone.clone())));
    body_fields.push((String::from_str("items"), ArgValue::Arr(items)));
    let body = ArgValue::Obj(body_fields);
    proof {
        lemma_fields_view(body_fields@);
        assert(body@ matches Val::Obj(fs) && fs =~= spec_freebusy_body(a@)->Obj_0);
    }
    let r = HttpRequestSpec {
        method: HttpMethod::Post,
        url,
        query: Vec::new(),
        bearer: token.to_owned(),
        body: Some(body),
    };
    proof {
        assert(r@ =~~= spec_plan_freebusy(a@, base@, token@));
    }
    r
}

/// The handler identities of the calendar wrapper, as registry payloads.
#[derive(Clone, Copy, PartialEq, Eq, Structural, Debug)]
pub enum CalendarTool {
    ListCalendars,
    ListEvents,
    RetrieveTimezone,
    FreeBusy,
}

/// The registry the calendar wrapper serves: its four tools, registered once
/// at startup. All four registrations provably succeed: the schemas are well
/// formed and the names distinct.
#[verifier::rlimit(60)]
pub fn calendar_tool_registry() -> (r: Result<
    crate::registry::Registry<CalendarTool>,
    crate::registry::RegistryError,
>)
    ensures
        r matches Ok(reg) && (reg.entries@.len() == 4 && reg.entries@[0].schema@
            == spec_list_calendars_schema() && reg.entries@[0].handler
            == CalendarTool::ListCalendars && reg.entries@[1].schema@ == spec_list_events_schema()
            && reg.entries@[1].handler == CalendarTool::ListEvents && reg.entries@[2].schema@
            == spec_timezone_schema() && reg.entries@[2].handler == CalendarTool::RetrieveTimezone
            && reg.entries@[3].schema@ == spec_freebusy_schema() && reg.entries@[3].handler
            == CalendarTool::FreeBusy && crate::registry::registry_wf(reg.entries@)
            && crate::registry::names_distinct(reg.entries@)),
{
    proof {
        reveal_strlit("list_calendars");
        reveal_strlit("list_calendar_events");
        reveal_strlit("retrieve_timezone");
        reveal_strlit("retrieve_calendar_free_busy_slots");
        reveal_strlit("time_min");
        reveal_strlit("time_max");
        assert("list_calendars"@.len() == 14);
        assert("list_calendar_events"@.len() == 20);
        assert("retrieve_timezone"@.len() == 17);
        assert("retrieve_calendar_free_busy_slots"@.len() == 33);
        assert(crate::schema::schema_wf(spec_list_calendars_schema()));
        assert(crate::schema::schema_wf(spec_list_events_schema()));
        assert(crate::schema::schema_wf(spec_timezone_schema()));
        let ps = spec_freebusy_schema().params;
        assert(("time_min"@).index(6) == 'i');
        assert(("time_max"@).index(6) == 'a');
        assert("time_min"@ != "time_max"@);
        assert(crate::schema::find_param(ps, "time_min"@) is Some);
        assert(ps.drop_first()[0] == ps[1]);
        assert(crate::schema::find_param(ps.drop_first(), "time_max"@) is Some);
        assert(crate::schema::find_param(ps, "time_max"@) is Some);
        assert(crate::schema::schema_wf(spec_freebusy_schema()));
    }
    let mut reg: crate::registry::Registry<CalendarTool> = crate::registry::Registry::new();
    let ghost e0 = reg.entries@;
    match reg.register(list_calendars_schema(), CalendarTool::ListCalendars) {
        Ok(()) => {},
        Err(e) => {
            proof {
                crate::registry::lemma_no_tool(e0, "list_calendars"@);
                assert(false);
            }
            return Err(e);
        },
    }
    let ghost e1 = reg.entries@;
    match reg.register(list_events_schema(), CalendarTool::ListEvents) {
        Ok(()) => {},
        Err(e) => {
            proof {
                crate::registry::lemma_no_tool(e1, "list_calendar_events"@);
                assert(false);
            }
            return Err(e);
        },
    }
    let ghost e2 = reg.entries@;
    match reg.register(timezone_schema(), CalendarTool::RetrieveTimezone) {
        Ok(()) => {},
        Err(e) => {
            proof {
                crate::registry::lemma_no_tool(e2, "retrieve_timezone"@);
                assert(false);
            }
            return Err(e);
        },
    }
    let ghost e3 = reg.entries@;
    match reg.register(freebusy_schema(), CalendarTool::FreeBusy) {
        Ok(()) => {},
        Err(e) => {
            proof {
                crate::registry::lemma_no_tool(e3, "retrieve_calendar_free_busy_slots"@);
                assert(false);
            }
            return Err(e);
        },
    }
    Ok(reg)
}

/// A boolean rendered as text.
pub open spec fn spec_bool_text(b: bool) -> Seq<char> {
    if b {
        "true"@
    } else {
        "false"@
    }
}

/// A boolean rendered as text.
fn bool_text(b: bool) -> (r: &'static str)
    ensures
        r@ == spec_bool_text(b),
{
    if b {
        "true"
    } else {
        "false"
    }
}

/// One calendar bullet of the calendar list, every field falling back to
/// `Unknown` (or to not-primary).
pub open spec fn spec_calendar_entry(c: Val) -> Seq<char> {
    "\u{2022} **"@ + crate::value::spec_str_field_or(c, "summary"@, "Unknown"@) + "** (ID: "@
        + crate::value::spec_str_field_or(c, "id"@, "Unknown"@) + ")\n  - Primary: "@
        + spec_bool_text(crate::value::spec_bool_field_or(c, "primary"@, false))
        + "\n  - Access Role: "@ + crate::value::spec_str_field_or(c, "accessRole"@, "Unknown"@)
        + "\n\n"@
}

/// The first `n` calendar bullets, in order.
pub open spec fn spec_calendar_entries(cs: Seq<Val>, n: int) -> Seq<char>
    decreases n,
{
    if n <= 0 {
        Seq::empty()
    } else {
        spec_calendar_entries(cs, n - 1) + spec_calendar_entry(cs[n - 1])
    }
}

/// The rendered calendar list: a header, then one bullet per item of the
/// body's `items` array (and only the header when there is no such array).
pub open spec fn spec_render_calendars(body: Val) -> Seq<char> {
    "**Calendars List**\n\n"@ + (match crate::value::obj_get(body, "items"@) {
        Option::Some(Val::Arr(cs)) => spec_calendar_entries(cs, cs.len() as int),
        _ => Seq::empty(),
    })
}

/// One calendar bullet.
fn render_calendar_entry(c: &ArgValue) -> (r: String)
    ensures
        r@ == spec_calendar_entry(c@),
{
    let mut s = String::from_str("\u{2022} **");
    s.append(crate::value::str_field_or(c, "summary", "Unknown"));
    s.append("** (ID: ");
    s.append(crate::value::str_field_or(c, "id", "Unknown"));
    s.append(")\n  - Primary: ");
    s.append(bool_text(crate::value::bool_field_or(c, "primary", false)));
    s.append("\n  - Access Role: ");
    s.append(crate::value::str_field_or(c, "accessRole", "Unknown"));
    s.append("\n\n");
    proof {
        assert(s@ =~= spec_calendar_entry(c@));
    }
    s
}

/// The rendered calendar list.
#[verifier::loop_isolation(false)]
pub fn render_calendars(body: &ArgValue) -> (r: String)
    ensures
        r@ == spec_render_calendars(body@),
{
    let mut s = String::from_str("**Calendars List**\n\n");
    match crate::value::get_field(body, "items") {
        Some(f) => match f {
            ArgValue::Arr(items) => {
                let ghost iv = seq_view(items@);
                proof {
                    lemma_seq_view(items@);
                }
                let ghost base = s@;
                let mut i: usize = 0;
                while i < items.len()
                    invariant
                        0 <= i <= items.len(),
                        s@ == base + spec_calendar_entries(iv, i as int),
                    decreases items.len() - i,
                {
                    let entry = render_calendar_entry(&items[i]);
                    s.append(entry.as_str());
                    proof {
                        assert(s@ =~= base + spec_calendar_entries(iv, i as int + 1));
                    }
                    i = i + 1;
                }
            },
            _ => {},
        },
        None => {},
    }
    proof {
        assert(s@ =~= spec_render_calendars(body@));
    }
    s
}

/// The text of a start or end object: its `dateTime` when that is a string,
/// otherwise its `date`, otherwise `Unknown`. A present but non-string
/// `dateTime` shadows the `date`.
pub open spec fn spec_time_entry(v: Val) -> Seq<char> {
    match crate::value::obj_get(v, "dateTime"@) {
        Option::Some(Val::Str(s)) => s,
        Option::Some(_) => "Unknown"@,
        Option::None => match crate::value::obj_get(v, "date"@) {
            Option::Some(Val::Str(s)) => s,
            _ => "Unknown"@,
        },
    }
}

/// A labelled start or end line, present only when the event has the field.
pub open spec fn spec_time_line(e: Val, k: Seq<char>, label: Seq<char>) -> Seq<char> {
    match crate::value::obj_get(e, k) {
        Option::Some(v) => label + spec_time_entry(v) + "\n"@,
        Option::None => Seq::empty(),
    }
}

/// The email of an event person field, or `Unknown`.
pub open spec fn spec_email_of(e: Val, k: Seq<char>) -> Seq<char> {
    match crate::value::obj_get(e, k) {
        Option::Some(p) => crate::value::spec_str_field_or(p, "email"@, "Unknown"@),
        Option::None => "Unknown"@,
    }
}

/// One attendee line.
pub open spec fn spec_attendee_line(a: Val) -> Seq<char> {
    "  - "@ + crate::value::spec_str_field_or(a, "email"@, "Unknown"@) + " ("@
        + crate::value::spec_str_field_or(a, "responseStatus"@, "Unknown"@) + ")\n"@
}

/// The first `n` attendee lines, in order.
pub open spec fn spec_attendee_lines(attendees: Seq<Val>, n: int) -> Seq<char>
    decreases n,
{
    if n <= 0 {
        Seq::empty()
    } else {
        spec_attendee_lines(attendees, n - 1) + spec_attendee_line(attendees[n - 1])
    }
}

/// The attendees section, present only when the event has an attendee array.
pub open spec fn spec_attendees_section(e: Val) -> Seq<char> {
    match crate::value::obj_get(e, "attendees"@) {
        Option::Some(Val::Arr(items)) => "**Attendees** ("@ + crate::text::dec_str(items.len())
            + "):\n"@ + spec_attendee_lines(items, items.len() as int),
        _ => Seq::empty(),
    }
}

/// A labelled line for an optional string field, absent otherwise.
pub open spec fn spec_opt_text_line(e: Val, k: Seq<char>, label: Seq<char>) -> Seq<char> {
    match crate::value::obj_get(e, k) {
        Option::Some(Val::Str(s)) => label + s + "\n"@,
        _ => Seq::empty(),
    }
}

/// The verbose details of one event.
pub open spec fn spec_verbose_section(e: Val) -> Seq<char> {
    "**ID**: "@ + crate::value::spec_str_field_or(e, "id"@, "Unknown"@) + "\n**Status**: "@
        + crate::value::spec_str_field_or(e, "status"@, "Unknown"@) + "\n**Creator**: "@
        + spec_email_of(e, "creator"@) + "\n**Organizer**: "@ + spec_email_of(e, "organizer"@)
        + "\n"@ + spec_attendees_section(e) + spec_opt_text_line(e, "description"@, "**Description**: "@)
        + spec_opt_text_line(e, "location"@, "**Location**: "@)
}

/// One rendered event block.
pub open spec fn spec_event_block(e: Val, verbose: bool) -> Seq<char> {
    "### "@ + crate::value::spec_str_field_or(e, "summary"@, "No title"@) + "\n"@ + spec_time_line(
        e,
        "start"@,
        "**Start**: "@,
    ) + spec_time_line(e, "end"@, "**End**: "@) + (if verbose {
        spec_verbose_section(e)
    } else {
        Seq::empty()
    }) + "\n---\n\n"@
}

/// The blocks of the first `n` events, in order.
pub open spec fn spec_event_blocks(es: Seq<Val>, verbose: bool, n: int) -> Seq<Seq<char>>
    decreases n,
{
    if n <= 0 {
        Seq::empty()
    } else {
        spec_event_blocks(es, verbose, n - 1) + seq![spec_event_block(es[n - 1], verbose)]
    }
}

/// The rendered event list: a fixed line when there are no events, otherwise
/// a header giving the full count, then the blocks of at most the first
/// twenty events, assembled whole under a cap with a truncation marker.
pub open spec fn spec_render_events(body: Val, verbose: bool) -> Seq<char> {
    let es = match crate::value::obj_get(body, "items"@) {
        Option::Some(Val::Arr(items)) => items,
        _ => Seq::empty(),
    };
    if es.len() == 0 {
        "No events found for the specified time period."@
    } else {
        let shown: int = if es.len() > 20 {
            20
        } else {
            es.len() as int
        };
        crate::text::spec_assemble(
            "**Calendar Events** ("@ + crate::text::dec_str(es.len()) + " found)\n\n"@,
            spec_event_blocks(es, verbose, shown),
            8000,
            "\n\n*[Response truncated - too much data]*"@,
        )
    }
}

/// The text of a start or end object.
fn time_entry<'a>(v: &'a ArgValue) -> (r: &'a str)
    ensures
        r@ == spec_time_entry(v@),
{
    match crate::value::get_field(v, "dateTime") {
        Some(f) => match f {
            ArgValue::Str(s) => s.as_str(),
            _ => "Unknown",
        },
        None => match crate::value::get_field(v, "date") {
            Some(f) => match f {
                ArgValue::Str(s) => s.as_str(),
                _ => "Unknown",
            },
            None => "Unknown",
        },
    }
}

/// The verbose details of one event.
#[verifier::loop_isolation(false)]
#[verifier::rlimit(60)]
fn render_verbose_section(e: &ArgValue) -> (r: String)
    ensures
        r@ == spec_verbose_section(e@),
{
    let mut s = String::from_str("**ID**: ");
    s.append(crate::value::str_field_or(e, "id", "Unknown"));
    s.append("\n**Status**: ");
    s.append(crate::value::str_field_or(e, "status", "Unknown"));
    s.append("\n**Creator**: ");
    match crate::value::get_field(e, "creator") {
        Some(p) => s.append(crate::value::str_field_or(p, "email", "Unknown")),
        None => s.append("Unknown"),
    }
    s.append("\n**Organizer**: ");
    match crate::value::get_field(e, "organizer") {
        Some(p) => s.append(crate::value::str_field_or(p, "email", "Unknown")),
        None => s.append("Unknown"),
    }
    s.append("\n");
    let ghost head = s@;
    proof {
        assert(head =~= "**ID**: "@ + crate::value::spec_str_field_or(e@, "id"@, "Unknown"@)
            + "\n**Status**: "@ + crate::value::spec_str_field_or(e@, "status"@, "Unknown"@)
            + "\n**Creator**: "@ + spec_email_of(e@, "creator"@) + "\n**Organizer**: "@
            + spec_email_of(e@, "organizer"@) + "\n"@);
    }
    match crate::value::get_field(e, "attendees") {
        Some(f) => match f {
            ArgValue::Arr(items) => {
                s.append("**Attendees** (");
                let count = crate::text::u64_to_dec(items.len() as u64);
                s.append(count.as_str());
                s.append("):\n");
                let ghost av = seq_view(items@);
                proof {
                    lemma_seq_view(items@);
                }
                let ghost base = s@;
                let mut i: usize = 0;
                while i < items.len()
                    invariant
                        0 <= i <= items.len(),
                        s@ == base + spec_attendee_lines(av, i as int),
                    decreases items.len() - i,
                {
                    let a = &items[i];
                    s.append("  - ");
                    s.append(crate::value::str_field_or(a, "email", "Unknown"));
                    s.append(" (");
                    s.append(crate::value::str_field_or(a, "responseStatus", "Unknown"));
                    s.append(")\n");
                    proof {
                        assert(s@ =~= base + spec_attendee_lines(av, i as int + 1));
                    }
                    i = i + 1;
                }
                proof {
                    assert(s@ =~= head + spec_attendees_section(e@));
                }
            },
            _ => {},
        },
        None => {},
    }
    let ghost with_attendees = s@;
    proof {
        assert(with_attendees =~= head + spec_attendees_section(e@));
    }
    match crate::value::get_field(e, "description") {
        Some(f) => match f {
            ArgValue::Str(d) => {
                s.append("**Description**: ");
                s.append(d.as_str());
                s.append("\n");
            },
            _ => {},
        },
        None => {},
    }
    proof {
        assert(s@ =~= with_attendees + spec_opt_text_line(e@, "description"@, "**Description**: "@));
    }
    let ghost with_description = s@;
    match crate::value::get_field(e, "location") {
        Some(f) => match f {
            ArgValue::Str(l) => {
                s.append("**Location**: ");
                s.append(l.as_str());
                s.append("\n");
            },
            _ => {},
        },
        None => {},
    }
    proof {
        assert(s@ =~= with_description + spec_opt_text_line(e@, "location"@, "**Location**: "@));
        assert(s@ =~= spec_verbose_section(e@));
    }
    s
}

/// One rendered event block.
#[verifier::loop_isolation(false)]
fn render_event_block(e: &ArgValue, verbose: bool) -> (r: String)
    ensures
        r@ == spec_event_block(e@, verbose),
{
    let mut s = String::from_str("### ");
    s.append(crate::value::str_field_or(e, "summary", "No title"));
    s.append("\n");
    match crate::value::get_field(e, "start") {
        Some(v) => {
            s.append("**Start**: ");
            s.append(time_entry(v));
            s.append("\n");
        },
        None => {},
    }
    match crate::value::get_field(e, "end") {
        Some(v) => {
            s.append("**End**: ");
            s.append(time_entry(v));
            s.append("\n");
        },
        None => {},
    }
    if verbose {
        let details = render_verbose_section(e);
        s.append(details.as_str());
    }
    s.append("\n---\n\n");
    proof {
        assert(s@ =~= spec_event_block(e@, verbose));
    }
    s
}

/// The rendered event list.
#[verifier::loop_isolation(false)]
pub fn render_events(body: &ArgValue, verbose: bool) -> (r: String)
    ensures
        r@ == spec_render_events(body@, verbose),
{
    let items = match crate::value::get_field(body, "items") {
        Some(f) => match f {
            ArgValue::Arr(items) => Some(items),
            _ => None,
        },
        None => None,
    };
    let items = match items {
        Some(items) => items,
        None => {
            proof {
                assert(spec_render_events(body@, verbose)
                    == "No events found for the specified time period."@);
            }
            return String::from_str("No events found for the specified time period.");
        },
    };
    let ghost ev = seq_view(items@);
    proof {
        lemma_seq_view(items@);
    }
    if items.len() == 0 {
        return String::from_str("No events found for the specified time period.");
    }
    let shown = if items.len() > 20 {
        20
    } else {
        items.len()
    };
    let mut blocks: Vec<String> = Vec::new();
    let mut i: usize = 0;
    while i < shown
        invariant
            0 <= i <= shown,
            crate::text::strings_view(blocks@) == spec_event_blocks(ev, verbose, i as int),
        decreases shown - i,
    {
        let block = render_event_block(&items[i], verbose);
        let ghost pre = crate::text::strings_view(blocks@);
        blocks.push(block);
        proof {
            assert(crate::text::strings_view(blocks@) =~= pre + seq![spec_event_block(
                ev[i as int],
                verbose,
            )]);
        }
        i = i + 1;
    }
    let mut header = String::from_str("**Calendar Events** (");
    let count = crate::text::u64_to_dec(items.len() as u64);
    header.append(count.as_str());
    header.append(" found)\n\n");
    crate::text::assemble_capped(header, &blocks, 8000, "\n\n*[Response truncated - too much data]*")
}

/// The rendered timezone information, with absent fields written out as such.
pub open spec fn spec_render_timezone(body: Val) -> Seq<char> {
    "**Calendar Timezone Information**\n\n**Calendar**: "@ + crate::value::spec_str_field_or(
        body,
        "summary"@,
        "Unknown"@,
    ) + "\n**Timezone**: "@ + crate::value::spec_str_field_or(body, "timeZone"@, "Unknown"@)
        + "\n**Location**: "@ + crate::value::spec_str_field_or(body, "location"@, "Not specified"@)
        + "\n"@
}

/// The rendered timezone information.
pub fn render_timezone(body: &ArgValue) -> (r: String)
    ensures
        r@ == spec_render_timezone(body@),
{
    let mut s = String::from_str("**Calendar Timezone Information**\n\n**Calendar**: ");
    s.append(crate::value::str_field_or(body, "summary", "Unknown"));
    s.append("\n**Timezone**: ");
    s.append(crate::value::str_field_or(body, "timeZone", "Unknown"));
    s.append("\n**Location**: ");
    s.append(crate::value::str_field_or(body, "location", "Not specified"));
    s.append("\n");
    proof {
        assert(s@ =~= spec_render_timezone(body@));
    }
    s
}

/// One busy-period line.
pub open spec fn spec_busy_line(b: Val) -> Seq<char> {
    "  - "@ + crate::value::spec_str_field_or(b, "start"@, "Unknown"@) + " to "@
        + crate::value::spec_str_field_or(b, "end"@, "Unknown"@) + "\n"@
}

/// The first `n` busy-period lines, in order.
pub open spec fn spec_busy_lines(bs: Seq<Val>, n: int) -> Seq<char>
    decreases n,
{
    if n <= 0 {
        Seq::empty()
    } else {
        spec_busy_lines(bs, n - 1) + spec_busy_line(bs[n - 1])
    }
}

/// A calendar's busy section: its periods, or a note that none was found;
/// nothing at all without a busy array.
pub open spec fn spec_busy_section(cal: Val) -> Seq<char> {
    match crate::value::obj_get(cal, "busy"@) {
        Option::Some(Val::Arr(bs)) => if bs.len() > 0 {
            "**Busy periods**:\n"@ + spec_busy_lines(bs, bs.len() as int)
        } else {
            "**No busy periods found**\n"@
        },
        _ => Seq::empty(),
    }
}

/// One error line.
pub open spec fn spec_error_line(x: Val) -> Seq<char> {
    "  - "@ + crate::value::spec_str_field_or(x, "reason"@, "Unknown error"@) + "\n"@
}

/// The first `n` error lines, in order.
pub open spec fn spec_error_lines(es: Seq<Val>, n: int) -> Seq<char>
    decreases n,
{
    if n <= 0 {
        Seq::empty()
    } else {
        spec_error_lines(es, n - 1) + spec_error_line(es[n - 1])
    }
}

/// A calendar's error section, present only when errors were reported.
pub open spec fn spec_errors_section(cal: Val) -> Seq<char> {
    match crate::value::obj_get(cal, "errors"@) {
        Option::Some(Val::Arr(es)) => if es.len() > 0 {
            "**Errors**:\n"@ + spec_error_lines(es, es.len() as int)
        } else {
            Seq::empty()
        },
        _ => Seq::empty(),
    }
}

/// One calendar's rendered free/busy section.
pub open spec fn spec_calendar_section(name: Seq<char>, cal: Val) -> Seq<char> {
    "### Calendar: "@ + name + "\n"@ + spec_busy_section(cal) + spec_errors_section(cal) + "\n"@
}

/// The first `n` calendar sections, in the order the body lists them.
pub open spec fn spec_calendar_sections(fs: Seq<(Seq<char>, Val)>, n: int) -> Seq<char>
    decreases n,
{
    if n <= 0 {
        Seq::empty()
    } else {
        spec_calendar_sections(fs, n - 1) + spec_calendar_section(fs[n - 1].0, fs[n - 1].1)
    }
}

/// The rendered free/busy report: the queried range and timezone, then one
/// section per calendar of the body's `calendars` object.
pub open spec fn spec_render_freebusy(a: FreeBusyArgsV, body: Val) -> Seq<char> {
    "**Free/Busy Information**\n\n**Time Range**: "@ + a.time_min + " to "@ + a.time_max
        + "\n**Timezone**: "@ + a.timezone + "\n\n"@ + (match crate::value::obj_get(
        body,
        "calendars"@,
    ) {
        Option::Some(Val::Obj(fs)) => spec_calendar_sections(fs, fs.len() as int),
        _ => Seq::empty(),
    })
}

/// One calendar's rendered free/busy section.
#[verifier::loop_isolation(false)]
fn render_calendar_section(name: &str, cal: &ArgValue) -> (r: String)
    ensures
        r@ == spec_calendar_section(name@, cal@),
{
    let mut s = String::from_str("### Calendar: ");
    s.append(name);
    s.append("\n");
    match crate::value::get_field(cal, "busy") {
        Some(f) => match f {
            ArgValue::Arr(bs) => {
                if bs.len() > 0 {
                    s.append("**Busy periods**:\n");
                    let ghost bv = seq_view(bs@);
                    proof {
                        lemma_seq_view(bs@);
                    }
                    let ghost base = s@;
                    let mut i: usize = 0;
                    while i < bs.len()
                        invariant
                            0 <= i <= bs.len(),
                            s@ == base + spec_busy_lines(bv, i as int),
                        decreases bs.len() - i,
                    {
                        let b = &bs[i];
                        s.append("  - ");
                        s.append(crate::value::str_field_or(b, "start", "Unknown"));
                        s.append(" to ");
                        s.append(crate::value::str_field_or(b, "end", "Unknown"));
                        s.append("\n");
                        proof {
                            assert(s@ =~= base + spec_busy_lines(bv, i as int + 1));
                        }
                        i = i + 1;
                    }
                } else {
                    s.append("**No busy periods found**\n");
                }
            },
            _ => {},
        },
        None => {},
    }
    match crate::value::get_field(cal, "errors") {
        Some(f) => match f {
            ArgValue::Arr(es) => {
                if es.len() > 0 {
                    s.append("**Errors**:\n");
                    let ghost xv = seq_view(es@);
                    proof {
                        lemma_seq_view(es@);
                    }
                    let ghost base = s@;
                    let mut i: usize = 0;
                    while i < es.len()
                        invariant
                            0 <= i <= es.len(),
                            s@ == base + spec_error_lines(xv, i as int),
                        decreases es.len() - i,
                    {
                        let x = &es[i];
                        s.append("  - ");
                        s.append(crate::value::str_field_or(x, "reason", "Unknown error"));
                        s.append("\n");
                        proof {
                            assert(s@ =~= base + spec_error_lines(xv, i as int + 1));
                        }
                        i = i + 1;
                    }
                }
            },
            _ => {},
        },
        None => {},
    }
    s.append("\n");
    proof {
        assert(s@ =~= spec_calendar_section(name@, cal@));
    }
    s
}

/// The rendered free/busy report.
#[verifier::loop_isolation(false)]
pub fn render_freebusy(a: &FreeBusyArgs, body: &ArgValue) -> (r: String)
    ensures
        r@ == spec_render_freebusy(a@, body@),
{
    let mut s = String::from_str("**Free/Busy Information**\n\n**Time Range**: ");
    s.append(a.time_min.as_str());
    s.append(" to ");
    s.append(a.time_max.as_str());
    s.append("\n**Timezone**: ");
    s.append(a.timezone.as_str());
    s.append("\n\n");
    match crate::value::get_field(body, "calendars") {
        Some(f) => match f {
            ArgValue::Obj(fields) => {
                let ghost fv = crate::value::fields_view(fields@);
                proof {
                    lemma_fields_view(fields@);
                }
                let ghost base = s@;
                let mut i: usize = 0;
                while i < fields.len()
                    invariant
                        0 <= i <= fields.len(),
                        s@ == base + spec_calendar_sections(fv, i as int),
                    decreases fields.len() - i,
                {
                    let section = render_calendar_section(fields[i].0.as_str(), &fields[i].1);
                    s.append(section.as_str());
                    proof {
                        assert(s@ =~= base + spec_calendar_sections(fv, i as int + 1));
                    }
                    i = i + 1;
                }
            },
            _ => {},
        },
        None => {},
    }
    proof {
        assert(s@ =~= spec_render_freebusy(a@, body@));
    }
    s
}

} // verus!
