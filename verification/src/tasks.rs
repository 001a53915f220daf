//! The task-management wrapper: tool schemas, typed arguments, request
//! planning, and rendering for a generic task/team HTTP API.
//!
//! `manage_task` bundles create, update, get and list operations over a task
//! resource; `get_team_overview` joins a team record, its member list and its
//! project list (fetched concurrently), plus optional, best-effort metrics,
//! into one rendered overview.

use vstd::prelude::*;

use crate::dispatch::ToolError;
use crate::dispatch::ToolErrorV;
use crate::http::HttpMethod;
use crate::http::HttpRequestSpec;
use crate::http::HttpRequestV;
use crate::schema::ParamDef;
use crate::schema::ParamDefV;
use crate::schema::ParamType;
use crate::schema::SchemaV;
use crate::schema::ToolSchema;
use crate::value::arg_map_view;
use crate::value::lemma_fields_view;
use crate::value::opt_str_arg;
use crate::value::opt_str_strict;
use crate::value::opt_view;
use crate::value::spec_opt_str_strict;
use crate::value::spec_opt_str;
use crate::value::str_or;
use crate::value::ArgValue;
use crate::value::Val;

verus! {

/// The operation a `manage_task` call asks for.
#[derive(Clone, Copy, PartialEq, Eq, Structural, Debug)]
pub enum TaskOp {
    Create,
    Update,
    Get,
    List,
}

/// The typed arguments of one `manage_task` call.
#[derive(Debug, PartialEq, Eq)]
pub struct TaskArgs {
    pub operation: TaskOp,
    pub task_id: Option<String>,
    pub title: Option<String>,
    pub description: Option<String>,
    pub status: Option<String>,
    pub priority: Option<String>,
}

/// The mathematical model of `manage_task` arguments.
pub struct TaskArgsV {
    pub operation: TaskOp,
    pub task_id: Option<Seq<char>>,
    pub title: Option<Seq<char>>,
    pub description: Option<Seq<char>>,
    pub status: Option<Seq<char>>,
    pub priority: Option<Seq<char>>,
}

impl View for TaskArgs {
    type V = TaskArgsV;

    open spec fn view(&self) -> TaskArgsV {
        TaskArgsV {
            operation: self.operation,
            task_id: opt_view(self.task_id),
            title: opt_view(self.title),
            description: opt_view(self.description),
            status: opt_view(self.status),
            priority: opt_view(self.priority),
        }
    }
}

/// The operation named by a string, if any.
pub open spec fn spec_task_op(s: Seq<char>) -> Option<TaskOp> {
    if s == "create"@ {
        Option::Some(TaskOp::Create)
    } else if s == "update"@ {
        Option::Some(TaskOp::Update)
    } else if s == "get"@ {
        Option::Some(TaskOp::Get)
    } else if s == "list"@ {
        Option::Some(TaskOp::List)
    } else {
        Option::None
    }
}

/// The operation named by a string, if any.
pub fn parse_task_op(s: &str) -> (r: Option<TaskOp>)
    ensures
        r == spec_task_op(s@),
{
    if crate::value::str_eq(s, "create") {
        Some(TaskOp::Create)
    } else if crate::value::str_eq(s, "update") {
        Some(TaskOp::Update)
    } else if crate::value::str_eq(s, "get") {
        Some(TaskOp::Get)
    } else if crate::value::str_eq(s, "list") {
        Some(TaskOp::List)
    } else {
        None
    }
}

/// What parsing a decoded `manage_task` argument map yields: the typed
/// arguments, or a handler failure naming the unusable operation.
pub open spec fn spec_parse_task_args(m: Seq<(Seq<char>, Val)>) -> Result<TaskArgsV, ToolErrorV> {
    match spec_opt_str(m, "operation"@) {
        Option::None => Result::Err(ToolErrorV::Handler("operation is required"@)),
        Option::Some(s) => match spec_task_op(s) {
            Option::None => Result::Err(ToolErrorV::Handler("unknown operation: "@ + s)),
            Option::Some(op) => Result::Ok(
                TaskArgsV {
                    operation: op,
                    task_id: spec_opt_str(m, "task_id"@),
                    title: spec_opt_str(m, "title"@),
                    description: spec_opt_str(m, "description"@),
                    status: spec_opt_str(m, "status"@),
                    priority: spec_opt_str(m, "priority"@),
                },
            ),
        },
    }
}

/// Parse a decoded `manage_task` argument map into typed arguments.
pub fn parse_task_args(args: &Vec<(String, ArgValue)>) -> (r: Result<TaskArgs, ToolError>)
    ensures
        match r {
            Ok(a) => spec_parse_task_args(arg_map_view(args@)) == Result::<
                TaskArgsV,
                ToolErrorV,
            >::Ok(a@),
            Err(e) => spec_parse_task_args(arg_map_view(args@)) == Result::<
                TaskArgsV,
                ToolErrorV,
            >::Err(e@),
        },
{
    let op_str = match opt_str_arg(args, "operation") {
        Some(s) => s,
        None => {
            return Err(ToolError::Handler(String::from_str("operation is required")));
        },
    };
    let op = match parse_task_op(op_str.as_str()) {
        Some(op) => op,
        None => {
            let mut message = String::from_str("unknown operation: ");
            message.append(op_str.as_str());
            return Err(ToolError::Handler(message));
        },
    };
    Ok(
        TaskArgs {
            operation: op,
            task_id: opt_str_arg(args, "task_id"),
            title: opt_str_arg(args, "title"),
            description: opt_str_arg(args, "description"),
            status: opt_str_arg(args, "status"),
            priority: opt_str_arg(args, "priority"),
        },
    )
}

/// One field of a request body: present only when the argument is.
pub open spec fn opt_entry(k: Seq<char>, o: Option<Seq<char>>) -> Seq<(Seq<char>, Val)> {
    match o {
        Option::Some(s) => seq![(k, Val::Str(s))],
        Option::None => Seq::empty(),
    }
}

/// The body a `create` operation posts: the title, with the description
/// defaulting to empty, the status to `todo` and the priority to `medium`.
pub open spec fn spec_create_body(a: TaskArgsV) -> Val {
    Val::Obj(
        seq![
            ("title"@, Val::Str(str_or(a.title, Seq::empty()))),
            ("description"@, Val::Str(str_or(a.description, ""@))),
            ("status"@, Val::Str(str_or(a.status, "todo"@))),
            ("priority"@, Val::Str(str_or(a.priority, "medium"@))),
        ],
    )
}

/// The body an `update` operation patches: exactly the fields given.
pub open spec fn spec_update_body(a: TaskArgsV) -> Val {
    Val::Obj(
        opt_entry("title"@, a.title) + opt_entry("description"@, a.description) + opt_entry(
            "status"@,
            a.status,
        ) + opt_entry("priority"@, a.priority),
    )
}

/// The request a `manage_task` call plans, or the handler failure it raises
/// when the operation lacks its mandatory argument.
pub open spec fn spec_plan_task(a: TaskArgsV, base: Seq<char>, token: Seq<char>) -> Result<
    HttpRequestV,
    ToolErrorV,
> {
    match a.operation {
        TaskOp::Create => match a.title {
            Option::None => Result::Err(
                ToolErrorV::Handler("title is required for create operations"@),
            ),
            Option::Some(_) => Result::Ok(
                HttpRequestV {
                    method: HttpMethod::Post,
                    url: base + "/tasks"@,
                    query: Seq::empty(),
                    bearer: token,
                    body: Option::Some(spec_create_body(a)),
                },
            ),
        },
        TaskOp::Update => match a.task_id {
            Option::None => Result::Err(
                ToolErrorV::Handler("task_id is required for update operations"@),
            ),
            Option::Some(id) => Result::Ok(
                HttpRequestV {
                    method: HttpMethod::Patch,
                    url: base + "/tasks/"@ + id,
                    query: Seq::empty(),
                    bearer: token,
                    body: Option::Some(spec_update_body(a)),
                },
            ),
        },
        TaskOp::Get => match a.task_id {
            Option::None => Result::Err(
                ToolErrorV::Handler("task_id is required for get operations"@),
            ),
            Option::Some(id) => Result::Ok(
                HttpRequestV {
                    method: HttpMethod::Get,
                    url: base + "/tasks/"@ + id,
                    query: Seq::empty(),
                    bearer: token,
                    body: Option::None,
                },
            ),
        },
        TaskOp::List => Result::Ok(
            HttpRequestV {
                method: HttpMethod::Get,
                url: base + "/tasks"@,
                query: match a.status {
                    Option::Some(s) => seq![("status"@, s)],
                    Option::None => Seq::empty(),
                },
                bearer: token,
                body: Option::None,
            },
        ),
    }
}

/// Plan the request a `manage_task` call makes against the task API.
pub fn plan_task_request(a: &TaskArgs, base: &str, token: &str) -> (r: Result<
    HttpRequestSpec,
    ToolError,
>)
    ensures
        match r {
            Ok(p) => spec_plan_task(a@, base@, token@) == Result::<HttpRequestV, ToolErrorV>::Ok(
                p@,
            ),
            Err(e) => spec_plan_task(a@, base@, token@) == Result::<
                HttpRequestV,
                ToolErrorV,
            >::Err(e@),
        },
{
    match a.operation {
        TaskOp::Create => {
            let title = match &a.title {
                Some(t) => t.clone(),
                None => {
                    return Err(
                        ToolError::Handler(
                            String::from_str("title is required for create operations"),
                        ),
                    );
                },
            };
            let description = match &a.description {
                Some(d) => d.clone(),
                None => String::from_str(""),
            };
            let status = match &a.status {
                Some(s) => s.clone(),
                None => String::from_str("todo"),
            };
            let priority = match &a.priority {
                Some(p) => p.clone(),
                None => String::from_str("medium"),
            };
            let mut body_fields: Vec<(String, ArgValue)> = Vec::new();
            body_fields.push((String::from_str("title"), ArgValue::Str(title)));
            body_fields.push((String::from_str("description"), ArgValue::Str(description)));
            body_fields.push((String::from_str("status"), ArgValue::Str(status)));
            body_fields.push((String::from_str("priority"), ArgValue::Str(priority)));
            let body = ArgValue::Obj(body_fields);
            proof {
                lemma_fields_view(body_fields@);
                assert(body@ matches Val::Obj(fs) && fs =~= spec_create_body(a@)->Obj_0);
            }
            let mut url = String::from_str(base);
            url.append("/tasks");
            let p = HttpRequestSpec {
                method: HttpMethod::Post,
                url,
                query: Vec::new(),
                bearer: token.to_owned(),
                body: Some(body),
            };
            proof {
                assert(p@.query =~= Seq::<(Seq<char>, Seq<char>)>::empty());
            }
            Ok(p)
        },
        TaskOp::Update => {
            let task_id = match &a.task_id {
                Some(t) => t.clone(),
                None => {
                    return Err(
                        ToolError::Handler(
                            String::from_str("task_id is required for update operations"),
                        ),
                    );
                },
            };
            let mut body_fields: Vec<(String, ArgValue)> = Vec::new();
            if let Some(t) = &a.title {
                body_fields.push((String::from_str("title"), ArgValue::Str(t.clone())));
            }
            if let Some(d) = &a.description {
                body_fields.push((String::from_str("description"), ArgValue::Str(d.clone())));
            }
            if let Some(s) = &a.status {
                body_fields.push((String::from_str("status"), ArgValue::Str(s.clone())));
            }
            if let Some(p) = &a.priority {
                body_fields.push((String::from_str("priority"), ArgValue::Str(p.clone())));
            }
            let body = ArgValue::Obj(body_fields);
            proof {
                lemma_fields_view(body_fields@);
                assert(body@ matches Val::Obj(fs) && fs =~= spec_update_body(a@)->Obj_0);
            }
            let mut url = String::from_str(base);
            url.append("/tasks/");
            url.append(task_id.as_str());
            let p = HttpRequestSpec {
                method: HttpMethod::Patch,
                url,
                query: Vec::new(),
                bearer: token.to_owned(),
                body: Some(body),
            };
            proof {
                assert(p@.query =~= Seq::<(Seq<char>, Seq<char>)>::empty());
            }
            Ok(p)
        },
        TaskOp::Get => {
            let task_id = match &a.task_id {
                Some(t) => t.clone(),
                None => {
                    return Err(
                        ToolError::Handler(
                            String::from_str("task_id is required for get operations"),
                        ),
                    );
                },
            };
            let mut url = String::from_str(base);
            url.append("/tasks/");
            url.append(task_id.as_str());
            let p = HttpRequestSpec {
                method: HttpMethod::Get,
                url,
                query: Vec::new(),
                bearer: token.to_owned(),
                body: None,
            };
            proof {
                assert(p@.query =~= Seq::<(Seq<char>, Seq<char>)>::empty());
            }
            Ok(p)
        },
        TaskOp::List => {
            let mut url = String::from_str(base);
            url.append("/tasks");
            let mut query: Vec<(String, String)> = Vec::new();
            if let Some(s) = &a.status {
                query.push((String::from_str("status"), s.clone()));
            }
            let p = HttpRequestSpec {
                method: HttpMethod::Get,
                url,
                query,
                bearer: token.to_owned(),
                body: None,
            };
            proof {
                assert(p@.query =~= spec_plan_task(a@, base@, token@)->Ok_0.query);
            }
            Ok(p)
        },
    }
}

/// The description `manage_task` is advertised under.
pub open spec fn manage_task_description() -> Seq<char> {
    "Comprehensive task management tool that handles create, update, and read operations.\n\nUse this for common workflows like:\n- Creating new tasks with details\n- Updating task status or details\n- Getting task information\n\nOperation types:\n- 'create': Create new task (title required)\n- 'update': Update existing task (task_id required)\n- 'get': Get task details (task_id required)\n- 'list': List tasks (optional: status filter)"@
}

/// The schema `manage_task` is registered under: the operation (an enumerated
/// string, and the one required parameter) plus optional task fields, with
/// `status` and `priority` enum-constrained.
pub open spec fn spec_manage_task_schema() -> SchemaV {
    SchemaV {
        name: "manage_task"@,
        description: manage_task_description(),
        params: seq![
            ParamDefV {
                name: "operation"@,
                ptype: ParamType::Text,
                allowed: Option::Some(seq!["create"@, "update"@, "get"@, "list"@]),
                default: Option::None,
            },
            ParamDefV {
                name: "task_id"@,
                ptype: ParamType::Text,
                allowed: Option::None,
                default: Option::None,
            },
            ParamDefV {
                name: "title"@,
                ptype: ParamType::Text,
                allowed: Option::None,
                default: Option::None,
            },
            ParamDefV {
                name: "description"@,
                ptype: ParamType::Text,
                allowed: Option::None,
                default: Option::None,
            },
            ParamDefV {
                name: "status"@,
                ptype: ParamType::Text,
                allowed: Option::Some(seq!["todo"@, "in_progress"@, "done"@]),
                default: Option::None,
            },
            ParamDefV {
                name: "priority"@,
                ptype: ParamType::Text,
                allowed: Option::Some(seq!["low"@, "medium"@, "high"@]),
                default: Option::None,
            },
        ],
        required: seq!["operation"@],
    }
}

/// A text parameter without enumeration or default.
fn text_param(name: &str) -> (r: ParamDef)
    ensures
        r@ == (ParamDefV {
            name: name@,
            ptype: ParamType::Text,
            allowed: Option::None,
            default: Option::None,
        }),
{
    ParamDef {
        name: name.to_owned(),
        ptype: ParamType::Text,
        allowed: None,
        default: None,
    }
}

/// The schema `manage_task` is registered under.
pub fn manage_task_schema() -> (r: ToolSchema)
    ensures
        r@ == spec_manage_task_schema(),
{
    let mut op_allowed: Vec<String> = Vec::new();
    op_allowed.push(String::from_str("create"));
    op_allowed.push(String::from_str("update"));
    op_allowed.push(String::from_str("get"));
    op_allowed.push(String::from_str("list"));
    let mut status_allowed: Vec<String> = Vec::new();
    status_allowed.push(String::from_str("todo"));
    status_allowed.push(String::from_str("in_progress"));
    status_allowed.push(String::from_str("done"));
    let mut priority_allowed: Vec<String> = Vec::new();
    priority_allowed.push(String::from_str("low"));
    priority_allowed.push(String::from_str("medium"));
    priority_allowed.push(String::from_str("high"));

    let mut params: Vec<ParamDef> = Vec::new();
    params.push(
        ParamDef {
            name: String::from_str("operation"),
            ptype: ParamType::Text,
            allowed: Some(op_allowed),
            default: None,
        },
    );
    params.push(text_param("task_id"));
    params.push(text_param("title"));
    params.push(text_param("description"));
    params.push(
        ParamDef {
            name: String::from_str("status"),
            ptype: ParamType::Text,
            allowed: Some(status_allowed),
            default: None,
        },
    );
    params.push(
        ParamDef {
            name: String::from_str("priority"),
            ptype: ParamType::Text,
            allowed: Some(priority_allowed),
            default: None,
        },
    );
    let mut required: Vec<String> = Vec::new();
    required.push(String::from_str("operation"));
    let r = ToolSchema {
        name: String::from_str("manage_task"),
        description: String::from_str(
            "Comprehensive task management tool that handles create, update, and read operations.\n\nUse this for common workflows like:\n- Creating new tasks with details\n- Updating task status or details\n- Getting task information\n\nOperation types:\n- 'create': Create new task (title required)\n- 'update': Update existing task (task_id required)\n- 'get': Get task details (task_id required)\n- 'list': List tasks (optional: status filter)",
        ),
        params,
        required,
    };
    proof {
        assert(r@.params =~~= spec_manage_task_schema().params);
        assert(r@.required =~~= spec_manage_task_schema().required);
        assert(r@ =~~= spec_manage_task_schema());
    }
    r
}

/// The description `get_team_overview` is advertised under.
pub open spec fn team_overview_description() -> Seq<char> {
    "Get comprehensive team information including members, projects, and recent activity.\n\nThis tool bundles multiple read-only operations:\n- Team member list with roles\n- Active projects summary\n- Recent team activity\n- Team performance metrics\n\nPerfect for questions like \"What's my team working on?\" or \"Who's available for new tasks?\""@
}

/// The schema `get_team_overview` is registered under: an optional team id
/// and an optional metrics flag, nothing required.
pub open spec fn spec_team_overview_schema() -> SchemaV {
    SchemaV {
        name: "get_team_overview"@,
        description: team_overview_description(),
        params: seq![
            ParamDefV {
                name: "team_id"@,
                ptype: ParamType::Text,
                allowed: Option::None,
                default: Option::None,
            },
            ParamDefV {
                name: "include_metrics"@,
                ptype: ParamType::Flag,
                allowed: Option::None,
                default: Option::None,
            },
        ],
        required: Seq::empty(),
    }
}

/// The schema `get_team_overview` is registered under.
pub fn team_overview_schema() -> (r: ToolSchema)
    ensures
        r@ == spec_team_overview_schema(),
{
    let mut params: Vec<ParamDef> = Vec::new();
    params.push(text_param("team_id"));
    params.push(
        ParamDef {
            name: String::from_str("include_metrics"),
            ptype: ParamType::Flag,
            allowed: None,
            default: None,
        },
    );
    let required: Vec<String> = Vec::new();
    let r = ToolSchema {
        name: String::from_str("get_team_overview"),
        description: String::from_str(
            "Get comprehensive team information including members, projects, and recent activity.\n\nThis tool bundles multiple read-only operations:\n- Team member list with roles\n- Active projects summary\n- Recent team activity\n- Team performance metrics\n\nPerfect for questions like \"What's my team working on?\" or \"Who's available for new tasks?\"",
        ),
        params,
        required,
    };
    proof {
        assert(r@.params =~~= spec_team_overview_schema().params);
        assert(r@.required =~~= spec_team_overview_schema().required);
        assert(r@ =~~= spec_team_overview_schema());
    }
    r
}

/// The handler identities of the task wrapper, as registry payloads.
#[derive(Clone, Copy, PartialEq, Eq, Structural, Debug)]
pub enum TaskTool {
    ManageTask,
    TeamOverview,
}

/// The registry the task wrapper serves: `manage_task` and
/// `get_team_overview`, registered once at startup. Both registrations
/// provably succeed: the schemas are well formed and the names distinct.
pub fn task_tool_registry() -> (r: Result<
    crate::registry::Registry<TaskTool>,
    crate::registry::RegistryError,
>)
    ensures
        r matches Ok(reg) && (reg.entries@.len() == 2 && reg.entries@[0].schema@
            == spec_manage_task_schema() && reg.entries@[0].handler == TaskTool::ManageTask
            && reg.entries@[1].schema@ == spec_team_overview_schema() && reg.entries@[1].handler
            == TaskTool::TeamOverview && crate::registry::registry_wf(reg.entries@)
            && crate::registry::names_distinct(reg.entries@)),
{
    proof {
        reveal_strlit("manage_task");
        reveal_strlit("get_team_overview");
        assert(crate::schema::find_param(spec_manage_task_schema().params, "operation"@)
            is Some);
        assert(crate::schema::schema_wf(spec_manage_task_schema()));
        assert(crate::schema::schema_wf(spec_team_overview_schema()));
    }
    let mut reg: crate::registry::Registry<TaskTool> = crate::registry::Registry::new();
    let ghost empty_entries = reg.entries@;
    match reg.register(manage_task_schema(), TaskTool::ManageTask) {
        Ok(()) => {},
        Err(e) => {
            proof {
                assert(!crate::registry::has_tool(empty_entries, "manage_task"@));
                assert(false);
            }
            return Err(e);
        },
    }
    let ghost one_entry = reg.entries@;
    match reg.register(team_overview_schema(), TaskTool::TeamOverview) {
        Ok(()) => {},
        Err(e) => {
            proof {
                assert(one_entry.len() == 1);
                assert(one_entry[0].schema@ == spec_manage_task_schema());
                assert(one_entry[0].schema.name@ == "manage_task"@);
                assert("manage_task"@.len() == 11);
                assert("get_team_overview"@.len() == 17);
                assert(one_entry[0].schema.name@ != "get_team_overview"@);
                assert(one_entry.drop_first() =~= Seq::<
                    crate::registry::ToolEntry<TaskTool>,
                >::empty());
                assert(crate::registry::find_index(one_entry.drop_first(), "get_team_overview"@)
                    is None);
                assert(!crate::registry::has_tool(one_entry, "get_team_overview"@));
                assert(false);
            }
            return Err(e);
        },
    }
    Ok(reg)
}

/// A task record as the task API returns it.
#[derive(Debug, PartialEq, Eq)]
pub struct TaskRecord {
    pub id: String,
    pub title: String,
    pub description: Option<String>,
    pub status: String,
    pub priority: String,
    pub created_at: Option<String>,
}

/// The mathematical model of a task record.
#[verifier::ext_equal]
pub struct TaskRecordV {
    pub id: Seq<char>,
    pub title: Seq<char>,
    pub description: Option<Seq<char>>,
    pub status: Seq<char>,
    pub priority: Seq<char>,
    pub created_at: Option<Seq<char>>,
}

impl View for TaskRecord {
    type V = TaskRecordV;

    open spec fn view(&self) -> TaskRecordV {
        TaskRecordV {
            id: self.id@,
            title: self.title@,
            description: opt_view(self.description),
            status: self.status@,
            priority: self.priority@,
            created_at: opt_view(self.created_at),
        }
    }
}

/// The task record a response body denotes: an object with string `id`,
/// `title`, `status` and `priority`, and optional string `description` and
/// `created_at` (absent and null count as not given). Anything else is
/// malformed.
pub open spec fn spec_parse_task_record(v: Val) -> Option<TaskRecordV> {
    match v {
        Val::Obj(fs) => if spec_opt_str(fs, "id"@) is Some && spec_opt_str(fs, "title"@) is Some
            && spec_opt_str(fs, "status"@) is Some && spec_opt_str(fs, "priority"@) is Some
            && spec_opt_str_strict(fs, "description"@) is Some && spec_opt_str_strict(
            fs,
            "created_at"@,
        ) is Some {
            Option::Some(
                TaskRecordV {
                    id: spec_opt_str(fs, "id"@)->0,
                    title: spec_opt_str(fs, "title"@)->0,
                    description: spec_opt_str_strict(fs, "description"@)->0,
                    status: spec_opt_str(fs, "status"@)->0,
                    priority: spec_opt_str(fs, "priority"@)->0,
                    created_at: spec_opt_str_strict(fs, "created_at"@)->0,
                },
            )
        } else {
            Option::None
        },
        _ => Option::None,
    }
}

/// Parse a response body into a task record.
pub fn parse_task_record(v: &ArgValue) -> (r: Result<TaskRecord, ToolError>)
    ensures
        match r {
            Ok(t) => spec_parse_task_record(v@) == Option::Some(t@),
            Err(e) => spec_parse_task_record(v@) is None && e@ == ToolErrorV::Handler(
                "malformed task record"@,
            ),
        },
{
    let fields = match v {
        ArgValue::Obj(fs) => fs,
        _ => {
            return Err(ToolError::Handler(String::from_str("malformed task record")));
        },
    };
    let id = opt_str_arg(fields, "id");
    let title = opt_str_arg(fields, "title");
    let status = opt_str_arg(fields, "status");
    let priority = opt_str_arg(fields, "priority");
    let description = opt_str_strict(fields, "description");
    let created_at = opt_str_strict(fields, "created_at");
    match (id, title, status, priority, description, created_at) {
        (Some(id), Some(title), Some(status), Some(priority), Some(description), Some(created_at))
            => Ok(TaskRecord { id, title, description, status, priority, created_at }),
        _ => Err(ToolError::Handler(String::from_str("malformed task record"))),
    }
}

/// The models of a sequence of task records.
pub open spec fn task_records_view(ts: Seq<TaskRecord>) -> Seq<TaskRecordV> {
    Seq::new(ts.len(), |i: int| ts[i]@)
}

/// The task records denoted by the first `n` items, or nothing if any one of
/// them is malformed.
pub open spec fn spec_parse_records_upto(items: Seq<Val>, n: int) -> Option<Seq<TaskRecordV>>
    decreases n,
{
    if n <= 0 {
        Option::Some(Seq::empty())
    } else {
        match spec_parse_records_upto(items, n - 1) {
            Option::None => Option::None,
            Option::Some(pre) => match spec_parse_task_record(items[n - 1]) {
                Option::None => Option::None,
                Option::Some(t) => Option::Some(pre + seq![t]),
            },
        }
    }
}

/// Once the scan hits a malformed item, it stays failed.
pub proof fn lemma_parse_records_none_stable(items: Seq<Val>, i: int, n: int)
    requires
        0 <= i <= n <= items.len(),
        spec_parse_records_upto(items, i) is None,
    ensures
        spec_parse_records_upto(items, n) is None,
    decreases n,
{
    if n > i {
        lemma_parse_records_none_stable(items, i, n - 1);
    }
}

/// The task list a response body denotes: an array of task records.
pub open spec fn spec_parse_task_list(v: Val) -> Option<Seq<TaskRecordV>> {
    match v {
        Val::Arr(items) => spec_parse_records_upto(items, items.len() as int),
        _ => Option::None,
    }
}

/// Parse a response body into a list of task records.
#[verifier::loop_isolation(false)]
pub fn parse_task_list(v: &ArgValue) -> (r: Result<Vec<TaskRecord>, ToolError>)
    ensures
        match r {
            Ok(ts) => spec_parse_task_list(v@) == Option::Some(task_records_view(ts@)),
            Err(e) => spec_parse_task_list(v@) is None && e@ == ToolErrorV::Handler(
                "malformed task list"@,
            ),
        },
{
    let items = match v {
        ArgValue::Arr(items) => items,
        _ => {
            return Err(ToolError::Handler(String::from_str("malformed task list")));
        },
    };
    let ghost iv = crate::value::seq_view(items@);
    proof {
        crate::value::lemma_seq_view(items@);
    }
    let mut out: Vec<TaskRecord> = Vec::new();
    let mut i: usize = 0;
    while i < items.len()
        invariant
            0 <= i <= items.len(),
            spec_parse_records_upto(iv, i as int) == Option::Some(task_records_view(out@)),
        decreases items.len() - i,
    {
        let ghost pre = task_records_view(out@);
        match parse_task_record(&items[i]) {
            Ok(t) => {
                out.push(t);
                proof {
                    assert(task_records_view(out@) =~= pre + seq![t@]);
                }
            },
            Err(_) => {
                proof {
                    lemma_parse_records_none_stable(iv, i as int + 1, iv.len() as int);
                }
                return Err(ToolError::Handler(String::from_str("malformed task list")));
            },
        }
        i = i + 1;
    }
    Ok(out)
}

/// The task summary block shared by creation and update confirmations.
pub open spec fn spec_task_summary(t: TaskRecordV) -> Seq<char> {
    "**Task ID**: "@ + t.id + "\n**Title**: "@ + t.title + "\n**Status**: "@ + t.status
        + "\n**Priority**: "@ + t.priority
}

/// The text confirming a created task.
pub open spec fn spec_render_task_created(t: TaskRecordV) -> Seq<char> {
    "\u{2705} Task created successfully!\n\n"@ + spec_task_summary(t)
}

/// The text confirming an updated task.
pub open spec fn spec_render_task_updated(t: TaskRecordV) -> Seq<char> {
    "\u{2705} Task updated successfully!\n\n"@ + spec_task_summary(t)
}

/// The text detailing one task, with absent fields written out as such.
pub open spec fn spec_render_task_details(t: TaskRecordV) -> Seq<char> {
    "**Task Details**\n\n**ID**: "@ + t.id + "\n**Title**: "@ + t.title + "\n**Description**: "@
        + str_or(t.description, "No description"@) + "\n**Status**: "@ + t.status
        + "\n**Priority**: "@ + t.priority + "\n**Created**: "@ + str_or(t.created_at, "Unknown"@)
}

/// The task summary block shared by creation and update confirmations.
fn render_task_summary(t: &TaskRecord) -> (r: String)
    ensures
        r@ == spec_task_summary(t@),
{
    let mut s = String::from_str("**Task ID**: ");
    s.append(t.id.as_str());
    s.append("\n**Title**: ");
    s.append(t.title.as_str());
    s.append("\n**Status**: ");
    s.append(t.status.as_str());
    s.append("\n**Priority**: ");
    s.append(t.priority.as_str());
    s
}

/// The text confirming a created task.
pub fn render_task_created(t: &TaskRecord) -> (r: String)
    ensures
        r@ == spec_render_task_created(t@),
{
    let mut s = String::from_str("\u{2705} Task created successfully!\n\n");
    let summary = render_task_summary(t);
    s.append(summary.as_str());
    proof {
        assert(s@ =~= spec_render_task_created(t@));
    }
    s
}

/// The text confirming an updated task.
pub fn render_task_updated(t: &TaskRecord) -> (r: String)
    ensures
        r@ == spec_render_task_updated(t@),
{
    let mut s = String::from_str("\u{2705} Task updated successfully!\n\n");
    let summary = render_task_summary(t);
    s.append(summary.as_str());
    proof {
        assert(s@ =~= spec_render_task_updated(t@));
    }
    s
}

/// The text detailing one task.
pub fn render_task_details(t: &TaskRecord) -> (r: String)
    ensures
        r@ == spec_render_task_details(t@),
{
    let mut s = String::from_str("**Task Details**\n\n**ID**: ");
    s.append(t.id.as_str());
    s.append("\n**Title**: ");
    s.append(t.title.as_str());
    s.append("\n**Description**: ");
    match &t.description {
        Some(d) => s.append(d.as_str()),
        None => s.append("No description"),
    }
    s.append("\n**Status**: ");
    s.append(t.status.as_str());
    s.append("\n**Priority**: ");
    s.append(t.priority.as_str());
    s.append("\n**Created**: ");
    match &t.created_at {
        Some(c) => s.append(c.as_str()),
        None => s.append("Unknown"),
    }
    proof {
        assert(s@ =~= spec_render_task_details(t@));
    }
    s
}

/// One bullet of the task list.
pub open spec fn spec_task_line(t: TaskRecordV) -> Seq<char> {
    "\u{2022} **"@ + t.title + "** (ID: "@ + t.id + ") - "@ + t.status + " - "@ + t.priority
        + " priority\n"@
}

/// The first `n` bullets of the task list, in order.
pub open spec fn spec_task_lines(ts: Seq<TaskRecordV>, n: int) -> Seq<char>
    decreases n,
{
    if n <= 0 {
        Seq::empty()
    } else {
        spec_task_lines(ts, n - 1) + spec_task_line(ts[n - 1])
    }
}

/// The rendered task list: at most the first ten tasks as bullets, a note
/// when more were returned, and a fixed line when there are none.
pub open spec fn spec_render_task_list(ts: Seq<TaskRecordV>) -> Seq<char> {
    if ts.len() == 0 {
        "No tasks found."@
    } else {
        let shown: int = if ts.len() > 10 {
            10
        } else {
            ts.len() as int
        };
        let base = "**Task List**\n\n"@ + spec_task_lines(ts, shown);
        if ts.len() > 10 {
            base + "\n*Showing first 10 of "@ + crate::text::dec_str(ts.len()) + " tasks*"@
        } else {
            base
        }
    }
}

/// One bullet of the task list.
fn render_task_line(t: &TaskRecord) -> (r: String)
    ensures
        r@ == spec_task_line(t@),
{
    let mut s = String::from_str("\u{2022} **");
    s.append(t.title.as_str());
    s.append("** (ID: ");
    s.append(t.id.as_str());
    s.append(") - ");
    s.append(t.status.as_str());
    s.append(" - ");
    s.append(t.priority.as_str());
    s.append(" priority\n");
    proof {
        assert(s@ =~= spec_task_line(t@));
    }
    s
}

/// The rendered task list.
#[verifier::loop_isolation(false)]
pub fn render_task_list(tasks: &Vec<TaskRecord>) -> (r: String)
    ensures
        r@ == spec_render_task_list(task_records_view(tasks@)),
{
    let ghost tv = task_records_view(tasks@);
    if tasks.len() == 0 {
        return String::from_str("No tasks found.");
    }
    let shown = if tasks.len() > 10 {
        10
    } else {
        tasks.len()
    };
    let mut s = String::from_str("**Task List**\n\n");
    let mut i: usize = 0;
    while i < shown
        invariant
            0 <= i <= shown,
            s@ == "**Task List**\n\n"@ + spec_task_lines(tv, i as int),
        decreases shown - i,
    {
        let line = render_task_line(&tasks[i]);
        s.append(line.as_str());
        proof {
            assert(s@ =~= "**Task List**\n\n"@ + spec_task_lines(tv, i as int + 1));
        }
        i = i + 1;
    }
    if tasks.len() > 10 {
        s.append("\n*Showing first 10 of ");
        let count = crate::text::u64_to_dec(tasks.len() as u64);
        s.append(count.as_str());
        s.append(" tasks*");
        proof {
            assert(s@ =~= spec_render_task_list(tv));
        }
    }
    s
}

/// The text a `manage_task` call renders from the response body of its
/// planned request: a confirmation, task details, or a task list, according
/// to the operation; a handler failure when the body is malformed.
pub open spec fn spec_render_task_response(op: TaskOp, v: Val) -> Result<Seq<char>, ToolErrorV> {
    match op {
        TaskOp::Create => match spec_parse_task_record(v) {
            Option::None => Result::Err(ToolErrorV::Handler("malformed task record"@)),
            Option::Some(t) => Result::Ok(spec_render_task_created(t)),
        },
        TaskOp::Update => match spec_parse_task_record(v) {
            Option::None => Result::Err(ToolErrorV::Handler("malformed task record"@)),
            Option::Some(t) => Result::Ok(spec_render_task_updated(t)),
        },
        TaskOp::Get => match spec_parse_task_record(v) {
            Option::None => Result::Err(ToolErrorV::Handler("malformed task record"@)),
            Option::Some(t) => Result::Ok(spec_render_task_details(t)),
        },
        TaskOp::List => match spec_parse_task_list(v) {
            Option::None => Result::Err(ToolErrorV::Handler("malformed task list"@)),
            Option::Some(ts) => Result::Ok(spec_render_task_list(ts)),
        },
    }
}

/// Render the response body of a `manage_task` request, whatever the API
/// returned: exactly `spec_render_task_response` of the operation and the
/// body's model.
pub fn render_task_response(op: TaskOp, v: &ArgValue) -> (r: Result<String, ToolError>)
    ensures
        match r {
            Ok(s) => spec_render_task_response(op, v@) == Result::<Seq<char>, ToolErrorV>::Ok(s@),
            Err(e) => spec_render_task_response(op, v@) == Result::<Seq<char>, ToolErrorV>::Err(
                e@,
            ),
        },
{
    match op {
        TaskOp::Create => match parse_task_record(v) {
            Ok(t) => Ok(render_task_created(&t)),
            Err(e) => Err(e),
        },
        TaskOp::Update => match parse_task_record(v) {
            Ok(t) => Ok(render_task_updated(&t)),
            Err(e) => Err(e),
        },
        TaskOp::Get => match parse_task_record(v) {
            Ok(t) => Ok(render_task_details(&t)),
            Err(e) => Err(e),
        },
        TaskOp::List => match parse_task_list(v) {
            Ok(ts) => Ok(render_task_list(&ts)),
            Err(e) => Err(e),
        },
    }
}

/// The typed arguments of one `get_team_overview` call, with the team id
/// defaulting to `default` and metrics included unless switched off.
#[derive(Debug, PartialEq, Eq)]
pub struct TeamArgs {
    pub team_id: String,
    pub include_metrics: bool,
}

/// The mathematical model of `get_team_overview` arguments.
#[verifier::ext_equal]
pub struct TeamArgsV {
    pub team_id: Seq<char>,
    pub include_metrics: bool,
}

impl View for TeamArgs {
    type V = TeamArgsV;

    open spec fn view(&self) -> TeamArgsV {
        TeamArgsV { team_id: self.team_id@, include_metrics: self.include_metrics }
    }
}

/// What parsing a decoded `get_team_overview` argument map yields.
pub open spec fn spec_parse_team_args(m: Seq<(Seq<char>, Val)>) -> TeamArgsV {
    TeamArgsV {
        team_id: str_or(spec_opt_str(m, "team_id"@), "default"@),
        include_metrics: crate::value::spec_opt_bool_or(m, "include_metrics"@, true),
    }
}

/// Parse a decoded `get_team_overview` argument map into typed arguments.
pub fn parse_team_args(args: &Vec<(String, ArgValue)>) -> (r: TeamArgs)
    ensures
        r@ == spec_parse_team_args(arg_map_view(args@)),
{
    let team_id = match opt_str_arg(args, "team_id") {
        Some(s) => s,
        None => String::from_str("default"),
    };
    let include_metrics = crate::value::opt_bool_arg_or(args, "include_metrics", true);
    TeamArgs { team_id, include_metrics }
}

/// The concurrent requests one `get_team_overview` call plans: three required
/// (the team record, its members, its projects) plus an optional, best-effort
/// metrics request when metrics are asked for.
#[verifier::ext_equal]
pub struct TeamPlanV {
    pub required: Seq<HttpRequestV>,
    pub optional: Option<HttpRequestV>,
}

/// The planned requests of one `get_team_overview` call.
#[derive(Debug, PartialEq, Eq)]
pub struct TeamPlan {
    pub required: Vec<HttpRequestSpec>,
    pub optional: Option<HttpRequestSpec>,
}

/// The models of a sequence of planned requests.
pub open spec fn requests_view(rs: Seq<HttpRequestSpec>) -> Seq<HttpRequestV> {
    Seq::new(rs.len(), |i: int| rs[i]@)
}

impl View for TeamPlan {
    type V = TeamPlanV;

    open spec fn view(&self) -> TeamPlanV {
        TeamPlanV {
            required: requests_view(self.required@),
            optional: match self.optional {
                Option::Some(p) => Option::Some(p@),
                Option::None => Option::None,
            },
        }
    }
}

/// A plain bearer-authenticated GET of a URL.
pub open spec fn spec_get_request(url: Seq<char>, token: Seq<char>) -> HttpRequestV {
    HttpRequestV {
        method: HttpMethod::Get,
        url,
        query: Seq::empty(),
        bearer: token,
        body: Option::None,
    }
}

/// The requests a `get_team_overview` call plans.
pub open spec fn spec_plan_team(a: TeamArgsV, base: Seq<char>, token: Seq<char>) -> TeamPlanV {
    let team_url = base + "/teams/"@ + a.team_id;
    TeamPlanV {
        required: seq![
            spec_get_request(team_url, token),
            spec_get_request(team_url + "/members"@, token),
            spec_get_request(team_url + "/projects"@, token),
        ],
        optional: if a.include_metrics {
            Option::Some(spec_get_request(team_url + "/metrics"@, token))
        } else {
            Option::None
        },
    }
}

/// A plain bearer-authenticated GET of a URL.
fn get_request(url: String, token: &str) -> (r: HttpRequestSpec)
    ensures
        r@ == spec_get_request(url@, token@),
{
    let r = HttpRequestSpec {
        method: HttpMethod::Get,
        url,
        query: Vec::new(),
        bearer: token.to_owned(),
        body: None,
    };
    proof {
        assert(r@ =~~= spec_get_request(r.url@, token@));
    }
    r
}

/// Plan the concurrent requests of a `get_team_overview` call.
pub fn plan_team_requests(a: &TeamArgs, base: &str, token: &str) -> (r: TeamPlan)
    ensures
        r@ == spec_plan_team(a@, base@, token@),
{
    let mut team_url = String::from_str(base);
    team_url.append("/teams/");
    team_url.append(a.team_id.as_str());
    let mut members_url = team_url.clone();
    members_url.append("/members");
    let mut projects_url = team_url.clone();
    projects_url.append("/projects");
    let mut required: Vec<HttpRequestSpec> = Vec::new();
    required.push(get_request(team_url.clone(), token));
    required.push(get_request(members_url, token));
    required.push(get_request(projects_url, token));
    let optional = if a.include_metrics {
        let mut metrics_url = team_url.clone();
        metrics_url.append("/metrics");
        Some(get_request(metrics_url, token))
    } else {
        None
    };
    let r = TeamPlan { required, optional };
    proof {
        assert(r@.required =~~= spec_plan_team(a@, base@, token@).required);
        assert(r@ =~~= spec_plan_team(a@, base@, token@));
    }
    r
}

/// A team record: the name is all the overview uses.
#[derive(Debug, PartialEq, Eq)]
pub struct TeamRecord {
    pub name: String,
}

/// One team member: name and role, with optional availability.
#[derive(Debug, PartialEq, Eq)]
pub struct TeamMember {
    pub name: String,
    pub role: String,
    pub available: Option<bool>,
}

/// The mathematical model of a team member.
#[verifier::ext_equal]
pub struct TeamMemberV {
    pub name: Seq<char>,
    pub role: Seq<char>,
    pub available: Option<bool>,
}

impl View for TeamMember {
    type V = TeamMemberV;

    open spec fn view(&self) -> TeamMemberV {
        TeamMemberV { name: self.name@, role: self.role@, available: self.available }
    }
}

/// One project: name and status, with optional progress percentage.
#[derive(Debug, PartialEq, Eq)]
pub struct Project {
    pub name: String,
    pub status: String,
    pub progress: Option<u32>,
}

/// The mathematical model of a project.
#[verifier::ext_equal]
pub struct ProjectV {
    pub name: Seq<char>,
    pub status: Seq<char>,
    pub progress: Option<u32>,
}

impl View for Project {
    type V = ProjectV;

    open spec fn view(&self) -> ProjectV {
        ProjectV { name: self.name@, status: self.status@, progress: self.progress }
    }
}

/// The team name a response body denotes: an object with a string `name`.
pub open spec fn spec_parse_team(v: Val) -> Option<Seq<char>> {
    match v {
        Val::Obj(fs) => spec_opt_str(fs, "name"@),
        _ => Option::None,
    }
}

/// Parse a response body into a team record.
pub fn parse_team(v: &ArgValue) -> (r: Result<TeamRecord, ToolError>)
    ensures
        match r {
            Ok(t) => spec_parse_team(v@) == Option::Some(t.name@),
            Err(e) => spec_parse_team(v@) is None && e@ == ToolErrorV::Handler(
                "malformed team record"@,
            ),
        },
{
    let name = match v {
        ArgValue::Obj(fields) => opt_str_arg(fields, "name"),
        _ => None,
    };
    match name {
        Some(name) => Ok(TeamRecord { name }),
        None => Err(ToolError::Handler(String::from_str("malformed team record"))),
    }
}

/// The team member a value denotes: string `name` and `role`, optional
/// boolean `available`.
pub open spec fn spec_parse_member(v: Val) -> Option<TeamMemberV> {
    match v {
        Val::Obj(fs) => if spec_opt_str(fs, "name"@) is Some && spec_opt_str(fs, "role"@) is Some
            && crate::value::spec_opt_bool_strict(fs, "available"@) is Some {
            Option::Some(
                TeamMemberV {
                    name: spec_opt_str(fs, "name"@)->0,
                    role: spec_opt_str(fs, "role"@)->0,
                    available: crate::value::spec_opt_bool_strict(fs, "available"@)->0,
                },
            )
        } else {
            Option::None
        },
        _ => Option::None,
    }
}

/// The project a value denotes: string `name` and `status`, optional number
/// `progress`.
pub open spec fn spec_parse_project(v: Val) -> Option<ProjectV> {
    match v {
        Val::Obj(fs) => if spec_opt_str(fs, "name"@) is Some && spec_opt_str(fs, "status"@) is Some
            && crate::value::spec_opt_u32_strict(fs, "progress"@) is Some {
            Option::Some(
                ProjectV {
                    name: spec_opt_str(fs, "name"@)->0,
                    status: spec_opt_str(fs, "status"@)->0,
                    progress: crate::value::spec_opt_u32_strict(fs, "progress"@)->0,
                },
            )
        } else {
            Option::None
        },
        _ => Option::None,
    }
}

/// Parse one value into a team member.
fn parse_member(v: &ArgValue) -> (r: Option<TeamMember>)
    ensures
        match r {
            Some(m) => spec_parse_member(v@) == Option::Some(m@),
            None => spec_parse_member(v@) is None,
        },
{
    let fields = match v {
        ArgValue::Obj(fs) => fs,
        _ => {
            return None;
        },
    };
    let name = opt_str_arg(fields, "name");
    let role = opt_str_arg(fields, "role");
    let available = crate::value::opt_bool_strict(fields, "available");
    match (name, role, available) {
        (Some(name), Some(role), Some(available)) => Some(TeamMember { name, role, available }),
        _ => None,
    }
}

/// Parse one value into a project.
fn parse_project(v: &ArgValue) -> (r: Option<Project>)
    ensures
        match r {
            Some(p) => spec_parse_project(v@) == Option::Some(p@),
            None => spec_parse_project(v@) is None,
        },
{
    let fields = match v {
        ArgValue::Obj(fs) => fs,
        _ => {
            return None;
        },
    };
    let name = opt_str_arg(fields, "name");
    let status = opt_str_arg(fields, "status");
    let progress = crate::value::opt_u32_strict(fields, "progress");
    match (name, status, progress) {
        (Some(name), Some(status), Some(progress)) => Some(Project { name, status, progress }),
        _ => None,
    }
}

/// The models of a sequence of team members.
pub open spec fn members_view(ms: Seq<TeamMember>) -> Seq<TeamMemberV> {
    Seq::new(ms.len(), |i: int| ms[i]@)
}

/// The models of a sequence of projects.
pub open spec fn projects_view(ps: Seq<Project>) -> Seq<ProjectV> {
    Seq::new(ps.len(), |i: int| ps[i]@)
}

/// The team members denoted by the first `n` items, or nothing if any one is
/// malformed.
pub open spec fn spec_parse_members_upto(items: Seq<Val>, n: int) -> Option<Seq<TeamMemberV>>
    decreases n,
{
    if n <= 0 {
        Option::Some(Seq::empty())
    } else {
        match spec_parse_members_upto(items, n - 1) {
            Option::None => Option::None,
            Option::Some(pre) => match spec_parse_member(items[n - 1]) {
                Option::None => Option::None,
                Option::Some(m) => Option::Some(pre + seq![m]),
            },
        }
    }
}

/// The projects denoted by the first `n` items, or nothing if any one is
/// malformed.
pub open spec fn spec_parse_projects_upto(items: Seq<Val>, n: int) -> Option<Seq<ProjectV>>
    decreases n,
{
    if n <= 0 {
        Option::Some(Seq::empty())
    } else {
        match spec_parse_projects_upto(items, n - 1) {
            Option::None => Option::None,
            Option::Some(pre) => match spec_parse_project(items[n - 1]) {
                Option::None => Option::None,
                Option::Some(p) => Option::Some(pre + seq![p]),
            },
        }
    }
}

/// Once the member scan hits a malformed item, it stays failed.
pub proof fn lemma_parse_members_none_stable(items: Seq<Val>, i: int, n: int)
    requires
        0 <= i <= n <= items.len(),
        spec_parse_members_upto(items, i) is None,
    ensures
        spec_parse_members_upto(items, n) is None,
    decreases n,
{
    if n > i {
        lemma_parse_members_none_stable(items, i, n - 1);
    }
}

/// Once the project scan hits a malformed item, it stays failed.
pub proof fn lemma_parse_projects_none_stable(items: Seq<Val>, i: int, n: int)
    requires
        0 <= i <= n <= items.len(),
        spec_parse_projects_upto(items, i) is None,
    ensures
        spec_parse_projects_upto(items, n) is None,
    decreases n,
{
    if n > i {
        lemma_parse_projects_none_stable(items, i, n - 1);
    }
}

/// The member list a response body denotes: an array of member records.
pub open spec fn spec_parse_members(v: Val) -> Option<Seq<TeamMemberV>> {
    match v {
        Val::Arr(items) => spec_parse_members_upto(items, items.len() as int),
        _ => Option::None,
    }
}

/// The project list a response body denotes: an array of project records.
pub open spec fn spec_parse_projects(v: Val) -> Option<Seq<ProjectV>> {
    match v {
        Val::Arr(items) => spec_parse_projects_upto(items, items.len() as int),
        _ => Option::None,
    }
}

/// Parse a response body into the team's member list.
#[verifier::loop_isolation(false)]
pub fn parse_members(v: &ArgValue) -> (r: Result<Vec<TeamMember>, ToolError>)
    ensures
        match r {
            Ok(ms) => spec_parse_members(v@) == Option::Some(members_view(ms@)),
            Err(e) => spec_parse_members(v@) is None && e@ == ToolErrorV::Handler(
                "malformed member list"@,
            ),
        },
{
    let items = match v {
        ArgValue::Arr(items) => items,
        _ => {
            return Err(ToolError::Handler(String::from_str("malformed member list")));
        },
    };
    let ghost iv = crate::value::seq_view(items@);
    proof {
        crate::value::lemma_seq_view(items@);
    }
    let mut out: Vec<TeamMember> = Vec::new();
    let mut i: usize = 0;
    while i < items.len()
        invariant
            0 <= i <= items.len(),
            spec_parse_members_upto(iv, i as int) == Option::Some(members_view(out@)),
        decreases items.len() - i,
    {
        let ghost pre = members_view(out@);
        match parse_member(&items[i]) {
            Some(m) => {
                out.push(m);
                proof {
                    assert(members_view(out@) =~= pre + seq![m@]);
                }
            },
            None => {
                proof {
                    lemma_parse_members_none_stable(iv, i as int + 1, iv.len() as int);
                }
                return Err(ToolError::Handler(String::from_str("malformed member list")));
            },
        }
        i = i + 1;
    }
    Ok(out)
}

/// Parse a response body into the team's project list.
#[verifier::loop_isolation(false)]
pub fn parse_projects(v: &ArgValue) -> (r: Result<Vec<Project>, ToolError>)
    ensures
        match r {
            Ok(ps) => spec_parse_projects(v@) == Option::Some(projects_view(ps@)),
            Err(e) => spec_parse_projects(v@) is None && e@ == ToolErrorV::Handler(
                "malformed project list"@,
            ),
        },
{
    let items = match v {
        ArgValue::Arr(items) => items,
        _ => {
            return Err(ToolError::Handler(String::from_str("malformed project list")));
        },
    };
    let ghost iv = crate::value::seq_view(items@);
    proof {
        crate::value::lemma_seq_view(items@);
    }
    let mut out: Vec<Project> = Vec::new();
    let mut i: usize = 0;
    while i < items.len()
        invariant
            0 <= i <= items.len(),
            spec_parse_projects_upto(iv, i as int) == Option::Some(projects_view(out@)),
        decreases items.len() - i,
    {
        let ghost pre = projects_view(out@);
        match parse_project(&items[i]) {
            Some(p) => {
                out.push(p);
                proof {
                    assert(projects_view(out@) =~= pre + seq![p@]);
                }
            },
            None => {
                proof {
                    lemma_parse_projects_none_stable(iv, i as int + 1, iv.len() as int);
                }
                return Err(ToolError::Handler(String::from_str("malformed project list")));
            },
        }
        i = i + 1;
    }
    Ok(out)
}

/// An optional boolean, or a fallback.
pub open spec fn bool_or(o: Option<bool>, d: bool) -> bool {
    match o {
        Option::Some(b) => b,
        Option::None => d,
    }
}

/// One member bullet: a green marker for an available member (the default), a
/// red one otherwise.
pub open spec fn spec_member_line(m: TeamMemberV) -> Seq<char> {
    "\u{2022} "@ + (if bool_or(m.available, true) {
        "\u{1f7e2}"@
    } else {
        "\u{1f534}"@
    }) + " **"@ + m.name + "** - "@ + m.role + "\n"@
}

/// The first `n` member bullets, in order.
pub open spec fn spec_member_lines(ms: Seq<TeamMemberV>, n: int) -> Seq<char>
    decreases n,
{
    if n <= 0 {
        Seq::empty()
    } else {
        spec_member_lines(ms, n - 1) + spec_member_line(ms[n - 1])
    }
}

/// A project's rendered progress: the percentage, or `N/A`.
pub open spec fn spec_progress_text(p: Option<u32>) -> Seq<char> {
    match p {
        Option::Some(x) => crate::text::dec_str(x as nat),
        Option::None => "N/A"@,
    }
}

/// One project bullet.
pub open spec fn spec_project_line(p: ProjectV) -> Seq<char> {
    "\u{2022} **"@ + p.name + "** - "@ + spec_progress_text(p.progress) + "% complete\n"@
}

/// The bullets of the active projects among the first `n`, in order.
pub open spec fn spec_active_lines(ps: Seq<ProjectV>, n: int) -> Seq<char>
    decreases n,
{
    if n <= 0 {
        Seq::empty()
    } else {
        spec_active_lines(ps, n - 1) + (if ps[n - 1].status == "active"@ {
            spec_project_line(ps[n - 1])
        } else {
            Seq::empty()
        })
    }
}

/// Whether any project is active.
pub open spec fn spec_any_active(ps: Seq<ProjectV>) -> bool {
    exists|j: int| 0 <= j < ps.len() && (#[trigger] ps[j].status) == "active"@
}

/// The metrics section: present only when a metrics body is, each figure
/// falling back to `N/A`.
pub open spec fn spec_metrics_section(o: Option<Val>) -> Seq<char> {
    match o {
        Option::None => Seq::empty(),
        Option::Some(v) => "\n## Team Metrics\n\u{2022} Tasks completed this week: "@
            + crate::value::spec_str_field_or(v, "tasks_completed"@, "N/A"@)
            + "\n\u{2022} Average completion time: "@ + crate::value::spec_str_field_or(
            v,
            "avg_completion_time"@,
            "N/A"@,
        ) + "\n\u{2022} Team velocity: "@ + crate::value::spec_str_field_or(v, "velocity"@, "N/A"@)
            + "\n"@,
    }
}

/// The rendered team overview: members, active projects (or a note that none
/// is), the optional metrics section, and the retrieval timestamp the runtime
/// hands in.
pub open spec fn spec_render_team_overview(
    team_name: Seq<char>,
    ms: Seq<TeamMemberV>,
    ps: Seq<ProjectV>,
    metrics: Option<Val>,
    retrieved_at: Seq<char>,
) -> Seq<char> {
    "# Team Overview: "@ + team_name + "\n\n## Team Members\n"@ + spec_member_lines(
        ms,
        ms.len() as int,
    ) + "\n## Active Projects\n"@ + (if spec_any_active(ps) {
        spec_active_lines(ps, ps.len() as int)
    } else {
        "No active projects\n"@
    }) + spec_metrics_section(metrics) + "\n*Retrieved at: "@ + retrieved_at + "*"@
}

/// One member bullet.
fn render_member_line(m: &TeamMember) -> (r: String)
    ensures
        r@ == spec_member_line(m@),
{
    let mut s = String::from_str("\u{2022} ");
    let available = match m.available {
        Some(b) => b,
        None => true,
    };
    if available {
        s.append("\u{1f7e2}");
    } else {
        s.append("\u{1f534}");
    }
    s.append(" **");
    s.append(m.name.as_str());
    s.append("** - ");
    s.append(m.role.as_str());
    s.append("\n");
    proof {
        assert(s@ =~= spec_member_line(m@));
    }
    s
}

/// One project bullet.
fn render_project_line(p: &Project) -> (r: String)
    ensures
        r@ == spec_project_line(p@),
{
    let mut s = String::from_str("\u{2022} **");
    s.append(p.name.as_str());
    s.append("** - ");
    match p.progress {
        Some(x) => {
            let d = crate::text::u64_to_dec(x as u64);
            s.append(d.as_str());
        },
        None => s.append("N/A"),
    }
    s.append("% complete\n");
    proof {
        assert(s@ =~= spec_project_line(p@));
    }
    s
}

/// Whether any project is active.
fn any_active(projects: &Vec<Project>) -> (r: bool)
    ensures
        r == spec_any_active(projects_view(projects@)),
{
    let ghost pv = projects_view(projects@);
    let mut i: usize = 0;
    while i < projects.len()
        invariant
            0 <= i <= projects.len(),
            pv == projects_view(projects@),
            forall|j: int| 0 <= j < i ==> (#[trigger] pv[j].status) != "active"@,
        decreases projects.len() - i,
    {
        if crate::value::str_eq(projects[i].status.as_str(), "active") {
            assert(pv[i as int].status == "active"@);
            return true;
        }
        i = i + 1;
    }
    false
}

/// The rendered team overview.
#[verifier::loop_isolation(false)]
pub fn render_team_overview(
    team: &TeamRecord,
    members: &Vec<TeamMember>,
    projects: &Vec<Project>,
    metrics: Option<&ArgValue>,
    retrieved_at: &str,
) -> (r: String)
    ensures
        r@ == spec_render_team_overview(
            team.name@,
            members_view(members@),
            projects_view(projects@),
            match metrics {
                Option::Some(v) => Option::Some(v@),
                Option::None => Option::None,
            },
            retrieved_at@,
        ),
{
    let ghost mv = members_view(members@);
    let ghost pv = projects_view(projects@);
    let mut s = String::from_str("# Team Overview: ");
    s.append(team.name.as_str());
    s.append("\n\n## Team Members\n");
    let ghost members_base = s@;
    let mut i: usize = 0;
    while i < members.len()
        invariant
            0 <= i <= members.len(),
            s@ == members_base + spec_member_lines(mv, i as int),
        decreases members.len() - i,
    {
        let line = render_member_line(&members[i]);
        s.append(line.as_str());
        proof {
            assert(s@ =~= members_base + spec_member_lines(mv, i as int + 1));
        }
        i = i + 1;
    }
    s.append("\n## Active Projects\n");
    let ghost projects_base = s@;
    if any_active(projects) {
        let mut k: usize = 0;
        while k < projects.len()
            invariant
                0 <= k <= projects.len(),
                s@ == projects_base + spec_active_lines(pv, k as int),
            decreases projects.len() - k,
        {
            if crate::value::str_eq(projects[k].status.as_str(), "active") {
                let line = render_project_line(&projects[k]);
                s.append(line.as_str());
            }
            proof {
                assert(s@ =~= projects_base + spec_active_lines(pv, k as int + 1));
            }
            k = k + 1;
        }
    } else {
        s.append("No active projects\n");
    }
    match metrics {
        Some(v) => {
            s.append("\n## Team Metrics\n\u{2022} Tasks completed this week: ");
            s.append(crate::value::str_field_or(v, "tasks_completed", "N/A"));
            s.append("\n\u{2022} Average completion time: ");
            s.append(crate::value::str_field_or(v, "avg_completion_time", "N/A"));
            s.append("\n\u{2022} Team velocity: ");
            s.append(crate::value::str_field_or(v, "velocity", "N/A"));
            s.append("\n");
        },
        None => {},
    }
    s.append("\n*Retrieved at: ");
    s.append(retrieved_at);
    s.append("*");
    proof {
        assert(s@ =~= spec_render_team_overview(
            team.name@,
            mv,
            pv,
            match metrics {
                Option::Some(v) => Option::Some(v@),
                Option::None => Option::None,
            },
            retrieved_at@,
        ));
    }
    s
}

/// The text a `get_team_overview` call renders from the joined bodies of its
/// three required responses, the optional metrics body, and the retrieval
/// timestamp; a handler failure when a required body is malformed.
pub open spec fn spec_render_team_response(
    team_body: Val,
    members_body: Val,
    projects_body: Val,
    metrics: Option<Val>,
    retrieved_at: Seq<char>,
) -> Result<Seq<char>, ToolErrorV> {
    match spec_parse_team(team_body) {
        Option::None => Result::Err(ToolErrorV::Handler("malformed team record"@)),
        Option::Some(name) => match spec_parse_members(members_body) {
            Option::None => Result::Err(ToolErrorV::Handler("malformed member list"@)),
            Option::Some(ms) => match spec_parse_projects(projects_body) {
                Option::None => Result::Err(ToolErrorV::Handler("malformed project list"@)),
                Option::Some(ps) => Result::Ok(
                    spec_render_team_overview(name, ms, ps, metrics, retrieved_at),
                ),
            },
        },
    }
}

/// Render the joined responses of a `get_team_overview` call, whatever the
/// API returned: exactly `spec_render_team_response` of the bodies' models.
/// A failed optional metrics request is passed as `None` and only leaves the
/// metrics section out.
pub fn render_team_response(
    team_body: &ArgValue,
    members_body: &ArgValue,
    projects_body: &ArgValue,
    metrics: Option<&ArgValue>,
    retrieved_at: &str,
) -> (r: Result<String, ToolError>)
    ensures
        ({
            let expected = spec_render_team_response(
                team_body@,
                members_body@,
                projects_body@,
                match metrics {
                    Option::Some(v) => Option::Some(v@),
                    Option::None => Option::None,
                },
                retrieved_at@,
            );
            match r {
                Ok(s) => expected == Result::<Seq<char>, ToolErrorV>::Ok(s@),
                Err(e) => expected == Result::<Seq<char>, ToolErrorV>::Err(e@),
            }
        }),
{
    let team = match parse_team(team_body) {
        Ok(t) => t,
        Err(e) => {
            return Err(e);
        },
    };
    let members = match parse_members(members_body) {
        Ok(ms) => ms,
        Err(e) => {
            return Err(e);
        },
    };
    let projects = match parse_projects(projects_body) {
        Ok(ps) => ps,
        Err(e) => {
            return Err(e);
        },
    };
    Ok(render_team_overview(&team, &members, &projects, metrics, retrieved_at))
}

} // verus!
