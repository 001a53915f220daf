use tooldispatch::decode::decode_args;
use tooldispatch::decode::DecodeCause;
use tooldispatch::dispatch::ToolError;
use tooldispatch::http::bearer_header;
use tooldispatch::http::HttpMethod;
use tooldispatch::tasks::manage_task_schema;
use tooldispatch::tasks::parse_task_args;
use tooldispatch::tasks::parse_task_record;
use tooldispatch::tasks::parse_team_args;
use tooldispatch::tasks::plan_task_request;
use tooldispatch::tasks::plan_team_requests;
use tooldispatch::tasks::render_task_list;
use tooldispatch::tasks::render_task_response;
use tooldispatch::tasks::render_team_response;
use tooldispatch::tasks::task_tool_registry;
use tooldispatch::tasks::team_overview_schema;
use tooldispatch::tasks::TaskArgs;
use tooldispatch::tasks::TaskOp;
use tooldispatch::tasks::TaskRecord;
use tooldispatch::ArgValue;

fn str_val(s: &str) -> ArgValue {
    ArgValue::Str(s.to_string())
}

fn task_body(id: &str, title: &str, status: &str, priority: &str) -> ArgValue {
    ArgValue::Obj(vec![
        ("id".to_string(), str_val(id)),
        ("title".to_string(), str_val(title)),
        ("status".to_string(), str_val(status)),
        ("priority".to_string(), str_val(priority)),
    ])
}

#[test]
fn manage_task_schema_shape() {
    let schema = manage_task_schema();
    assert_eq!(schema.name, "manage_task");
    assert_eq!(schema.required, vec!["operation".to_string()]);
    let names: Vec<&str> = schema.params.iter().map(|p| p.name.as_str()).collect();
    assert_eq!(
        names,
        vec!["operation", "task_id", "title", "description", "status", "priority"]
    );
    let op = &schema.params[0];
    assert_eq!(
        op.allowed,
        Some(vec![
            "create".to_string(),
            "update".to_string(),
            "get".to_string(),
            "list".to_string(),
        ])
    );
}

#[test]
fn decode_rejects_operation_outside_enum() {
    let args = vec![("operation".to_string(), str_val("destroy"))];
    let err = decode_args(&manage_task_schema(), args).unwrap_err();
    assert_eq!(err.field, "operation");
    assert_eq!(err.cause, DecodeCause::OutOfEnum);
}

#[test]
fn decode_rejects_status_outside_enum() {
    let args = vec![
        ("operation".to_string(), str_val("list")),
        ("status".to_string(), str_val("paused")),
    ];
    let err = decode_args(&manage_task_schema(), args).unwrap_err();
    assert_eq!(err.field, "status");
    assert_eq!(err.cause, DecodeCause::OutOfEnum);
}

#[test]
fn parse_task_args_reads_operation() {
    let args = vec![
        ("operation".to_string(), str_val("create")),
        ("title".to_string(), str_val("Write the report")),
    ];
    let parsed = parse_task_args(&args).unwrap();
    assert_eq!(parsed.operation, TaskOp::Create);
    assert_eq!(parsed.title, Some("Write the report".to_string()));
    assert_eq!(parsed.task_id, None);
}

#[test]
fn plan_create_posts_full_payload_with_defaults() {
    let a = TaskArgs {
        operation: TaskOp::Create,
        task_id: None,
        title: Some("Write the report".to_string()),
        description: None,
        status: None,
        priority: None,
    };
    let p = plan_task_request(&a, "https://api.example.com", "tok").unwrap();
    assert_eq!(p.method, HttpMethod::Post);
    assert_eq!(p.url, "https://api.example.com/tasks");
    assert_eq!(p.bearer, "tok");
    assert!(p.query.is_empty());
    assert_eq!(
        p.body,
        Some(ArgValue::Obj(vec![
            ("title".to_string(), str_val("Write the report")),
            ("description".to_string(), str_val("")),
            ("status".to_string(), str_val("todo")),
            ("priority".to_string(), str_val("medium")),
        ]))
    );
}

#[test]
fn plan_create_without_title_fails() {
    let a = TaskArgs {
        operation: TaskOp::Create,
        task_id: None,
        title: None,
        description: None,
        status: None,
        priority: None,
    };
    assert_eq!(
        plan_task_request(&a, "https://api.example.com", "tok"),
        Err(ToolError::Handler("title is required for create operations".to_string()))
    );
}

#[test]
fn plan_update_patches_only_given_fields() {
    let a = TaskArgs {
        operation: TaskOp::Update,
        task_id: Some("42".to_string()),
        title: None,
        description: None,
        status: Some("done".to_string()),
        priority: None,
    };
    let p = plan_task_request(&a, "https://api.example.com", "tok").unwrap();
    assert_eq!(p.method, HttpMethod::Patch);
    assert_eq!(p.url, "https://api.example.com/tasks/42");
    assert_eq!(
        p.body,
        Some(ArgValue::Obj(vec![("status".to_string(), str_val("done"))]))
    );
}

#[test]
fn plan_get_without_task_id_fails() {
    let a = TaskArgs {
        operation: TaskOp::Get,
        task_id: None,
        title: None,
        description: None,
        status: None,
        priority: None,
    };
    assert_eq!(
        plan_task_request(&a, "https://api.example.com", "tok"),
        Err(ToolError::Handler("task_id is required for get operations".to_string()))
    );
}

#[test]
fn plan_list_carries_status_filter_as_query() {
    let a = TaskArgs {
        operation: TaskOp::List,
        task_id: None,
        title: None,
        description: None,
        status: Some("todo".to_string()),
        priority: None,
    };
    let p = plan_task_request(&a, "https://api.example.com", "tok").unwrap();
    assert_eq!(p.method, HttpMethod::Get);
    assert_eq!(p.url, "https://api.example.com/tasks");
    assert_eq!(p.query, vec![("status".to_string(), "todo".to_string())]);
    assert_eq!(p.body, None);
}

#[test]
fn render_create_confirmation_exactly() {
    let body = task_body("42", "Write the report", "todo", "medium");
    let text = render_task_response(TaskOp::Create, &body).unwrap();
    assert_eq!(
        text,
        "\u{2705} Task created successfully!\n\n**Task ID**: 42\n**Title**: Write the report\n**Status**: todo\n**Priority**: medium"
    );
}

#[test]
fn render_details_writes_out_absent_fields() {
    let body = task_body("42", "Write the report", "todo", "medium");
    let text = render_task_response(TaskOp::Get, &body).unwrap();
    assert_eq!(
        text,
        "**Task Details**\n\n**ID**: 42\n**Title**: Write the report\n**Description**: No description\n**Status**: todo\n**Priority**: medium\n**Created**: Unknown"
    );
}

#[test]
fn render_malformed_record_fails() {
    let body = ArgValue::Obj(vec![("id".to_string(), str_val("42"))]);
    assert_eq!(
        render_task_response(TaskOp::Get, &body),
        Err(ToolError::Handler("malformed task record".to_string()))
    );
    assert!(parse_task_record(&ArgValue::Null).is_err());
}

#[test]
fn render_empty_task_list() {
    let body = ArgValue::Arr(vec![]);
    assert_eq!(render_task_response(TaskOp::List, &body).unwrap(), "No tasks found.");
}

#[test]
fn render_task_list_caps_at_ten_and_counts_the_rest() {
    let mut tasks = Vec::new();
    for i in 0..12 {
        tasks.push(TaskRecord {
            id: format!("{}", i),
            title: format!("Task {}", i),
            description: None,
            status: "todo".to_string(),
            priority: "low".to_string(),
            created_at: None,
        });
    }
    let text = render_task_list(&tasks);
    assert!(text.starts_with("**Task List**\n\n"));
    assert_eq!(text.matches('\u{2022}').count(), 10);
    assert!(text.ends_with("\n*Showing first 10 of 12 tasks*"));
}

#[test]
fn team_args_default_and_flag() {
    let parsed = parse_team_args(&vec![]);
    assert_eq!(parsed.team_id, "default");
    assert!(parsed.include_metrics);
    let parsed = parse_team_args(&vec![
        ("team_id".to_string(), str_val("alpha")),
        ("include_metrics".to_string(), ArgValue::Bool(false)),
    ]);
    assert_eq!(parsed.team_id, "alpha");
    assert!(!parsed.include_metrics);
}

#[test]
fn team_plan_has_three_required_and_optional_metrics() {
    let a = parse_team_args(&vec![("team_id".to_string(), str_val("alpha"))]);
    let plan = plan_team_requests(&a, "https://api.example.com", "tok");
    let urls: Vec<&str> = plan.required.iter().map(|r| r.url.as_str()).collect();
    assert_eq!(
        urls,
        vec![
            "https://api.example.com/teams/alpha",
            "https://api.example.com/teams/alpha/members",
            "https://api.example.com/teams/alpha/projects",
        ]
    );
    let metrics = plan.optional.unwrap();
    assert_eq!(metrics.url, "https://api.example.com/teams/alpha/metrics");
    assert_eq!(metrics.bearer, "tok");

    let quiet = parse_team_args(&vec![("include_metrics".to_string(), ArgValue::Bool(false))]);
    let plan = plan_team_requests(&quiet, "https://api.example.com", "tok");
    assert!(plan.optional.is_none());
}

#[test]
fn team_overview_renders_without_failed_optional_metrics() {
    let team = ArgValue::Obj(vec![("name".to_string(), str_val("Alpha"))]);
    let members = ArgValue::Arr(vec![
        ArgValue::Obj(vec![
            ("name".to_string(), str_val("Ada")),
            ("role".to_string(), str_val("Lead")),
        ]),
        ArgValue::Obj(vec![
            ("name".to_string(), str_val("Ben")),
            ("role".to_string(), str_val("Dev")),
            ("available".to_string(), ArgValue::Bool(false)),
        ]),
    ]);
    let projects = ArgValue::Arr(vec![
        ArgValue::Obj(vec![
            ("name".to_string(), str_val("Apollo")),
            ("status".to_string(), str_val("active")),
            ("progress".to_string(), ArgValue::Int(75)),
        ]),
        ArgValue::Obj(vec![
            ("name".to_string(), str_val("Mothball")),
            ("status".to_string(), str_val("archived")),
        ]),
    ]);
    let text =
        render_team_response(&team, &members, &projects, None, "2024-01-01 00:00 UTC").unwrap();
    assert_eq!(
        text,
        "# Team Overview: Alpha\n\n## Team Members\n\u{2022} \u{1f7e2} **Ada** - Lead\n\u{2022} \u{1f534} **Ben** - Dev\n\n## Active Projects\n\u{2022} **Apollo** - 75% complete\n\n*Retrieved at: 2024-01-01 00:00 UTC*"
    );
    assert!(!text.contains("## Team Metrics"));
}

#[test]
fn team_overview_includes_metrics_section_when_present() {
    let team = ArgValue::Obj(vec![("name".to_string(), str_val("Alpha"))]);
    let members = ArgValue::Arr(vec![]);
    let projects = ArgValue::Arr(vec![]);
    let metrics = ArgValue::Obj(vec![("tasks_completed".to_string(), str_val("12"))]);
    let text = render_team_response(
        &team,
        &members,
        &projects,
        Some(&metrics),
        "2024-01-01 00:00 UTC",
    )
    .unwrap();
    assert!(text.contains("## Team Metrics"));
    assert!(text.contains("\u{2022} Tasks completed this week: 12\n"));
    assert!(text.contains("\u{2022} Average completion time: N/A\n"));
    assert!(text.contains("## Active Projects\nNo active projects\n"));
}

#[test]
fn team_overview_fails_on_malformed_required_body() {
    let team = ArgValue::Obj(vec![("name".to_string(), str_val("Alpha"))]);
    let projects = ArgValue::Arr(vec![]);
    assert_eq!(
        render_team_response(&team, &ArgValue::Null, &projects, None, "now"),
        Err(ToolError::Handler("malformed member list".to_string()))
    );
}

#[test]
fn task_registry_serves_both_tools() {
    let reg = task_tool_registry().unwrap();
    let names: Vec<&str> = reg.list().iter().map(|s| s.name.as_str()).collect();
    assert_eq!(names, vec!["manage_task", "get_team_overview"]);
    assert_eq!(team_overview_schema().required.len(), 0);
}

#[test]
fn bearer_header_prefixes_token() {
    assert_eq!(bearer_header("abc"), "Bearer abc");
}

#[test]
fn render_task_list_of_exactly_ten_has_no_note() {
    let mut tasks = Vec::new();
    for i in 0..10 {
        tasks.push(TaskRecord {
            id: format!("{}", i),
            title: format!("Task {}", i),
            description: None,
            status: "todo".to_string(),
            priority: "low".to_string(),
            created_at: None,
        });
    }
    let text = render_task_list(&tasks);
    assert_eq!(text.matches('\u{2022}').count(), 10);
    assert!(!text.contains("Showing first"));
}

#[test]
fn null_optional_fields_count_as_absent() {
    let body = ArgValue::Obj(vec![
        ("id".to_string(), str_val("42")),
        ("title".to_string(), str_val("T")),
        ("status".to_string(), str_val("todo")),
        ("priority".to_string(), str_val("low")),
        ("description".to_string(), ArgValue::Null),
    ]);
    let record = parse_task_record(&body).unwrap();
    assert_eq!(record.description, None);
}

#[test]
fn wrong_typed_optional_field_is_malformed() {
    let body = ArgValue::Obj(vec![
        ("id".to_string(), str_val("42")),
        ("title".to_string(), str_val("T")),
        ("status".to_string(), str_val("todo")),
        ("priority".to_string(), str_val("low")),
        ("description".to_string(), ArgValue::Int(3)),
    ]);
    assert_eq!(
        parse_task_record(&body),
        Err(ToolError::Handler("malformed task record".to_string()))
    );
}
