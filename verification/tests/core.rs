use tooldispatch::decode::decode_args;
use tooldispatch::decode::DecodeCause;
use tooldispatch::dispatch::dispatch;
use tooldispatch::dispatch::kind_label;
use tooldispatch::dispatch::resolve_token;
use tooldispatch::dispatch::respond;
use tooldispatch::dispatch::ContentBlock;
use tooldispatch::dispatch::ErrorKind;
use tooldispatch::dispatch::ToolCallRequest;
use tooldispatch::dispatch::ToolError;
use tooldispatch::dispatch::ToolHandler;
use tooldispatch::dispatch::ToolResponse;
use tooldispatch::http::HttpResponse;
use tooldispatch::join::join_required;
use tooldispatch::join::optional_part;
use tooldispatch::registry::Registry;
use tooldispatch::registry::RegistryError;
use tooldispatch::schema::ParamDef;
use tooldispatch::schema::ParamType;
use tooldispatch::schema::ToolSchema;
use tooldispatch::ArgValue;

fn echo_schema() -> ToolSchema {
    ToolSchema {
        name: "echo".to_string(),
        description: "Echoes its message back.".to_string(),
        params: vec![ParamDef {
            name: "msg".to_string(),
            ptype: ParamType::Text,
            allowed: None,
            default: None,
        }],
        required: vec!["msg".to_string()],
    }
}

struct EchoHandler;

impl ToolHandler for EchoHandler {
    fn handle(&self, args: Vec<(String, ArgValue)>) -> Result<Vec<ContentBlock>, ToolError> {
        for (k, v) in &args {
            if k == "msg" {
                if let ArgValue::Str(s) = v {
                    return Ok(vec![ContentBlock::Text(format!("got: {}", s))]);
                }
            }
        }
        Err(ToolError::Handler("msg missing".to_string()))
    }
}

fn echo_registry() -> Registry<EchoHandler> {
    let mut reg = Registry::new();
    reg.register(echo_schema(), EchoHandler).unwrap();
    reg
}

#[test]
fn invalid_schema_fails_registration() {
    let schema = ToolSchema {
        name: "broken".to_string(),
        description: "Requires a parameter it never declares.".to_string(),
        params: vec![],
        required: vec!["ghostly".to_string()],
    };
    let mut reg: Registry<u32> = Registry::new();
    assert_eq!(reg.register(schema, 1), Err(RegistryError::InvalidSchema));
    assert_eq!(reg.list().len(), 0);
}

#[test]
fn duplicate_name_fails_and_first_stays_active() {
    let mut reg: Registry<u32> = Registry::new();
    reg.register(echo_schema(), 1).unwrap();
    let mut second = echo_schema();
    second.description = "An impostor.".to_string();
    assert_eq!(reg.register(second, 2), Err(RegistryError::DuplicateTool));
    assert_eq!(reg.list().len(), 1);
    let entry = reg.lookup("echo").unwrap();
    assert_eq!(entry.schema.description, "Echoes its message back.");
    assert_eq!(entry.handler, 1);
}

#[test]
fn lookup_misses_unregistered_name() {
    let reg = echo_registry();
    assert!(reg.lookup("nope").is_none());
}

#[test]
fn list_preserves_registration_order() {
    let mut reg: Registry<u32> = Registry::new();
    reg.register(echo_schema(), 1).unwrap();
    let mut other = echo_schema();
    other.name = "reverb".to_string();
    reg.register(other, 2).unwrap();
    let names: Vec<&str> = reg.list().iter().map(|s| s.name.as_str()).collect();
    assert_eq!(names, vec!["echo", "reverb"]);
}

#[test]
fn decode_missing_required_cites_field() {
    let err = decode_args(&echo_schema(), vec![]).unwrap_err();
    assert_eq!(err.field, "msg");
    assert_eq!(err.cause, DecodeCause::MissingRequired);
}

#[test]
fn decode_missing_required_ignores_other_fields() {
    let args = vec![
        ("extra".to_string(), ArgValue::Str("present".to_string())),
        ("more".to_string(), ArgValue::Int(3)),
    ];
    let err = decode_args(&echo_schema(), args).unwrap_err();
    assert_eq!(err.field, "msg");
    assert_eq!(err.cause, DecodeCause::MissingRequired);
}

#[test]
fn decode_type_mismatch_cites_field() {
    let args = vec![("msg".to_string(), ArgValue::Int(3))];
    let err = decode_args(&echo_schema(), args).unwrap_err();
    assert_eq!(err.field, "msg");
    assert_eq!(err.cause, DecodeCause::TypeMismatch);
}

#[test]
fn decode_passes_valid_arguments_through() {
    let args = vec![("msg".to_string(), ArgValue::Str("hi".to_string()))];
    let out = decode_args(&echo_schema(), args).unwrap();
    assert_eq!(out, vec![("msg".to_string(), ArgValue::Str("hi".to_string()))]);
}

#[test]
fn dispatch_missing_required_field() {
    let reg = echo_registry();
    let req = ToolCallRequest { tool_name: "echo".to_string(), arguments: vec![] };
    let resp = dispatch(&reg, req);
    assert_eq!(
        resp,
        ToolResponse::Failure {
            kind: ErrorKind::ArgumentDecode,
            message: "missing required field: msg".to_string(),
        }
    );
}

#[test]
fn dispatch_echo_success() {
    let reg = echo_registry();
    let req = ToolCallRequest {
        tool_name: "echo".to_string(),
        arguments: vec![("msg".to_string(), ArgValue::Str("hi".to_string()))],
    };
    let resp = dispatch(&reg, req);
    assert_eq!(
        resp,
        ToolResponse::Success(vec![ContentBlock::Text("got: hi".to_string())])
    );
}

#[test]
fn dispatch_unknown_tool() {
    let reg = echo_registry();
    let req = ToolCallRequest { tool_name: "nope".to_string(), arguments: vec![] };
    let resp = dispatch(&reg, req);
    assert_eq!(
        resp,
        ToolResponse::Failure {
            kind: ErrorKind::ToolNotFound,
            message: "unknown tool: nope".to_string(),
        }
    );
}

#[test]
fn dispatch_is_idempotent_for_pure_handlers() {
    let reg = echo_registry();
    let first = dispatch(
        &reg,
        ToolCallRequest {
            tool_name: "echo".to_string(),
            arguments: vec![("msg".to_string(), ArgValue::Str("again".to_string()))],
        },
    );
    let second = dispatch(
        &reg,
        ToolCallRequest {
            tool_name: "echo".to_string(),
            arguments: vec![("msg".to_string(), ArgValue::Str("again".to_string()))],
        },
    );
    assert_eq!(first, second);
}

#[test]
fn join_fails_with_first_failure() {
    let results = vec![
        Ok(HttpResponse { status: 200, body: ArgValue::Null }),
        Err(ToolError::Network("boom".to_string())),
        Err(ToolError::Handler("later".to_string())),
    ];
    assert_eq!(join_required(results), Err(ToolError::Network("boom".to_string())));
}

#[test]
fn join_returns_all_responses_in_order() {
    let results = vec![
        Ok(HttpResponse { status: 200, body: ArgValue::Int(1) }),
        Ok(HttpResponse { status: 201, body: ArgValue::Int(2) }),
    ];
    let out = join_required(results).unwrap();
    assert_eq!(
        out,
        vec![
            HttpResponse { status: 200, body: ArgValue::Int(1) },
            HttpResponse { status: 201, body: ArgValue::Int(2) },
        ]
    );
}

#[test]
fn optional_part_swallows_failure() {
    assert_eq!(optional_part(Some(Err(ToolError::Network("down".to_string())))), None);
    assert_eq!(optional_part(None), None);
    let got = optional_part(Some(Ok(HttpResponse { status: 200, body: ArgValue::Null })));
    assert_eq!(got, Some(HttpResponse { status: 200, body: ArgValue::Null }));
}

#[test]
fn respond_maps_each_failure_kind() {
    let net = respond(Err(ToolError::Network("down".to_string())));
    assert_eq!(
        net,
        ToolResponse::Failure { kind: ErrorKind::Network, message: "down".to_string() }
    );
    let cred = respond(Err(ToolError::Credential("no token".to_string())));
    assert_eq!(
        cred,
        ToolResponse::Failure { kind: ErrorKind::Credential, message: "no token".to_string() }
    );
    let hand = respond(Err(ToolError::Handler("oops".to_string())));
    assert_eq!(
        hand,
        ToolResponse::Failure { kind: ErrorKind::Handler, message: "oops".to_string() }
    );
    let ok = respond(Ok(vec![ContentBlock::Text("fine".to_string())]));
    assert_eq!(ok, ToolResponse::Success(vec![ContentBlock::Text("fine".to_string())]));
}

#[test]
fn resolve_token_maps_absence_to_credential_error() {
    assert_eq!(
        resolve_token(None, "token not found"),
        Err(ToolError::Credential("token not found".to_string()))
    );
    assert_eq!(resolve_token(Some("secret".to_string()), "unused"), Ok("secret".to_string()));
}

#[test]
fn kind_labels_are_stable() {
    assert_eq!(kind_label(ErrorKind::ToolNotFound), "tool_not_found");
    assert_eq!(kind_label(ErrorKind::ArgumentDecode), "argument_decode");
    assert_eq!(kind_label(ErrorKind::Credential), "credential");
    assert_eq!(kind_label(ErrorKind::Network), "network");
    assert_eq!(kind_label(ErrorKind::Handler), "handler");
}
