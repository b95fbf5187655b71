use wp_editer::debug::{
    debug_knowledge_query, debug_parse, debug_transform, DebugKnowledgeQueryRequest, DebugParseRequest,
    DebugTransformRequest, RecordResponse,
};
use wp_editer::error::AppError;
use wp_editer::record::{Field, FieldValue, Record};
use wp_editer::render::{describe, render, to_fields, Encoding};
use wp_editer::session::{respond, Session};

fn field(name: &str, value: FieldValue) -> Field {
    Field { name: name.to_string(), value }
}

fn status_engine(rules: &str, logs: &str) -> Result<Record, String> {
    if rules != "status" {
        return Err(format!("unknown rule: {}", rules));
    }
    let code = logs.split_whitespace().next().unwrap_or("");
    match code.parse::<i64>() {
        Ok(n) => Ok(Record::new(vec![field("status", FieldValue::Int(n))])),
        Err(_) => Err("no status code".to_string()),
    }
}

fn rename_engine(oml: &str, rec: Record) -> Result<Record, String> {
    let mut parts = oml.split("->");
    let from = parts.next().unwrap_or("").trim().to_string();
    let to = parts.next().unwrap_or("").trim().to_string();
    if to.is_empty() {
        return Err("bad oml".to_string());
    }
    let mut found = false;
    let fields = rec
        .fields
        .into_iter()
        .map(|f| {
            if f.name == from {
                found = true;
                Field { name: to.clone(), value: f.value }
            } else {
                f
            }
        })
        .collect();
    if found {
        Ok(Record::new(fields))
    } else {
        Err(format!("field not found: {}", from))
    }
}

fn names(resp: &RecordResponse) -> Vec<String> {
    resp.fields.iter().map(|p| p.name.clone()).collect()
}

fn parse_req(rules: &str, logs: &str) -> DebugParseRequest {
    DebugParseRequest { connection_id: None, rules: rules.to_string(), logs: logs.to_string() }
}

fn transform_req(oml: &str) -> DebugTransformRequest {
    DebugTransformRequest { connection_id: None, oml: oml.to_string() }
}

fn current_names(s: &Session) -> Option<Vec<String>> {
    s.get_current().map(|r| r.fields.iter().map(|f| f.name.clone()).collect())
}

#[test]
fn field_list_follows_declaration_order() {
    let rec = Record::new(vec![
        field("status", FieldValue::Int(200)),
        field("msg", FieldValue::Chars("OK".to_string())),
        field("ok", FieldValue::Bool(true)),
    ]);
    let fs = to_fields(&rec);
    assert_eq!(fs.len(), 3);
    assert_eq!(fs[0].name, "status");
    assert_eq!(fs[0].field_type, "int");
    assert_eq!(fs[0].value, "200");
    assert_eq!(fs[1].name, "msg");
    assert_eq!(fs[1].field_type, "chars");
    assert_eq!(fs[1].value, "OK");
    assert_eq!(fs[2].name, "ok");
    assert_eq!(fs[2].field_type, "bool");
    assert_eq!(fs[2].value, "true");
}

#[test]
fn negative_and_extreme_integers_render_in_decimal() {
    assert_eq!(describe(&field("d", FieldValue::Int(-42))).value, "-42");
    assert_eq!(describe(&field("d", FieldValue::Int(0))).value, "0");
    assert_eq!(describe(&field("d", FieldValue::Int(i64::MIN))).value, "-9223372036854775808");
    assert_eq!(describe(&field("d", FieldValue::Int(i64::MAX))).value, "9223372036854775807");
    assert_eq!(describe(&field("b", FieldValue::Bool(false))).value, "false");
}

#[test]
fn json_rendering_is_canonical() {
    let rec = Record::new(vec![
        field("status", FieldValue::Int(200)),
        field("msg", FieldValue::Chars("OK".to_string())),
        field("ok", FieldValue::Bool(true)),
    ]);
    assert_eq!(render(&rec, Encoding::Json), "{\"status\":200,\"msg\":\"OK\",\"ok\":true}");
    assert_eq!(render(&Record::new(vec![]), Encoding::Json), "{}");
}

#[test]
fn rendering_is_repeatable() {
    let rec = Record::new(vec![field("a", FieldValue::Int(7)), field("b", FieldValue::Chars("x y".to_string()))]);
    let first = respond(&rec);
    let second = respond(&rec);
    assert_eq!(first.format_json, second.format_json);
    assert_eq!(names(&first), names(&second));
    let v1: Vec<String> = first.fields.iter().map(|p| p.value.clone()).collect();
    let v2: Vec<String> = second.fields.iter().map(|p| p.value.clone()).collect();
    assert_eq!(v1, v2);
}

#[test]
fn field_count_and_values_round_trip_through_json() {
    let rec = Record::new(vec![
        field("status", FieldValue::Int(-3)),
        field("msg", FieldValue::Chars("a \"quoted\" word".to_string())),
        field("ok", FieldValue::Bool(false)),
    ]);
    let resp = respond(&rec);
    assert_eq!(resp.fields.len(), rec.field_count());
    let parsed: serde_json::Value = serde_json::from_str(&resp.format_json).unwrap();
    let obj = parsed.as_object().unwrap();
    assert_eq!(obj.len(), 3);
    for p in &resp.fields {
        let v = &obj[&p.name];
        let text = match v {
            serde_json::Value::String(s) => s.clone(),
            other => other.to_string(),
        };
        assert_eq!(text, p.value);
    }
}

#[test]
fn transform_on_fresh_session_is_refused() {
    let mut s = Session::new();
    let r = debug_transform(&mut s, &transform_req("status -> http_status"), rename_engine);
    assert!(matches!(r, Err(AppError::NoParseResult)));
    assert!(!s.has_record());
    assert!(s.get_current().is_none());
}

#[test]
fn parse_then_transform_renames_field() {
    let mut s = Session::new();
    let parsed = debug_parse(&mut s, &parse_req("status", "200 OK"), status_engine).unwrap();
    assert_eq!(names(&parsed), vec!["status".to_string()]);
    assert_eq!(parsed.fields[0].value, "200");
    assert!(parsed.format_json.contains("\"status\":200"));
    let transformed = debug_transform(&mut s, &transform_req("status -> http_status"), rename_engine).unwrap();
    assert_eq!(names(&transformed), vec!["http_status".to_string()]);
    assert_eq!(transformed.format_json, "{\"http_status\":200}");
    assert_eq!(current_names(&s), Some(vec!["http_status".to_string()]));
}

#[test]
fn failed_parse_keeps_previous_record() {
    let mut s = Session::new();
    let r = debug_parse(&mut s, &parse_req("status", "OK only"), status_engine);
    assert!(matches!(r, Err(AppError::ParseFailed(ref d)) if d == "no status code"));
    assert!(!s.has_record());
    debug_parse(&mut s, &parse_req("status", "404 Not Found"), status_engine).unwrap();
    let r = debug_parse(&mut s, &parse_req("level", "404"), status_engine);
    assert!(matches!(r, Err(AppError::ParseFailed(ref d)) if d == "unknown rule: level"));
    let kept = s.get_current().unwrap();
    assert_eq!(render(&kept, Encoding::Json), "{\"status\":404}");
}

#[test]
fn failed_transform_keeps_record_for_retry() {
    let mut s = Session::new();
    debug_parse(&mut s, &parse_req("status", "500 error"), status_engine).unwrap();
    let r = debug_transform(&mut s, &transform_req("missing -> other"), rename_engine);
    assert!(matches!(r, Err(AppError::TransformFailed(ref d)) if d == "field not found: missing"));
    assert_eq!(current_names(&s), Some(vec!["status".to_string()]));
    let retried = debug_transform(&mut s, &transform_req("status -> code"), rename_engine).unwrap();
    assert_eq!(retried.format_json, "{\"code\":500}");
}

#[test]
fn successive_transforms_each_apply_to_the_previous_result() {
    let mut s = Session::new();
    debug_parse(&mut s, &parse_req("status", "200 OK"), status_engine).unwrap();
    debug_transform(&mut s, &transform_req("status -> a"), rename_engine).unwrap();
    debug_transform(&mut s, &transform_req("a -> b"), rename_engine).unwrap();
    let last = debug_transform(&mut s, &transform_req("b -> c"), rename_engine).unwrap();
    assert_eq!(last.format_json, "{\"c\":200}");
    assert_eq!(current_names(&s), Some(vec!["c".to_string()]));
}

#[test]
fn replace_discards_previous_record() {
    let mut s = Session::new();
    s.replace(Record::new(vec![field("x", FieldValue::Bool(true))]));
    s.replace(Record::new(vec![field("y", FieldValue::Int(1))]));
    assert_eq!(current_names(&s), Some(vec!["y".to_string()]));
}

#[test]
fn knowledge_query_is_not_implemented() {
    let req = DebugKnowledgeQueryRequest { connection_id: 1, table: "t".to_string(), sql: "select 1".to_string() };
    let r = debug_knowledge_query(&req);
    assert!(matches!(r, Err(AppError::NotImplemented)));
}

#[test]
fn error_kinds_map_to_status_and_message() {
    assert_eq!(AppError::ParseFailed("bad rule".to_string()).status_code(), 400);
    assert_eq!(AppError::ParseFailed("bad rule".to_string()).message(), "bad rule");
    assert_eq!(AppError::TransformFailed("bad oml".to_string()).status_code(), 400);
    assert_eq!(AppError::TransformFailed("bad oml".to_string()).message(), "bad oml");
    assert_eq!(AppError::NoParseResult.status_code(), 400);
    assert_eq!(AppError::NoParseResult.message(), "no parse result: submit a parse request first");
    assert_eq!(AppError::NotImplemented.status_code(), 501);
    assert_eq!(AppError::InternalFault("lock poisoned".to_string()).status_code(), 500);
    assert_eq!(AppError::InternalFault("lock poisoned".to_string()).message(), "internal server error");
}
