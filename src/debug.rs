//! The debug operations offered to callers, and their request and response shapes.
use crate::error::AppError;
use crate::record::Record;
use crate::render::ParsedField;
use crate::session::{after_parse, after_transform, answers, parse_failed, transform_failed, Session};
use vstd::prelude::*;

verus! {

/// Asks for `logs` to be parsed with `rules` in the session of `connection_id`.
#[derive(Debug)]
pub struct DebugParseRequest {
    pub connection_id: Option<i32>,
    pub rules: String,
    pub logs: String,
}

/// Asks for the OML mapping `oml` to be applied to the current record of the
/// session of `connection_id`.
#[derive(Debug)]
pub struct DebugTransformRequest {
    pub connection_id: Option<i32>,
    pub oml: String,
}

/// The field list and the JSON text of one record.
#[derive(Debug)]
pub struct RecordResponse {
    pub fields: Vec<ParsedField>,
    pub format_json: String,
}

/// Asks for the knowledge-base status of a connection.
#[derive(Debug)]
pub struct DebugKnowledgeStatusQuery {
    pub connection_id: i32,
}

/// The status of one knowledge-base tag.
#[derive(Debug)]
pub struct DebugKnowledgeStatusItem {
    pub tag_name: String,
    pub is_active: bool,
}

/// A query against a knowledge-base table of a connection.
#[derive(Debug)]
pub struct DebugKnowledgeQueryRequest {
    pub connection_id: i32,
    pub table: String,
    pub sql: String,
}

/// The rows that a knowledge-base query returned.
#[derive(Debug)]
pub struct DebugKnowledgeQueryResponse {
    pub success: bool,
    pub columns: Vec<String>,
    pub rows: Vec<Vec<String>>,
    pub total: usize,
}

/// Parses the request's logs with its rules through `engine`, installs the
/// record in `session` and renders it; a parse failure leaves `session` as it was.
pub fn debug_parse<F: FnOnce(&str, &str) -> Result<Record, String>>(
    session: &mut Session,
    req: &DebugParseRequest,
    engine: F,
) -> (r: Result<RecordResponse, AppError>)
    requires
        forall|rules: &str, logs: &str|
            rules@ == req.rules@ && logs@ == req.logs@ ==> #[trigger] engine.requires((rules, logs)),
    ensures
        exists|rules: &str, logs: &str, outcome: Result<Record, String>|
            rules@ == req.rules@ && logs@ == req.logs@
            && #[trigger] engine.ensures((rules, logs), outcome)
            && final(session).model() == after_parse(old(session).model(), outcome)
            && answers(r, outcome, |d: String| parse_failed(d)),
{
    session.submit_parse(req.rules.as_str(), req.logs.as_str(), engine)
}

/// Applies the request's OML through `engine` to the session's current record,
/// installs the result and renders it. Without a current record the result is
/// `NoParseResult`; on any failure the session keeps its record.
pub fn debug_transform<F: FnOnce(&str, Record) -> Result<Record, String>>(
    session: &mut Session,
    req: &DebugTransformRequest,
    engine: F,
) -> (r: Result<RecordResponse, AppError>)
    requires
        forall|oml: &str, rec: Record| oml@ == req.oml@ ==> #[trigger] engine.requires((oml, rec)),
    ensures
        old(session).model() is None ==> r == Err::<RecordResponse, AppError>(AppError::NoParseResult)
            && final(session).model() == old(session).model(),
        old(session).model() is Some ==> exists|oml: &str, input: Record, outcome: Result<Record, String>|
            oml@ == req.oml@ && #[trigger] engine.ensures((oml, input), outcome)
            && old(session).model() == Some(input.fields@)
            && final(session).model() == after_transform(old(session).model(), outcome)
            && answers(r, outcome, |d: String| transform_failed(d)),
{
    session.submit_transform(req.oml.as_str(), engine)
}

/// Knowledge-base queries are not provided: every request is answered with
/// `NotImplemented`.
pub fn debug_knowledge_query(req: &DebugKnowledgeQueryRequest) -> (r: Result<DebugKnowledgeQueryResponse, AppError>)
    ensures
        r == Err::<DebugKnowledgeQueryResponse, AppError>(AppError::NotImplemented),
{
    Err(AppError::NotImplemented)
}

} // verus!
