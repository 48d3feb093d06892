//! Naming and marking of the tracing spans around Redis, MySQL and HTTP work.
use vstd::prelude::*;
use crate::text::{seq_contains, str_contains, occurs_at};

verus! {

/// The span name of a Redis statement: the first of `HGET`, `HSET`, `GET`,
/// `SET` that the statement contains decides it.
pub open spec fn redis_span(command: Seq<char>) -> Seq<char> {
    if seq_contains(command, "HGET"@) {
        "Redis:HGET"@
    } else if seq_contains(command, "HSET"@) {
        "Redis:HSET"@
    } else if seq_contains(command, "GET"@) {
        "Redis:GET"@
    } else if seq_contains(command, "SET"@) {
        "Redis:SET"@
    } else {
        "Redis:COMMAND"@
    }
}

/// The span name for a traced Redis statement.
pub fn redis_span_name(command: &str) -> (name: &'static str)
    ensures
        name@ == redis_span(command@),
{
    if str_contains(command, "HGET") {
        "Redis:HGET"
    } else if str_contains(command, "HSET") {
        "Redis:HSET"
    } else if str_contains(command, "GET") {
        "Redis:GET"
    } else if str_contains(command, "SET") {
        "Redis:SET"
    } else {
        "Redis:COMMAND"
    }
}

/// The span name of a SQL statement: reads are queries, inserts and updates
/// are executions, anything else is a command.
pub open spec fn db_span(sql: Seq<char>) -> Seq<char> {
    if seq_contains(sql, "select"@) {
        "MySQL:Query"@
    } else if seq_contains(sql, "insert"@) || seq_contains(sql, "update"@) {
        "MySQL:Exec"@
    } else {
        "MySQL:COMMAND"@
    }
}

/// The span name for a traced SQL statement.
pub fn db_span_name(sql: &str) -> (name: &'static str)
    ensures
        name@ == db_span(sql@),
{
    if str_contains(sql, "select") {
        "MySQL:Query"
    } else if str_contains(sql, "insert") || str_contains(sql, "update") {
        "MySQL:Exec"
    } else {
        "MySQL:COMMAND"
    }
}

/// A statement that starts with `HGET` is traced under the span `Redis:HGET`,
/// whatever follows.
pub proof fn law_hget_statements_are_hget_spans(rest: Seq<char>)
    ensures
        redis_span("HGET"@ + rest) == "Redis:HGET"@,
{
    reveal_strlit("HGET");
    let s = "HGET"@ + rest;
    assert(s.subrange(0, 4) =~= "HGET"@);
    assert(occurs_at(s, "HGET"@, 0));
}

/// What the HTTP tracing layer does with a finished request.
#[derive(Debug, Clone, Copy, PartialEq, Eq, Structural)]
pub struct TraceOutcome {
    /// The span is marked as failed.
    pub mark_error: bool,
    /// The trace id header is added to the reply.
    pub insert_trace_header: bool,
}

/// Replies with a status of 400 or more mark their span as failed; the trace
/// id header is added only when the reply does not carry one yet.
pub fn trace_outcome(status: u16, has_trace_header: bool) -> (o: TraceOutcome)
    ensures
        o.mark_error == (status >= 400),
        o.insert_trace_header == !has_trace_header,
{
    TraceOutcome { mark_error: status >= 400, insert_trace_header: !has_trace_header }
}

/// Name of the reply header that carries the trace id.
pub const TRACE_ID_HEADER: &'static str = "simplife-trace-id";

} // verus!
