//! Redis commands the services issue, and the statement text each is traced as.
use vstd::prelude::*;
use crate::text::{decimal, push_char, push_decimal};

verus! {

/// One Redis command, with its arguments rendered as the text Redis receives.
#[derive(Debug)]
pub enum RedisCommand {
    Get { key: String },
    SetEx { key: String, value: String, seconds: i64 },
    Expire { key: String, seconds: i64 },
    Ttl { key: String },
    HExists { key: String, field: String },
    HGet { key: String, field: String },
    HSet { key: String, field: String, value: String },
    Del { key: String },
}

/// A Redis command with its texts as character sequences.
pub enum RedisCommandView {
    Get { key: Seq<char> },
    SetEx { key: Seq<char>, value: Seq<char>, seconds: i64 },
    Expire { key: Seq<char>, seconds: i64 },
    Ttl { key: Seq<char> },
    HExists { key: Seq<char>, field: Seq<char> },
    HGet { key: Seq<char>, field: Seq<char> },
    HSet { key: Seq<char>, field: Seq<char>, value: Seq<char> },
    Del { key: Seq<char> },
}

impl View for RedisCommand {
    type V = RedisCommandView;

    open spec fn view(&self) -> RedisCommandView {
        match self {
            RedisCommand::Get { key } => RedisCommandView::Get { key: key@ },
            RedisCommand::SetEx { key, value, seconds } => RedisCommandView::SetEx { key: key@, value: value@, seconds: *seconds },
            RedisCommand::Expire { key, seconds } => RedisCommandView::Expire { key: key@, seconds: *seconds },
            RedisCommand::Ttl { key } => RedisCommandView::Ttl { key: key@ },
            RedisCommand::HExists { key, field } => RedisCommandView::HExists { key: key@, field: field@ },
            RedisCommand::HGet { key, field } => RedisCommandView::HGet { key: key@, field: field@ },
            RedisCommand::HSet { key, field, value } => RedisCommandView::HSet { key: key@, field: field@, value: value@ },
            RedisCommand::Del { key } => RedisCommandView::Del { key: key@ },
        }
    }
}

/// The statement text a command is traced with.
pub open spec fn statement_text(c: RedisCommandView) -> Seq<char> {
    match c {
        RedisCommandView::Get { key } => "GET "@ + key,
        RedisCommandView::SetEx { key, value, seconds } =>
            "SETEX "@ + key + seq![' '] + decimal(seconds as int) + seq![' '] + value,
        RedisCommandView::Expire { key, seconds } => "EXPIRE "@ + key + seq![' '] + decimal(seconds as int),
        RedisCommandView::Ttl { key } => "TTL "@ + key,
        RedisCommandView::HExists { key, field } => "HEXISTS "@ + key + seq![' '] + field,
        RedisCommandView::HGet { key, field } => "HGET "@ + key + seq![' '] + field,
        RedisCommandView::HSet { key, field, value } => "HSET "@ + key + seq![' '] + field + seq![' '] + value,
        RedisCommandView::Del { key } => "DEL "@ + key,
    }
}

impl RedisCommand {
    /// The key the command works on.
    pub fn key(&self) -> (k: &String)
        ensures
            k@ == command_key(self@),
    {
        match self {
            RedisCommand::Get { key } => key,
            RedisCommand::SetEx { key, .. } => key,
            RedisCommand::Expire { key, .. } => key,
            RedisCommand::Ttl { key } => key,
            RedisCommand::HExists { key, .. } => key,
            RedisCommand::HGet { key, .. } => key,
            RedisCommand::HSet { key, .. } => key,
            RedisCommand::Del { key } => key,
        }
    }

    /// The statement text the command is traced with.
    pub fn statement(&self) -> (s: String)
        ensures
            s@ == statement_text(self@),
    {
        match self {
            RedisCommand::Get { key } => {
                let mut s = "GET ".to_owned();
                s.append(key.as_str());
                s
            },
            RedisCommand::SetEx { key, value, seconds } => {
                let mut s = "SETEX ".to_owned();
                s.append(key.as_str());
                push_char(&mut s, ' ');
                push_decimal(&mut s, *seconds);
                push_char(&mut s, ' ');
                s.append(value.as_str());
                s
            },
            RedisCommand::Expire { key, seconds } => {
                let mut s = "EXPIRE ".to_owned();
                s.append(key.as_str());
                push_char(&mut s, ' ');
                push_decimal(&mut s, *seconds);
                s
            },
            RedisCommand::Ttl { key } => {
                let mut s = "TTL ".to_owned();
                s.append(key.as_str());
                s
            },
            RedisCommand::HExists { key, field } => {
                let mut s = "HEXISTS ".to_owned();
                s.append(key.as_str());
                push_char(&mut s, ' ');
                s.append(field.as_str());
                s
            },
            RedisCommand::HGet { key, field } => {
                let mut s = "HGET ".to_owned();
                s.append(key.as_str());
                push_char(&mut s, ' ');
                s.append(field.as_str());
                s
            },
            RedisCommand::HSet { key, field, value } => {
                let mut s = "HSET ".to_owned();
                s.append(key.as_str());
                push_char(&mut s, ' ');
                s.append(field.as_str());
                push_char(&mut s, ' ');
                s.append(value.as_str());
                s
            },
            RedisCommand::Del { key } => {
                let mut s = "DEL ".to_owned();
                s.append(key.as_str());
                s
            },
        }
    }
}

/// The key a command works on.
pub open spec fn command_key(c: RedisCommandView) -> Seq<char> {
    match c {
        RedisCommandView::Get { key } => key,
        RedisCommandView::SetEx { key, .. } => key,
        RedisCommandView::Expire { key, .. } => key,
        RedisCommandView::Ttl { key } => key,
        RedisCommandView::HExists { key, .. } => key,
        RedisCommandView::HGet { key, .. } => key,
        RedisCommandView::HSet { key, .. } => key,
        RedisCommandView::Del { key } => key,
    }
}

/// The decimal text of an `i64` value stored under a key.
pub open spec fn stored_i64(v: i64) -> Seq<char> {
    decimal(v as int)
}

} // verus!
