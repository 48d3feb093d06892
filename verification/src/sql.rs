//! Values bound to the placeholders of a SQL statement.
use vstd::prelude::*;
use crate::time::Instant;

verus! {

/// One value bound to a `?` of a statement.
#[derive(Debug, PartialEq, Eq)]
pub enum SqlValue {
    Int(i64),
    Text(String),
    /// A client timestamp, read as `timestamp_to_instant` reads it.
    Time(Instant),
    /// The local time at which the statement runs; every `Now` of one
    /// statement is the same moment.
    Now,
}

/// A bound value with its text as a character sequence.
pub enum SqlValueView {
    Int(i64),
    Text(Seq<char>),
    Time(Instant),
    Now,
}

impl View for SqlValue {
    type V = SqlValueView;

    open spec fn view(&self) -> SqlValueView {
        match self {
            SqlValue::Int(i) => SqlValueView::Int(*i),
            SqlValue::Text(t) => SqlValueView::Text(t@),
            SqlValue::Time(t) => SqlValueView::Time(*t),
            SqlValue::Now => SqlValueView::Now,
        }
    }
}

/// The views of a sequence of bound values, in order.
pub open spec fn bound_views(v: Seq<SqlValue>) -> Seq<SqlValueView> {
    v.map_values(|x: SqlValue| x@)
}

/// A text value holding a copy of `s`.
pub fn text_value(s: &str) -> (v: SqlValue)
    ensures
        v@ == SqlValueView::Text(s@),
{
    SqlValue::Text(s.to_owned())
}

} // verus!
