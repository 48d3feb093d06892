//! Requests the agenda service accepts.
use vstd::prelude::*;

verus! {

/// Adds an agenda to the caller's family.
#[derive(Debug)]
pub struct AddAgendaReq {
    pub title: String,
    pub content: String,
    pub access_key: String,
}

/// Lists a page of the caller's family agendas.
#[derive(Debug)]
pub struct GetAgendaReq {
    /// Page number, counted from 1.
    pub pn: i64,
    /// Page size.
    pub ps: i64,
    pub date_start: i64,
    pub date_end: i64,
    pub access_key: String,
}

/// Deletes an agenda of the caller's family.
#[derive(Debug)]
pub struct DeleteAgendaReq {
    pub access_key: String,
    pub id: i64,
}

/// Changes title and content of an agenda of the caller's family.
#[derive(Debug)]
pub struct UpdateAgendaReq {
    pub access_key: String,
    pub id: i64,
    pub title: String,
    pub content: String,
}

/// Lists the schedules in a time window.
#[derive(Debug, Clone, Copy, PartialEq, Eq, Structural)]
pub struct GetScheduleReq {
    pub start_time: i64,
    pub end_time: i64,
}

} // verus!
