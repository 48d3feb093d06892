//! The transaction that deletes or updates an agenda and records the change.
//!
//! The transaction reads the agenda, changes it, and inserts a log row with
//! the agenda as it was before the change. Any failure after the transaction
//! began rolls it back; the transaction ends after its commit or rollback.
use vstd::prelude::*;
use crate::agenda::store::{AgendaRecord, AgendaStatement, AgendaStatementView};

verus! {

/// The change a transaction makes to an agenda on behalf of user `uid`.
#[derive(Debug)]
pub enum TxChange {
    Delete { id: i64, uid: i64 },
    Update { id: i64, uid: i64, title: String, content: String },
}

impl TxChange {
    /// The agenda changed.
    pub open spec fn agenda_id(self) -> i64 {
        match self {
            TxChange::Delete { id, .. } => id,
            TxChange::Update { id, .. } => id,
        }
    }

    /// The user making the change.
    pub open spec fn user(self) -> i64 {
        match self {
            TxChange::Delete { uid, .. } => uid,
            TxChange::Update { uid, .. } => uid,
        }
    }
}

/// Where a transaction stands.
#[derive(Debug)]
pub enum TxStage<E> {
    /// The transaction must be begun.
    Begin,
    /// The agenda must be read.
    Fetch,
    /// The agenda, as read, must be changed.
    Change(AgendaRecord),
    /// The change must be logged with the agenda as it was read.
    Log(AgendaRecord),
    /// The transaction must be committed; the log row got this id.
    Commit(u64),
    /// The transaction must be rolled back because of this error.
    Rollback(E),
    /// The transaction ended: the id of the log row, or the error.
    Done(Result<u64, E>),
}

/// A running delete or update of an agenda.
#[derive(Debug)]
pub struct AgendaTx<E> {
    pub change: TxChange,
    pub stage: TxStage<E>,
}

/// What the transaction asks of the database next.
#[derive(Debug)]
pub enum TxAction {
    Begin,
    Run(AgendaStatement),
    Commit,
    Rollback,
    /// Nothing: the transaction ended.
    Finish,
}

/// A transaction action with its statement's texts as character sequences.
pub enum TxActionView {
    Begin,
    Run(AgendaStatementView),
    Commit,
    Rollback,
    Finish,
}

impl View for TxAction {
    type V = TxActionView;

    open spec fn view(&self) -> TxActionView {
        match self {
            TxAction::Begin => TxActionView::Begin,
            TxAction::Run(s) => TxActionView::Run(s@),
            TxAction::Commit => TxActionView::Commit,
            TxAction::Rollback => TxActionView::Rollback,
            TxAction::Finish => TxActionView::Finish,
        }
    }
}

/// What the database answered.
#[derive(Debug)]
pub enum TxEvent<E> {
    Began(Result<(), E>),
    Fetched(Result<AgendaRecord, E>),
    /// A statement ran; the id of the row it inserted, if any.
    Ran(Result<u64, E>),
    Committed(Result<(), E>),
    RolledBack(Result<(), E>),
}

/// The statement that makes the change.
pub open spec fn change_statement(c: TxChange) -> AgendaStatementView {
    match c {
        TxChange::Delete { id, .. } => AgendaStatementView::MarkDeleted { id },
        TxChange::Update { id, title, content, .. } => AgendaStatementView::Update { id, title: title@, content: content@ },
    }
}

/// The state recorded in the log: `deleted` for a deletion, the agenda's
/// state before the change for an update.
pub open spec fn logged_state(c: TxChange, a: AgendaRecord) -> Seq<char> {
    match c {
        TxChange::Delete { .. } => "deleted"@,
        TxChange::Update { .. } => a.state@,
    }
}

/// The log statement: who changed which agenda, and the agenda's family,
/// title and content as they were read before the change.
pub open spec fn log_statement(c: TxChange, a: AgendaRecord) -> AgendaStatementView {
    AgendaStatementView::InsertLog {
        uid: c.user(),
        agenda_id: c.agenda_id(),
        family_id: a.family_id,
        title: a.title@,
        content: a.content@,
        state: logged_state(c, a),
    }
}

/// What a transaction in a stage asks for.
pub open spec fn pending_action<E>(tx: AgendaTx<E>) -> TxActionView {
    match tx.stage {
        TxStage::Begin => TxActionView::Begin,
        TxStage::Fetch => TxActionView::Run(AgendaStatementView::Get { id: tx.change.agenda_id() }),
        TxStage::Change(_) => TxActionView::Run(change_statement(tx.change)),
        TxStage::Log(a) => TxActionView::Run(log_statement(tx.change, a)),
        TxStage::Commit(_) => TxActionView::Commit,
        TxStage::Rollback(_) => TxActionView::Rollback,
        TxStage::Done(_) => TxActionView::Finish,
    }
}

/// The stage a transaction moves to on an answer. An answer that does not
/// belong to the stage leaves the stage unchanged.
pub open spec fn next_stage<E>(stage: TxStage<E>, ev: TxEvent<E>) -> TxStage<E> {
    match stage {
        TxStage::Begin => match ev {
            TxEvent::Began(Ok(_)) => TxStage::Fetch,
            TxEvent::Began(Err(e)) => TxStage::Done(Err(e)),
            _ => stage,
        },
        TxStage::Fetch => match ev {
            TxEvent::Fetched(Ok(a)) => TxStage::Change(a),
            TxEvent::Fetched(Err(e)) => TxStage::Rollback(e),
            _ => stage,
        },
        TxStage::Change(a) => match ev {
            TxEvent::Ran(Ok(_)) => TxStage::Log(a),
            TxEvent::Ran(Err(e)) => TxStage::Rollback(e),
            _ => stage,
        },
        TxStage::Log(_) => match ev {
            TxEvent::Ran(Ok(id)) => TxStage::Commit(id),
            TxEvent::Ran(Err(e)) => TxStage::Rollback(e),
            _ => stage,
        },
        TxStage::Commit(id) => match ev {
            TxEvent::Committed(Ok(_)) => TxStage::Done(Ok(id)),
            TxEvent::Committed(Err(e)) => TxStage::Done(Err(e)),
            _ => stage,
        },
        TxStage::Rollback(e) => match ev {
            TxEvent::RolledBack(Ok(_)) => TxStage::Done(Err(e)),
            TxEvent::RolledBack(Err(e2)) => TxStage::Done(Err(e2)),
            _ => stage,
        },
        TxStage::Done(_) => stage,
    }
}

/// The transaction after an answer.
pub open spec fn next_tx<E>(tx: AgendaTx<E>, ev: TxEvent<E>) -> AgendaTx<E> {
    AgendaTx { change: tx.change, stage: next_stage(tx.stage, ev) }
}

impl<E> AgendaTx<E> {
    /// Starts a transaction that makes `change`.
    pub fn start(change: TxChange) -> (r: (AgendaTx<E>, TxAction))
        ensures
            r.0.change == change,
            r.0.stage is Begin,
            r.1@ == TxActionView::Begin,
    {
        (AgendaTx { change, stage: TxStage::Begin }, TxAction::Begin)
    }

    /// Starts the deletion of agenda `id` by user `uid`.
    pub fn delete_agenda(id: i64, uid: i64) -> (r: (AgendaTx<E>, TxAction))
        ensures
            r.0.change == (TxChange::Delete { id, uid }),
            r.0.stage is Begin,
            r.1@ == TxActionView::Begin,
    {
        Self::start(TxChange::Delete { id, uid })
    }

    /// Starts the update of agenda `id` by user `uid`.
    pub fn update_agenda(id: i64, uid: i64, title: String, content: String) -> (r: (AgendaTx<E>, TxAction))
        ensures
            r.0.change == (TxChange::Update { id, uid, title, content }),
            r.0.stage is Begin,
            r.1@ == TxActionView::Begin,
    {
        Self::start(TxChange::Update { id, uid, title, content })
    }

    /// What the transaction asks for in its current stage.
    pub fn pending(&self) -> (a: TxAction)
        ensures
            a@ == pending_action(*self),
    {
        match &self.stage {
            TxStage::Begin => TxAction::Begin,
            TxStage::Fetch => {
                let id = match &self.change {
                    TxChange::Delete { id, .. } => *id,
                    TxChange::Update { id, .. } => *id,
                };
                TxAction::Run(AgendaStatement::Get { id })
            },
            TxStage::Change(_) => match &self.change {
                TxChange::Delete { id, .. } => TxAction::Run(AgendaStatement::MarkDeleted { id: *id }),
                TxChange::Update { id, title, content, .. } =>
                    TxAction::Run(AgendaStatement::Update { id: *id, title: title.clone(), content: content.clone() }),
            },
            TxStage::Log(a) => {
                let (uid, agenda_id, state) = match &self.change {
                    TxChange::Delete { id, uid } => (*uid, *id, "deleted".to_owned()),
                    TxChange::Update { id, uid, .. } => (*uid, *id, a.state.clone()),
                };
                TxAction::Run(AgendaStatement::InsertLog {
                    uid,
                    agenda_id,
                    family_id: a.family_id,
                    title: a.title.clone(),
                    content: a.content.clone(),
                    state,
                })
            },
            TxStage::Commit(_) => TxAction::Commit,
            TxStage::Rollback(_) => TxAction::Rollback,
            TxStage::Done(_) => TxAction::Finish,
        }
    }

    /// Moves the transaction on with the database's answer and says what it
    /// asks for next.
    pub fn step(self, ev: TxEvent<E>) -> (r: (AgendaTx<E>, TxAction))
        ensures
            r.0 == next_tx(self, ev),
            r.1@ == pending_action(r.0),
    {
        let AgendaTx { change, stage } = self;
        let stage = match stage {
            TxStage::Begin => match ev {
                TxEvent::Began(Ok(_)) => TxStage::Fetch,
                TxEvent::Began(Err(e)) => TxStage::Done(Err(e)),
                _ => TxStage::Begin,
            },
            TxStage::Fetch => match ev {
                TxEvent::Fetched(Ok(a)) => TxStage::Change(a),
                TxEvent::Fetched(Err(e)) => TxStage::Rollback(e),
                _ => TxStage::Fetch,
            },
            TxStage::Change(a) => match ev {
                TxEvent::Ran(Ok(_)) => TxStage::Log(a),
                TxEvent::Ran(Err(e)) => TxStage::Rollback(e),
                _ => TxStage::Change(a),
            },
            TxStage::Log(a) => match ev {
                TxEvent::Ran(Ok(id)) => TxStage::Commit(id),
                TxEvent::Ran(Err(e)) => TxStage::Rollback(e),
                _ => TxStage::Log(a),
            },
            TxStage::Commit(id) => match ev {
                TxEvent::Committed(Ok(_)) => TxStage::Done(Ok(id)),
                TxEvent::Committed(Err(e)) => TxStage::Done(Err(e)),
                _ => TxStage::Commit(id),
            },
            TxStage::Rollback(e) => match ev {
                TxEvent::RolledBack(Ok(_)) => TxStage::Done(Err(e)),
                TxEvent::RolledBack(Err(e2)) => TxStage::Done(Err(e2)),
                _ => TxStage::Rollback(e),
            },
            TxStage::Done(res) => TxStage::Done(res),
        };
        let tx = AgendaTx { change, stage };
        let a = tx.pending();
        (tx, a)
    }

    /// The outcome, once the transaction ended: the id of the log row, or the
    /// error that ended it.
    pub fn outcome(self) -> (r: Option<Result<u64, E>>)
        ensures
            match self.stage {
                TxStage::Done(res) => r == Some(res),
                _ => r is None,
            },
    {
        match self.stage {
            TxStage::Done(res) => Some(res),
            _ => None,
        }
    }
}

/// Whether the transaction is open: begun and neither committed nor rolled back.
pub open spec fn is_open<E>(stage: TxStage<E>) -> bool {
    match stage {
        TxStage::Fetch | TxStage::Change(_) | TxStage::Log(_) | TxStage::Commit(_) | TxStage::Rollback(_) => true,
        _ => false,
    }
}

/// An open transaction ends only through its commit or its rollback.
pub proof fn law_open_tx_ends_by_commit_or_rollback<E>(stage: TxStage<E>, ev: TxEvent<E>)
    requires
        is_open(stage),
        next_stage(stage, ev) is Done,
    ensures
        stage is Commit || stage is Rollback,
{
}

/// A failed read, change or log rolls the transaction back, keeping the error.
pub proof fn law_failures_roll_back<E>(tx: AgendaTx<E>, e: E)
    requires
        tx.stage is Fetch || tx.stage is Change || tx.stage is Log,
    ensures
        tx.stage is Fetch ==> next_stage(tx.stage, TxEvent::Fetched(Err(e))) == TxStage::<E>::Rollback(e),
        (tx.stage is Change || tx.stage is Log) ==> next_stage(tx.stage, TxEvent::Ran(Err(e))) == TxStage::<E>::Rollback(e),
        pending_action(AgendaTx { change: tx.change, stage: TxStage::<E>::Rollback(e) }) == TxActionView::Rollback,
{
}

/// A transaction succeeds only through a successful commit, and its result is
/// the id of the log row it inserted.
pub proof fn law_success_only_by_commit<E>(stage: TxStage<E>, ev: TxEvent<E>, id: u64)
    requires
        !(stage is Done),
        next_stage(stage, ev) == TxStage::<E>::Done(Ok(id)),
    ensures
        stage == TxStage::<E>::Commit(id),
        ev matches TxEvent::Committed(Ok(_)),
{
}

/// The log row of a change records the agenda as it was read before the
/// change: its family, title and content, and the state `deleted` for a
/// deletion or the previous state for an update.
pub proof fn law_log_keeps_previous_agenda<E>(change: TxChange, read: AgendaRecord, changed: u64)
    ensures
        pending_action(next_tx(AgendaTx::<E> { change, stage: TxStage::Change(read) }, TxEvent::Ran(Ok(changed))))
            == TxActionView::Run(log_statement(change, read)),
        log_statement(change, read) matches AgendaStatementView::InsertLog { family_id, title, content, state, .. }
            && family_id == read.family_id && title == read.title@ && content == read.content@
            && (change is Delete ==> state == "deleted"@)
            && (change is Update ==> state == read.state@),
{
}

/// A deletion of agenda `id` by user `uid`, once begun, reads agenda `id`,
/// marks agenda `id` deleted, and logs the change of agenda `id` by `uid`.
pub proof fn law_delete_works_on_its_own_agenda<E>(id: i64, uid: i64, read: AgendaRecord, changed: u64)
    ensures
        pending_action(next_tx(AgendaTx::<E> { change: TxChange::Delete { id, uid }, stage: TxStage::Begin }, TxEvent::Began(Ok(()))))
            == TxActionView::Run(AgendaStatementView::Get { id }),
        pending_action(next_tx(AgendaTx::<E> { change: TxChange::Delete { id, uid }, stage: TxStage::Fetch }, TxEvent::Fetched(Ok(read))))
            == TxActionView::Run(AgendaStatementView::MarkDeleted { id }),
        pending_action(next_tx(AgendaTx::<E> { change: TxChange::Delete { id, uid }, stage: TxStage::Change(read) }, TxEvent::Ran(Ok(changed))))
            matches TxActionView::Run(AgendaStatementView::InsertLog { uid: u, agenda_id, .. }) && u == uid && agenda_id == id,
{
}

/// An update of agenda `id` by user `uid` to `title` and `content`, once
/// begun, reads agenda `id`, sets its title to `title` and its content to
/// `content`, and logs the change of agenda `id` by `uid`.
pub proof fn law_update_works_on_its_own_agenda<E>(id: i64, uid: i64, title: String, content: String, read: AgendaRecord, changed: u64)
    ensures
        pending_action(next_tx(AgendaTx::<E> { change: TxChange::Update { id, uid, title, content }, stage: TxStage::Begin }, TxEvent::Began(Ok(()))))
            == TxActionView::Run(AgendaStatementView::Get { id }),
        pending_action(next_tx(AgendaTx::<E> { change: TxChange::Update { id, uid, title, content }, stage: TxStage::Fetch }, TxEvent::Fetched(Ok(read))))
            == TxActionView::Run(AgendaStatementView::Update { id, title: title@, content: content@ }),
        pending_action(next_tx(AgendaTx::<E> { change: TxChange::Update { id, uid, title, content }, stage: TxStage::Change(read) }, TxEvent::Ran(Ok(changed))))
            matches TxActionView::Run(AgendaStatementView::InsertLog { uid: u, agenda_id, .. }) && u == uid && agenda_id == id,
{
}

/// The transaction after a sequence of answers.
pub open spec fn run<E>(tx: AgendaTx<E>, evs: Seq<TxEvent<E>>) -> AgendaTx<E>
    decreases evs.len(),
{
    if evs.len() == 0 {
        tx
    } else {
        run(next_tx(tx, evs[0]), evs.drop_first())
    }
}

/// What the transaction asks for, from its current stage on, along a
/// sequence of answers.
pub open spec fn trace<E>(tx: AgendaTx<E>, evs: Seq<TxEvent<E>>) -> Seq<TxActionView>
    decreases evs.len(),
{
    if evs.len() == 0 {
        seq![pending_action(tx)]
    } else {
        seq![pending_action(tx)] + trace(next_tx(tx, evs[0]), evs.drop_first())
    }
}

/// Whether an action closes the transaction.
pub open spec fn closes(a: TxActionView) -> bool {
    a is Commit || a is Rollback
}

/// However the database answers, an open transaction that ends has asked
/// for its commit or its rollback on the way.
pub proof fn law_open_tx_is_closed_before_it_ends<E>(tx: AgendaTx<E>, evs: Seq<TxEvent<E>>)
    requires
        is_open(tx.stage),
        run(tx, evs).stage is Done,
    ensures
        exists|i: int| 0 <= i < trace(tx, evs).len() && closes(#[trigger] trace(tx, evs)[i]),
    decreases evs.len(),
{
    if tx.stage is Commit || tx.stage is Rollback {
        assert(closes(trace(tx, evs)[0]));
    } else {
        assert(evs.len() > 0);
        let next = next_tx(tx, evs[0]);
        if next.stage is Done {
            law_open_tx_ends_by_commit_or_rollback(tx.stage, evs[0]);
        }
        law_open_tx_is_closed_before_it_ends(next, evs.drop_first());
        let rest = trace(next, evs.drop_first());
        let i = choose|i: int| 0 <= i < rest.len() && closes(#[trigger] rest[i]);
        assert(trace(tx, evs)[i + 1] == rest[i]);
    }
}

} // verus!
