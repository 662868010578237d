//! Transaction-lifecycle decisions. The database, the pool and the network
//! live outside this crate, so the transactional scope and the bulk-clear
//! procedure are step machines here: the unverified edge executes one
//! statement or action at a time and reports whether it succeeded, and the
//! machine decides what happens next. Every decision — commit only on
//! success, always release the connection, always re-enable the
//! referential-integrity checks — is made and proved here.

use vstd::prelude::*;
use crate::error::SqlError;
use crate::row::decodable;
use crate::row::decodes_to;
use crate::values::{GraphqlId, RawRow, SqlRow, TypeIdentifier};

verus! {

/// The identifier a write statement generated, if it generated one, as the
/// driver reports it: the write call returns it wrapped as an opaque
/// identifier, else nothing.
pub fn generated_identifier(last_insert_id: Option<u64>) -> (r: Option<GraphqlId>)
    ensures
        match last_insert_id {
            Some(id) => r == Some(GraphqlId::Int(id)),
            None => r is None,
        },
{
    match last_insert_id {
        Option::Some(id) => Option::Some(GraphqlId::Int(id)),
        Option::None => Option::None,
    }
}

/// Decode every row a SELECT returned, in the database's result order — no
/// implicit re-sorting. Each row must have as many columns as there are
/// requested type identifiers; a mismatch is a programming error, ruled out by
/// the precondition. The first undecodable column aborts the whole result.
pub fn decode_rows(rows: &Vec<RawRow>, idents: &Vec<TypeIdentifier>) -> (r: Result<
    Vec<SqlRow>,
    SqlError,
>)
    requires
        forall|i: int| 0 <= i < rows@.len() ==> (#[trigger] rows@[i]).values@.len() == idents@.len(),
    ensures
        r is Ok <==> (forall|i: int, j: int|
            0 <= i < rows@.len() && 0 <= j < idents@.len() ==> decodable(
                (#[trigger] rows@[i]).values@[j],
                #[trigger] idents@[j],
            )),
        r matches Ok(out) ==> {
            &&& out@.len() == rows@.len()
            &&& forall|i: int|
                0 <= i < rows@.len() ==> (#[trigger] out@[i]).values@.len() == idents@.len()
            &&& forall|i: int, j: int|
                0 <= i < rows@.len() && 0 <= j < idents@.len() ==> decodes_to(
                    rows@[i].values@[j],
                    #[trigger] idents@[j],
                    (#[trigger] out@[i]).values@[j],
                )
        },
        r matches Err(e) ==> exists|i: int, j: int|
            {
                &&& 0 <= i < rows@.len()
                &&& 0 <= j < idents@.len()
                &&& !decodable((#[trigger] rows@[i]).values@[j], #[trigger] idents@[j])
                &&& e == SqlError::DecodeError(rows@[i].values@[j])
            },
{
    let mut out: Vec<SqlRow> = Vec::new();
    let mut i: usize = 0;
    while i < rows.len()
        invariant
            i <= rows@.len(),
            out@.len() == i,
            forall|k: int|
                0 <= k < rows@.len() ==> (#[trigger] rows@[k]).values@.len() == idents@.len(),
            forall|k: int|
                0 <= k < i ==> (#[trigger] out@[k]).values@.len() == idents@.len(),
            forall|k: int, j: int|
                0 <= k < i && 0 <= j < idents@.len() ==> decodable(
                    (#[trigger] rows@[k]).values@[j],
                    #[trigger] idents@[j],
                ),
            forall|k: int, j: int|
                0 <= k < i && 0 <= j < idents@.len() ==> decodes_to(
                    rows@[k].values@[j],
                    #[trigger] idents@[j],
                    (#[trigger] out@[k]).values@[j],
                ),
        decreases rows@.len() - i,
    {
        match rows[i].to_prisma_row(idents) {
            Ok(row) => out.push(row),
            Err(e) => {
                return Err(e);
            },
        }
        i += 1;
    }
    Ok(out)
}

/// A raw/arbitrary SQL request. This core never runs one.
#[derive(PartialEq, Eq, Debug)]
pub struct RawQuery {
    pub query: String,
}

/// Arbitrary SQL passthrough: deliberately unsupported in this core, always
/// and immediately. Callers that need it must use a different path.
pub fn raw(query: &RawQuery) -> (r: Result<serde_json::Value, SqlError>)
    ensures
        r matches Err(e) && e == SqlError::UnsupportedOperation,
{
    let _ = query;
    Err(SqlError::UnsupportedOperation)
}

/// One statement of the bulk-clear procedure.
#[derive(PartialEq, Eq, Debug)]
pub enum TruncateStatement {
    /// Disable (`false`) or re-enable (`true`) referential-integrity checks.
    SetForeignKeyChecks(bool),
    /// Delete every row of one table.
    DeleteFrom(String),
}

/// Where a bulk-clear run stands: which statement was handed out last.
#[derive(Clone, Copy, PartialEq, Eq, Structural, Debug)]
pub enum TruncatePhase {
    /// Nothing issued yet.
    Start,
    /// The disabling statement is out.
    WaitDisable,
    /// The delete of the table at this index is out.
    WaitDelete(usize),
    /// The re-enabling statement is out; `true` when a delete failed first.
    WaitEnable(bool),
    /// Finished; `true` when every statement succeeded.
    Done(bool),
}

/// The first `k` deletes, in table order.
pub open spec fn deletes_prefix(tables: Seq<String>, k: int) -> Seq<TruncateStatement> {
    Seq::new(k as nat, |i: int| TruncateStatement::DeleteFrom(tables[i]))
}

/// The bulk-clear step machine: disable referential-integrity checks, delete
/// every table in the given safe order, and re-enable the checks — the
/// re-enabling is unconditional cleanup, issued even when a delete fails.
#[derive(PartialEq, Eq, Debug)]
pub struct TruncateRun {
    /// Tables in safe deletion order, as the schema description gives them.
    pub tables: Vec<String>,
    pub phase: TruncatePhase,
    /// Every statement handed out so far, in order.
    pub issued: Vec<TruncateStatement>,
}

impl TruncateRun {
    /// What the issued log looks like in each phase: the machine's invariant.
    pub open spec fn wf(self) -> bool {
        match self.phase {
            TruncatePhase::Start => self.issued@ =~= Seq::<TruncateStatement>::empty(),
            TruncatePhase::WaitDisable => self.issued@ =~= seq![
                TruncateStatement::SetForeignKeyChecks(false),
            ],
            TruncatePhase::WaitDelete(i) => i < self.tables@.len() && self.issued@ =~= seq![
                TruncateStatement::SetForeignKeyChecks(false),
            ] + deletes_prefix(self.tables@, i + 1),
            TruncatePhase::WaitEnable(failed) => exists|k: int|
                {
                    &&& 0 <= k <= self.tables@.len()
                    &&& self.issued@ =~= seq![TruncateStatement::SetForeignKeyChecks(false)]
                        + #[trigger] deletes_prefix(self.tables@, k) + seq![
                        TruncateStatement::SetForeignKeyChecks(true),
                    ]
                    &&& (!failed ==> k == self.tables@.len())
                },
            TruncatePhase::Done(ok) => {
                ||| (self.issued@ =~= seq![TruncateStatement::SetForeignKeyChecks(false)] && !ok)
                ||| exists|k: int|
                    {
                        &&& 0 <= k <= self.tables@.len()
                        &&& self.issued@ =~= seq![TruncateStatement::SetForeignKeyChecks(false)]
                            + #[trigger] deletes_prefix(self.tables@, k) + seq![
                            TruncateStatement::SetForeignKeyChecks(true),
                        ]
                        &&& (ok ==> k == self.tables@.len())
                    }
            },
        }
    }

    /// Begin a bulk clear of the given tables, in that order.
    pub fn new(tables: Vec<String>) -> (r: TruncateRun)
        ensures
            r.wf(),
            r.phase == TruncatePhase::Start,
            r.tables == tables,
            r.issued@ =~= Seq::<TruncateStatement>::empty(),
    {
        TruncateRun { tables, phase: TruncatePhase::Start, issued: Vec::new() }
    }

    /// Whether the run is over.
    pub fn is_done(&self) -> (r: bool)
        ensures
            r == (self.phase matches TruncatePhase::Done(_)),
    {
        matches!(self.phase, TruncatePhase::Done(_))
    }

    /// The outcome of a finished run.
    pub fn outcome(&self) -> (r: Result<(), SqlError>)
        requires
            self.phase matches TruncatePhase::Done(_),
        ensures
            self.phase == TruncatePhase::Done(r is Ok),
            r matches Err(e) ==> e matches SqlError::QueryError(_),
    {
        match self.phase {
            TruncatePhase::Done(true) => Ok(()),
            _ => Err(SqlError::QueryError("a statement of the bulk clear failed".to_owned())),
        }
    }

    /// Hand out the next statement to execute, `prev_ok` reporting whether the
    /// previously issued statement succeeded (it is ignored on the first call,
    /// when nothing is out yet). `None` means the run is over.
    ///
    /// After a failed delete the next statement is still the re-enabling one:
    /// cleanup is not contingent on success.
    pub fn next_statement(&mut self, prev_ok: bool) -> (r: Option<TruncateStatement>)
        requires
            old(self).wf(),
        ensures
            final(self).wf(),
            final(self).tables == old(self).tables,
            r matches Some(st) ==> final(self).issued@ =~= old(self).issued@.push(st),
            r is None ==> final(self).issued@ =~= old(self).issued@,
            old(self).phase is Start ==> r == Some(TruncateStatement::SetForeignKeyChecks(false))
                && final(self).phase is WaitDisable,
            old(self).phase is WaitDisable && !prev_ok ==> r is None && final(self).phase
                == TruncatePhase::Done(false),
            old(self).phase is WaitDisable && prev_ok && old(self).tables@.len() == 0 ==> r == Some(
                TruncateStatement::SetForeignKeyChecks(true),
            ) && final(self).phase == TruncatePhase::WaitEnable(false),
            old(self).phase is WaitDisable && prev_ok && old(self).tables@.len() > 0 ==> (r matches
                Some(st) && st matches TruncateStatement::DeleteFrom(t) && t == old(
                self,
            ).tables@[0] && final(self).phase == TruncatePhase::WaitDelete(0)),
            old(self).phase is WaitDelete && !prev_ok ==> r == Some(
                TruncateStatement::SetForeignKeyChecks(true),
            ) && final(self).phase == TruncatePhase::WaitEnable(true),
            old(self).phase is WaitDelete && prev_ok && old(self).phase->WaitDelete_0 + 1 < old(
                self,
            ).tables@.len() ==> (r matches Some(st) && st matches TruncateStatement::DeleteFrom(t)
                && t == old(self).tables@[old(self).phase->WaitDelete_0 + 1] && final(self).phase
                == TruncatePhase::WaitDelete((old(self).phase->WaitDelete_0 + 1) as usize)),
            old(self).phase is WaitDelete && prev_ok && old(self).phase->WaitDelete_0 + 1 == old(
                self,
            ).tables@.len() ==> r == Some(TruncateStatement::SetForeignKeyChecks(true))
                && final(self).phase == TruncatePhase::WaitEnable(false),
            old(self).phase is WaitEnable ==> r is None && final(self).phase == TruncatePhase::Done(
                prev_ok && !old(self).phase->WaitEnable_0,
            ),
            old(self).phase is Done ==> r is None && final(self).phase == old(self).phase,
    {
        match self.phase {
            TruncatePhase::Start => {
                let st = TruncateStatement::SetForeignKeyChecks(false);
                self.issued.push(TruncateStatement::SetForeignKeyChecks(false));
                self.phase = TruncatePhase::WaitDisable;
                Some(st)
            },
            TruncatePhase::WaitDisable => {
                if !prev_ok {
                    self.phase = TruncatePhase::Done(false);
                    None
                } else if self.tables.len() == 0 {
                    let st = TruncateStatement::SetForeignKeyChecks(true);
                    self.issued.push(TruncateStatement::SetForeignKeyChecks(true));
                    self.phase = TruncatePhase::WaitEnable(false);
                    proof {
                        assert(self.issued@ =~= seq![
                            TruncateStatement::SetForeignKeyChecks(false),
                        ] + deletes_prefix(self.tables@, 0) + seq![
                            TruncateStatement::SetForeignKeyChecks(true),
                        ]);
                    }
                    Some(st)
                } else {
                    let t = self.tables[0].clone();
                    self.issued.push(TruncateStatement::DeleteFrom(self.tables[0].clone()));
                    self.phase = TruncatePhase::WaitDelete(0);
                    proof {
                        assert(self.issued@ =~= seq![
                            TruncateStatement::SetForeignKeyChecks(false),
                        ] + deletes_prefix(self.tables@, 1));
                    }
                    Some(TruncateStatement::DeleteFrom(t))
                }
            },
            TruncatePhase::WaitDelete(i) => {
                let n = self.tables.len();
                proof {
                    assert(i < n);
                }
                if !prev_ok {
                    let st = TruncateStatement::SetForeignKeyChecks(true);
                    self.issued.push(TruncateStatement::SetForeignKeyChecks(true));
                    self.phase = TruncatePhase::WaitEnable(true);
                    proof {
                        assert(self.issued@ =~= seq![
                            TruncateStatement::SetForeignKeyChecks(false),
                        ] + deletes_prefix(self.tables@, i + 1) + seq![
                            TruncateStatement::SetForeignKeyChecks(true),
                        ]);
                    }
                    Some(st)
                } else if i + 1 < n {
                    let t = self.tables[i + 1].clone();
                    self.issued.push(TruncateStatement::DeleteFrom(self.tables[i + 1].clone()));
                    self.phase = TruncatePhase::WaitDelete(i + 1);
                    proof {
                        assert(self.issued@ =~= seq![
                            TruncateStatement::SetForeignKeyChecks(false),
                        ] + deletes_prefix(self.tables@, i + 2));
                    }
                    Some(TruncateStatement::DeleteFrom(t))
                } else {
                    let st = TruncateStatement::SetForeignKeyChecks(true);
                    self.issued.push(TruncateStatement::SetForeignKeyChecks(true));
                    self.phase = TruncatePhase::WaitEnable(false);
                    proof {
                        assert(self.issued@ =~= seq![
                            TruncateStatement::SetForeignKeyChecks(false),
                        ] + deletes_prefix(self.tables@, i + 1) + seq![
                            TruncateStatement::SetForeignKeyChecks(true),
                        ]);
                    }
                    Some(st)
                }
            },
            TruncatePhase::WaitEnable(failed) => {
                self.phase = TruncatePhase::Done(prev_ok && !failed);
                None
            },
            TruncatePhase::Done(_) => None,
        }
    }
}

/// How many re-enabling statements a statement sequence holds.
pub open spec fn enable_count(s: Seq<TruncateStatement>) -> int
    decreases s.len(),
{
    if s.len() == 0 {
        0
    } else {
        enable_count(s.drop_last()) + (if s.last() == TruncateStatement::SetForeignKeyChecks(true) {
            1int
        } else {
            0int
        })
    }
}

proof fn lemma_enable_count_push(s: Seq<TruncateStatement>, x: TruncateStatement)
    ensures
        enable_count(s.push(x)) == enable_count(s) + (if x
            == TruncateStatement::SetForeignKeyChecks(true) {
            1int
        } else {
            0int
        }),
{
    assert(s.push(x).drop_last() =~= s);
    assert(s.push(x).last() == x);
}

proof fn lemma_prefix_no_enables(tables: Seq<String>, k: int)
    requires
        0 <= k <= tables.len(),
    ensures
        enable_count(seq![TruncateStatement::SetForeignKeyChecks(false)] + deletes_prefix(tables, k))
            == 0,
    decreases k,
{
    let head = seq![TruncateStatement::SetForeignKeyChecks(false)];
    if k == 0 {
        assert(head + deletes_prefix(tables, 0) =~= head);
        assert(head =~= Seq::<TruncateStatement>::empty().push(
            TruncateStatement::SetForeignKeyChecks(false),
        ));
        lemma_enable_count_push(
            Seq::<TruncateStatement>::empty(),
            TruncateStatement::SetForeignKeyChecks(false),
        );
    } else {
        lemma_prefix_no_enables(tables, k - 1);
        assert(head + deletes_prefix(tables, k) =~= (head + deletes_prefix(tables, k - 1)).push(
            TruncateStatement::DeleteFrom(tables[k - 1]),
        ));
        lemma_enable_count_push(
            head + deletes_prefix(tables, k - 1),
            TruncateStatement::DeleteFrom(tables[k - 1]),
        );
    }
}

/// Law: a finished bulk clear whose disabling statement succeeded issued the
/// re-enabling statement exactly once, as its last statement — also when a
/// delete in the middle of the table list failed. (When disabling itself
/// failed, nothing further was issued at all: the log is that one statement.)
pub proof fn lemma_truncate_always_reenables(run: TruncateRun)
    requires
        run.wf(),
        run.phase matches TruncatePhase::Done(_),
        run.issued@.len() > 1,
    ensures
        run.issued@.first() == TruncateStatement::SetForeignKeyChecks(false),
        run.issued@.last() == TruncateStatement::SetForeignKeyChecks(true),
        enable_count(run.issued@) == 1,
{
    let head = seq![TruncateStatement::SetForeignKeyChecks(false)];
    let tail = seq![TruncateStatement::SetForeignKeyChecks(true)];
    let k = choose|k: int|
        0 <= k <= run.tables@.len() && run.issued@ =~= head + #[trigger] deletes_prefix(
            run.tables@,
            k,
        ) + tail;
    assert(run.issued@ =~= head + deletes_prefix(run.tables@, k) + tail);
    assert(run.issued@ =~= (head + deletes_prefix(run.tables@, k)).push(
        TruncateStatement::SetForeignKeyChecks(true),
    ));
    lemma_prefix_no_enables(run.tables@, k);
    lemma_enable_count_push(
        head + deletes_prefix(run.tables@, k),
        TruncateStatement::SetForeignKeyChecks(true),
    );
}

/// One action of the transactional scope.
#[derive(Clone, Copy, PartialEq, Eq, Structural, Debug)]
pub enum TxAction {
    /// Lease one connection from the pool.
    AcquireConnection,
    /// Begin a database transaction on the leased connection.
    BeginTransaction,
    /// Run the caller's body against the open transaction.
    RunBody,
    /// Commit the transaction.
    CommitTransaction,
    /// Return the connection to the pool, discarding anything uncommitted.
    ReleaseConnection,
}

/// Where a transactional scope stands: which action is out.
#[derive(Clone, Copy, PartialEq, Eq, Structural, Debug)]
pub enum TxPhase {
    Start,
    WaitAcquire,
    WaitBegin,
    WaitBody,
    WaitCommit,
    /// The release is out; `true` when the commit was issued and succeeded.
    WaitRelease(bool),
    /// Finished; `true` when the scope committed.
    Done(bool),
}

/// The transactional-scope step machine: acquire one pooled connection, begin,
/// run the body, commit if and only if the body succeeded, and always return
/// the connection — scoped acquisition with unconditional release.
#[derive(PartialEq, Eq, Debug)]
pub struct TransactRun {
    pub phase: TxPhase,
    /// Every action handed out so far, in order.
    pub issued: Vec<TxAction>,
}

impl TransactRun {
    /// What the issued log looks like in each phase: the machine's invariant.
    pub open spec fn wf(self) -> bool {
        let a = TxAction::AcquireConnection;
        let b = TxAction::BeginTransaction;
        let run = TxAction::RunBody;
        let c = TxAction::CommitTransaction;
        let rel = TxAction::ReleaseConnection;
        match self.phase {
            TxPhase::Start => self.issued@ =~= Seq::<TxAction>::empty(),
            TxPhase::WaitAcquire => self.issued@ =~= seq![a],
            TxPhase::WaitBegin => self.issued@ =~= seq![a, b],
            TxPhase::WaitBody => self.issued@ =~= seq![a, b, run],
            TxPhase::WaitCommit => self.issued@ =~= seq![a, b, run, c],
            TxPhase::WaitRelease(committed) => {
                ||| (self.issued@ =~= seq![a, b, rel] && !committed)
                ||| (self.issued@ =~= seq![a, b, run, rel] && !committed)
                ||| self.issued@ =~= seq![a, b, run, c, rel]
            },
            TxPhase::Done(committed) => {
                ||| (self.issued@ =~= seq![a] && !committed)
                ||| (self.issued@ =~= seq![a, b, rel] && !committed)
                ||| (self.issued@ =~= seq![a, b, run, rel] && !committed)
                ||| self.issued@ =~= seq![a, b, run, c, rel]
            },
        }
    }

    /// Open a transactional scope.
    pub fn new() -> (r: TransactRun)
        ensures
            r.wf(),
            r.phase == TxPhase::Start,
            r.issued@ =~= Seq::<TxAction>::empty(),
    {
        TransactRun { phase: TxPhase::Start, issued: Vec::new() }
    }

    /// Whether the scope is over.
    pub fn is_done(&self) -> (r: bool)
        ensures
            r == (self.phase matches TxPhase::Done(_)),
    {
        matches!(self.phase, TxPhase::Done(_))
    }

    /// Whether a finished scope committed.
    pub fn committed(&self) -> (r: bool)
        requires
            self.phase matches TxPhase::Done(_),
        ensures
            self.phase == TxPhase::Done(r),
    {
        match self.phase {
            TxPhase::Done(c) => c,
            _ => false,
        }
    }

    /// Hand out the next action, `prev_ok` reporting whether the previously
    /// issued action succeeded (for `RunBody`: whether the body returned
    /// success; it is ignored on the first call). `None` means the scope is
    /// over. The commit is issued if and only if every prior action, the body
    /// included, succeeded; the release is issued whenever the connection was
    /// acquired, success or failure.
    pub fn next_action(&mut self, prev_ok: bool) -> (r: Option<TxAction>)
        requires
            old(self).wf(),
        ensures
            final(self).wf(),
            r matches Some(act) ==> final(self).issued@ =~= old(self).issued@.push(act),
            r is None ==> final(self).issued@ =~= old(self).issued@,
            old(self).phase is Start ==> r == Some(TxAction::AcquireConnection) && final(self).phase
                is WaitAcquire,
            old(self).phase is WaitAcquire && !prev_ok ==> r is None && final(self).phase == TxPhase::Done(
                false,
            ),
            old(self).phase is WaitAcquire && prev_ok ==> r == Some(TxAction::BeginTransaction)
                && final(self).phase is WaitBegin,
            old(self).phase is WaitBegin && !prev_ok ==> r == Some(TxAction::ReleaseConnection)
                && final(self).phase == TxPhase::WaitRelease(false),
            old(self).phase is WaitBegin && prev_ok ==> r == Some(TxAction::RunBody) && final(self).phase
                is WaitBody,
            old(self).phase is WaitBody && !prev_ok ==> r == Some(TxAction::ReleaseConnection)
                && final(self).phase == TxPhase::WaitRelease(false),
            old(self).phase is WaitBody && prev_ok ==> r == Some(TxAction::CommitTransaction)
                && final(self).phase is WaitCommit,
            old(self).phase is WaitCommit ==> r == Some(TxAction::ReleaseConnection) && final(self).phase
                == TxPhase::WaitRelease(prev_ok),
            old(self).phase matches TxPhase::WaitRelease(c) ==> r is None && final(self).phase
                == TxPhase::Done(c),
            old(self).phase matches TxPhase::Done(c) ==> r is None && final(self).phase == old(self).phase,
    {
        match self.phase {
            TxPhase::Start => {
                self.issued.push(TxAction::AcquireConnection);
                self.phase = TxPhase::WaitAcquire;
                Some(TxAction::AcquireConnection)
            },
            TxPhase::WaitAcquire => {
                if !prev_ok {
                    self.phase = TxPhase::Done(false);
                    None
                } else {
                    self.issued.push(TxAction::BeginTransaction);
                    self.phase = TxPhase::WaitBegin;
                    Some(TxAction::BeginTransaction)
                }
            },
            TxPhase::WaitBegin => {
                if !prev_ok {
                    self.issued.push(TxAction::ReleaseConnection);
                    self.phase = TxPhase::WaitRelease(false);
                    Some(TxAction::ReleaseConnection)
                } else {
                    self.issued.push(TxAction::RunBody);
                    self.phase = TxPhase::WaitBody;
                    Some(TxAction::RunBody)
                }
            },
            TxPhase::WaitBody => {
                if !prev_ok {
                    self.issued.push(TxAction::ReleaseConnection);
                    self.phase = TxPhase::WaitRelease(false);
                    Some(TxAction::ReleaseConnection)
                } else {
                    self.issued.push(TxAction::CommitTransaction);
                    self.phase = TxPhase::WaitCommit;
                    Some(TxAction::CommitTransaction)
                }
            },
            TxPhase::WaitCommit => {
                self.issued.push(TxAction::ReleaseConnection);
                self.phase = TxPhase::WaitRelease(prev_ok);
                Some(TxAction::ReleaseConnection)
            },
            TxPhase::WaitRelease(c) => {
                self.phase = TxPhase::Done(c);
                None
            },
            TxPhase::Done(_) => None,
        }
    }
}

/// The writes visible after a transactional scope: all of them when it
/// committed, none of them otherwise — a transaction never partially commits.
pub open spec fn visible_writes<W>(base: Seq<W>, tx_writes: Seq<W>, committed: bool) -> Seq<W> {
    if committed {
        base + tx_writes
    } else {
        base
    }
}

/// Law: a finished scope committed only if the commit action was issued —
/// which the machine does if and only if the body reported success — so a
/// failing body leaves none of its writes visible and a committed scope
/// leaves all of them visible; and a connection that was acquired and got
/// past acquisition was released, exactly once, as the last action.
pub proof fn lemma_transact_scope<W>(run: TransactRun, base: Seq<W>, tx_writes: Seq<W>)
    requires
        run.wf(),
        run.phase matches TxPhase::Done(_),
    ensures
        run.phase == TxPhase::Done(true) ==> run.issued@ =~= seq![
            TxAction::AcquireConnection,
            TxAction::BeginTransaction,
            TxAction::RunBody,
            TxAction::CommitTransaction,
            TxAction::ReleaseConnection,
        ] && visible_writes(base, tx_writes, true) == base + tx_writes,
        run.phase == TxPhase::Done(false) ==> visible_writes(base, tx_writes, false) == base,
        !run.issued@.contains(TxAction::CommitTransaction) ==> run.phase == TxPhase::Done(false),
        run.issued@.len() > 1 ==> run.issued@.last() == TxAction::ReleaseConnection
            && run.issued@.filter(|act: TxAction| act == TxAction::ReleaseConnection).len() == 1,
{
    let a = TxAction::AcquireConnection;
    let b = TxAction::BeginTransaction;
    let bo = TxAction::RunBody;
    let c = TxAction::CommitTransaction;
    let rel = TxAction::ReleaseConnection;
    if run.issued@ =~= seq![a] {
        assert(!run.issued@.contains(c));
    }
    if run.issued@.len() > 1 {
        reveal_with_fuel(Seq::filter, 6);
        if run.issued@ =~= seq![a, b, rel] {
            assert(run.issued@.filter(|act: TxAction| act == rel).len() == 1);
        } else if run.issued@ =~= seq![a, b, bo, rel] {
            assert(run.issued@.filter(|act: TxAction| act == rel).len() == 1);
        } else {
            assert(run.issued@ =~= seq![a, b, bo, c, rel]);
            assert(run.issued@.filter(|act: TxAction| act == rel).len() == 1);
        }
    }
}

} // verus!
