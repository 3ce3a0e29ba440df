use crate::classify::{classify, spec_classify, TrialResult, TrialResultV};
use crate::error::{MyError, MyErrorV};
use crate::failpoint::{
    first_only_directive, return_directive, spec_first_only_directive, spec_return_directive,
};
use crate::table::{
    lemma_row_new_wf, spec_datum_new, spec_datum_next, spec_datum_string, spec_row_literals,
    spec_row_new, spec_row_next, Datum, Table, TableV,
};
use crate::Effectiveness;
use vstd::prelude::*;

verus! {

/// The named workload variants of the registry.
#[derive(Clone, Copy, Debug, PartialEq, Eq, Structural)]
pub enum WorkloadKind {
    /// One plain insert, with the failpoint applied to every mutation.
    SingleInsertion,
    /// Two inserts inside one transaction, corrupting only the first.
    DoubleInsertion,
    /// Insert in one transaction, update it in a second.
    T2,
    /// Like T2, with a delete after the update.
    T3,
    /// Like T2, but corrupting the update instead of the insert.
    T4,
}

/// Which workload a registry name denotes.
pub open spec fn spec_find_workload(n: Seq<char>) -> Option<WorkloadKind> {
    if n == "single"@ {
        Some(WorkloadKind::SingleInsertion)
    } else if n == "double"@ {
        Some(WorkloadKind::DoubleInsertion)
    } else if n == "t2"@ {
        Some(WorkloadKind::T2)
    } else if n == "t3"@ {
        Some(WorkloadKind::T3)
    } else if n == "t4"@ {
        Some(WorkloadKind::T4)
    } else {
        None
    }
}

fn streq(a: &str, b: &str) -> (r: bool)
    ensures
        r == (a@ == b@),
{
    let sa = String::from_str(a);
    let sb = String::from_str(b);
    sa == sb
}

/// Looks a workload variant up by its registry name.
pub fn find_workload(name: &str) -> (r: Option<WorkloadKind>)
    ensures
        r == spec_find_workload(name@),
{
    if streq(name, "single") {
        Some(WorkloadKind::SingleInsertion)
    } else if streq(name, "double") {
        Some(WorkloadKind::DoubleInsertion)
    } else if streq(name, "t2") {
        Some(WorkloadKind::T2)
    } else if streq(name, "t3") {
        Some(WorkloadKind::T3)
    } else if streq(name, "t4") {
        Some(WorkloadKind::T4)
    } else {
        None
    }
}

/// The session statement that sets the target's mutation-checker flag.
pub open spec fn spec_set_mutation_checker(v: Seq<char>) -> Seq<char> {
    "set @@tidb_enable_mutation_checker = "@ + v
}

/// The session statement that sets the target's assertion level.
pub open spec fn spec_set_assertion_level(v: Seq<char>) -> Seq<char> {
    "set @@tidb_txn_assertion_level = "@ + v
}

/// Builds the mutation-checker session statement.
pub fn set_mutation_checker(v: &str) -> (r: String)
    ensures
        r@ == spec_set_mutation_checker(v@),
{
    let mut s = String::from_str("set @@tidb_enable_mutation_checker = ");
    s.append(v);
    s
}

/// Builds the assertion-level session statement.
pub fn set_assertion_level(v: &str) -> (r: String)
    ensures
        r@ == spec_set_assertion_level(v@),
{
    let mut s = String::from_str("set @@tidb_txn_assertion_level = ");
    s.append(v);
    s
}

/// The lower-case insert of the seed row.
pub open spec fn spec_insert_lower(t: TableV) -> Seq<char> {
    "insert into "@ + t.name + " values ("@ + spec_row_literals(spec_row_new(t.cols)) + ")"@
}

/// The upper-case insert of the seed row.
pub open spec fn spec_insert_upper(t: TableV) -> Seq<char> {
    "INSERT INTO "@ + t.name + " VALUES ("@ + spec_row_literals(spec_row_new(t.cols)) + ")"@
}

/// The upper-case insert of the seed row's successor.
pub open spec fn spec_insert_successor(t: TableV) -> Seq<char> {
    "INSERT INTO "@ + t.name + " VALUES ("@ + spec_row_literals(
        spec_row_next(spec_row_new(t.cols)),
    ) + ")"@
}

/// The update that moves the first column to its successor value, keyed on
/// the second column's seed value.
pub open spec fn spec_update_statement(t: TableV) -> Seq<char> {
    "UPDATE "@ + t.name + " SET "@ + t.cols[0].name + " = "@ + spec_datum_string(
        spec_datum_next(spec_row_new(t.cols)[0]),
    ) + " WHERE "@ + t.cols[1].name + " = "@ + spec_datum_string(spec_row_new(t.cols)[1])
}

/// The delete keyed on the first column's name and the second column's
/// seed value.
pub open spec fn spec_delete_statement(t: TableV) -> Seq<char> {
    "DELETE FROM "@ + t.name + " WHERE "@ + t.cols[0].name + " = "@ + spec_datum_string(
        spec_row_new(t.cols)[1],
    )
}

/// The vendor structural scan of the table.
pub open spec fn spec_admin_check_statement(t: TableV) -> Seq<char> {
    "admin check table "@ + t.name
}

fn insert_lower(t: &Table) -> (r: String)
    ensures
        r@ == spec_insert_lower(t@),
{
    proof {
        lemma_row_new_wf(t@.cols);
    }
    let row = t.new_row();
    let vals = row.to_string();
    let mut s = String::from_str("insert into ");
    s.append(t.name.as_str());
    s.append(" values (");
    s.append(vals.as_str());
    s.append(")");
    s
}

fn insert_upper(t: &Table) -> (r: String)
    ensures
        r@ == spec_insert_upper(t@),
{
    proof {
        lemma_row_new_wf(t@.cols);
    }
    let row = t.new_row();
    let vals = row.to_string();
    let mut s = String::from_str("INSERT INTO ");
    s.append(t.name.as_str());
    s.append(" VALUES (");
    s.append(vals.as_str());
    s.append(")");
    s
}

fn insert_successor(t: &Table) -> (r: String)
    ensures
        r@ == spec_insert_successor(t@),
{
    proof {
        lemma_row_new_wf(t@.cols);
    }
    let row = t.new_row();
    let succ = row.next();
    let vals = succ.to_string();
    let mut s = String::from_str("INSERT INTO ");
    s.append(t.name.as_str());
    s.append(" VALUES (");
    s.append(vals.as_str());
    s.append(")");
    s
}

fn update_statement(t: &Table) -> (r: String)
    requires
        t@.cols.len() == 2,
    ensures
        r@ == spec_update_statement(t@),
{
    proof {
        lemma_row_new_wf(t@.cols);
        assert(spec_row_new(t@.cols)[0] == spec_datum_new(t@.cols[0].column_type));
        assert(spec_row_new(t@.cols)[1] == spec_datum_new(t@.cols[1].column_type));
        assert(t@.cols[0] == t.cols@[0]@);
        assert(t@.cols[1] == t.cols@[1]@);
    }
    let d0 = Datum::new(&t.cols[0].column_type);
    let d0n = d0.next();
    let v0 = d0n.to_string();
    let d1 = Datum::new(&t.cols[1].column_type);
    let v1 = d1.to_string();
    let mut s = String::from_str("UPDATE ");
    s.append(t.name.as_str());
    s.append(" SET ");
    s.append(t.cols[0].name.as_str());
    s.append(" = ");
    s.append(v0.as_str());
    s.append(" WHERE ");
    s.append(t.cols[1].name.as_str());
    s.append(" = ");
    s.append(v1.as_str());
    s
}

fn delete_statement(t: &Table) -> (r: String)
    requires
        t@.cols.len() == 2,
    ensures
        r@ == spec_delete_statement(t@),
{
    proof {
        lemma_row_new_wf(t@.cols);
        assert(spec_row_new(t@.cols)[1] == spec_datum_new(t@.cols[1].column_type));
        assert(t@.cols[0] == t.cols@[0]@);
        assert(t@.cols[1] == t.cols@[1]@);
    }
    let d1 = Datum::new(&t.cols[1].column_type);
    let v1 = d1.to_string();
    let mut s = String::from_str("DELETE FROM ");
    s.append(t.name.as_str());
    s.append(" WHERE ");
    s.append(t.cols[0].name.as_str());
    s.append(" = ");
    s.append(v1.as_str());
    s
}

fn admin_check_statement(t: &Table) -> (r: String)
    ensures
        r@ == spec_admin_check_statement(t@),
{
    let mut s = String::from_str("admin check table ");
    s.append(t.name.as_str());
    s
}

/// One step of a trial's plan: toggling the failpoint on, or sending one
/// SQL statement.
#[derive(Debug)]
pub enum TrialOp {
    /// Enable the failpoint with this directive value.
    Enable { value: String },
    /// Send this SQL statement.
    Sql { query: String },
}

/// Mathematical value of a `TrialOp`.
pub ghost enum TrialOpV {
    Enable { value: Seq<char> },
    Sql { query: Seq<char> },
}

impl View for TrialOp {
    type V = TrialOpV;

    open spec fn view(&self) -> TrialOpV {
        match self {
            TrialOp::Enable { value } => TrialOpV::Enable { value: value@ },
            TrialOp::Sql { query } => TrialOpV::Sql { query: query@ },
        }
    }
}

/// The fixed plan a workload variant runs for one (table, injection) pair.
/// The corrupting window uses the next-invocation-only directive wherever
/// the variant issues two logically related writes, keeping the second
/// write as an uncorrupted control signal.
pub open spec fn spec_trial_ops(w: WorkloadKind, t: TableV, injection: Seq<char>) -> Seq<
    TrialOpV,
> {
    match w {
        WorkloadKind::SingleInsertion => seq![
            TrialOpV::Enable { value: spec_return_directive(injection) },
            TrialOpV::Sql { query: spec_insert_lower(t) },
        ],
        WorkloadKind::DoubleInsertion => seq![
            TrialOpV::Enable { value: spec_first_only_directive(injection) },
            TrialOpV::Sql { query: "BEGIN OPTIMISTIC"@ },
            TrialOpV::Sql { query: spec_insert_upper(t) },
            TrialOpV::Sql { query: spec_insert_successor(t) },
            TrialOpV::Sql { query: "COMMIT"@ },
        ],
        WorkloadKind::T2 => seq![
            TrialOpV::Enable { value: spec_first_only_directive(injection) },
            TrialOpV::Sql { query: "begin optimistic"@ },
            TrialOpV::Sql { query: spec_insert_upper(t) },
            TrialOpV::Sql { query: "commit"@ },
            TrialOpV::Sql { query: "begin optimistic"@ },
            TrialOpV::Sql { query: spec_update_statement(t) },
            TrialOpV::Sql { query: "commit"@ },
        ],
        WorkloadKind::T3 => seq![
            TrialOpV::Enable { value: spec_first_only_directive(injection) },
            TrialOpV::Sql { query: "begin optimistic"@ },
            TrialOpV::Sql { query: spec_insert_upper(t) },
            TrialOpV::Sql { query: "commit"@ },
            TrialOpV::Sql { query: "begin optimistic"@ },
            TrialOpV::Sql { query: spec_update_statement(t) },
            TrialOpV::Sql { query: spec_delete_statement(t) },
            TrialOpV::Sql { query: "commit"@ },
        ],
        WorkloadKind::T4 => seq![
            TrialOpV::Sql { query: "begin optimistic"@ },
            TrialOpV::Sql { query: spec_insert_upper(t) },
            TrialOpV::Sql { query: "commit"@ },
            TrialOpV::Sql { query: "begin optimistic"@ },
            TrialOpV::Enable { value: spec_first_only_directive(injection) },
            TrialOpV::Sql { query: spec_update_statement(t) },
            TrialOpV::Sql { query: "commit"@ },
        ],
    }
}

/// The rollback text a variant issues after a statement failure.
pub open spec fn spec_rollback_statement(w: WorkloadKind) -> Seq<char> {
    match w {
        WorkloadKind::DoubleInsertion => "ROLLBACK"@,
        _ => "rollback"@,
    }
}

/// Whether a failed statement is followed by an explicit rollback; the
/// single-insert variant runs outside an explicit transaction.
pub open spec fn spec_rollback_on_error(w: WorkloadKind) -> bool {
    w != WorkloadKind::SingleInsertion
}

fn trial_ops(w: &WorkloadKind, table: &Table, injection: &str) -> (r: Vec<TrialOp>)
    requires
        table@.cols.len() == 2,
    ensures
        r@.len() == spec_trial_ops(*w, table@, injection@).len(),
        forall|i: int|
            0 <= i < r@.len() ==> r@[i]@ == spec_trial_ops(*w, table@, injection@)[i],
{
    let mut ops: Vec<TrialOp> = Vec::new();
    match w {
        WorkloadKind::SingleInsertion => {
            ops.push(TrialOp::Enable { value: return_directive(injection) });
            ops.push(TrialOp::Sql { query: insert_lower(table) });
        },
        WorkloadKind::DoubleInsertion => {
            ops.push(TrialOp::Enable { value: first_only_directive(injection) });
            ops.push(TrialOp::Sql { query: String::from_str("BEGIN OPTIMISTIC") });
            ops.push(TrialOp::Sql { query: insert_upper(table) });
            ops.push(TrialOp::Sql { query: insert_successor(table) });
            ops.push(TrialOp::Sql { query: String::from_str("COMMIT") });
        },
        WorkloadKind::T2 => {
            ops.push(TrialOp::Enable { value: first_only_directive(injection) });
            ops.push(TrialOp::Sql { query: String::from_str("begin optimistic") });
            ops.push(TrialOp::Sql { query: insert_upper(table) });
            ops.push(TrialOp::Sql { query: String::from_str("commit") });
            ops.push(TrialOp::Sql { query: String::from_str("begin optimistic") });
            ops.push(TrialOp::Sql { query: update_statement(table) });
            ops.push(TrialOp::Sql { query: String::from_str("commit") });
        },
        WorkloadKind::T3 => {
            ops.push(TrialOp::Enable { value: first_only_directive(injection) });
            ops.push(TrialOp::Sql { query: String::from_str("begin optimistic") });
            ops.push(TrialOp::Sql { query: insert_upper(table) });
            ops.push(TrialOp::Sql { query: String::from_str("commit") });
            ops.push(TrialOp::Sql { query: String::from_str("begin optimistic") });
            ops.push(TrialOp::Sql { query: update_statement(table) });
            ops.push(TrialOp::Sql { query: delete_statement(table) });
            ops.push(TrialOp::Sql { query: String::from_str("commit") });
        },
        WorkloadKind::T4 => {
            ops.push(TrialOp::Sql { query: String::from_str("begin optimistic") });
            ops.push(TrialOp::Sql { query: insert_upper(table) });
            ops.push(TrialOp::Sql { query: String::from_str("commit") });
            ops.push(TrialOp::Sql { query: String::from_str("begin optimistic") });
            ops.push(TrialOp::Enable { value: first_only_directive(injection) });
            ops.push(TrialOp::Sql { query: update_statement(table) });
            ops.push(TrialOp::Sql { query: String::from_str("commit") });
        },
    }
    ops
}

/// What the driver must do next on behalf of a trial.
#[derive(Debug)]
pub enum TrialAction {
    /// Send an HTTP PUT enabling the failpoint with this directive.
    EnableFailpoint { value: String },
    /// Send this SQL statement on the table's connection.
    Execute { query: String },
    /// Send an HTTP DELETE disabling the failpoint.
    DisableFailpoint,
    /// The trial is over; read its outcome.
    Finished,
}

/// Mathematical value of a `TrialAction`.
pub ghost enum TrialActionV {
    EnableFailpoint { value: Seq<char> },
    Execute { query: Seq<char> },
    DisableFailpoint,
    Finished,
}

impl View for TrialAction {
    type V = TrialActionV;

    open spec fn view(&self) -> TrialActionV {
        match self {
            TrialAction::EnableFailpoint { value } => TrialActionV::EnableFailpoint {
                value: value@,
            },
            TrialAction::Execute { query } => TrialActionV::Execute { query: query@ },
            TrialAction::DisableFailpoint => TrialActionV::DisableFailpoint,
            TrialAction::Finished => TrialActionV::Finished,
        }
    }
}

/// What the last action came back with: success, or an error text.
#[derive(Debug)]
pub enum StepEvent {
    Succeeded,
    Failed { error: String },
}

/// Mathematical value of a `StepEvent`.
pub ghost enum StepEventV {
    Succeeded,
    Failed { error: Seq<char> },
}

impl View for StepEvent {
    type V = StepEventV;

    open spec fn view(&self) -> StepEventV {
        match self {
            StepEvent::Succeeded => StepEventV::Succeeded,
            StepEvent::Failed { error } => StepEventV::Failed { error: error@ },
        }
    }
}

/// How a trial ended: with a classification to record, or with an error
/// that abandons the table.
#[derive(Debug)]
pub enum TrialOutcome {
    /// The trial ran to classification.
    Recorded { effectiveness: Effectiveness },
    /// A control call or the rollback itself failed.
    Fault { error: MyError },
}

/// Mathematical value of a `TrialOutcome`.
pub ghost enum TrialOutcomeV {
    Recorded { effectiveness: Effectiveness },
    Fault { error: MyErrorV },
}

impl View for TrialOutcome {
    type V = TrialOutcomeV;

    open spec fn view(&self) -> TrialOutcomeV {
        match self {
            TrialOutcome::Recorded { effectiveness } => TrialOutcomeV::Recorded {
                effectiveness: *effectiveness,
            },
            TrialOutcome::Fault { error } => TrialOutcomeV::Fault { error: error@ },
        }
    }
}

/// Where a trial stands between two driver actions.
#[derive(Debug)]
pub enum TrialPhase {
    /// Working through the plan's operations.
    Running,
    /// A statement failed; the explicit rollback is on the wire.
    RollingBack { error: String },
    /// The plan succeeded; the structural re-check is on the wire.
    Checking,
    /// Classified; the failpoint disable is on the wire.
    Disabling { effectiveness: Effectiveness },
    /// Terminal.
    Done { outcome: TrialOutcome },
}

/// Mathematical value of a `TrialPhase`.
pub ghost enum TrialPhaseV {
    Running,
    RollingBack { error: Seq<char> },
    Checking,
    Disabling { effectiveness: Effectiveness },
    Done { outcome: TrialOutcomeV },
}

impl View for TrialPhase {
    type V = TrialPhaseV;

    open spec fn view(&self) -> TrialPhaseV {
        match self {
            TrialPhase::Running => TrialPhaseV::Running,
            TrialPhase::RollingBack { error } => TrialPhaseV::RollingBack { error: error@ },
            TrialPhase::Checking => TrialPhaseV::Checking,
            TrialPhase::Disabling { effectiveness } => TrialPhaseV::Disabling {
                effectiveness: *effectiveness,
            },
            TrialPhase::Done { outcome } => TrialPhaseV::Done { outcome: outcome@ },
        }
    }
}

/// Mathematical state of a `Trial`.
pub ghost struct TrialV {
    pub ops: Seq<TrialOpV>,
    pub pos: int,
    pub rollback_statement: Seq<char>,
    pub rollback_on_error: bool,
    pub admin_check: Seq<char>,
    pub phase: TrialPhaseV,
}

/// The state-machine core of one (table, injection) trial.  The driver
/// alternates `next_action` and `step`, performing each action and handing
/// back what it came back with; every decision in between is made here.
#[derive(Debug)]
pub struct Trial {
    ops: Vec<TrialOp>,
    pos: usize,
    rollback_statement: String,
    rollback_on_error: bool,
    admin_check: String,
    phase: TrialPhase,
}

impl View for Trial {
    type V = TrialV;

    closed spec fn view(&self) -> TrialV {
        TrialV {
            ops: Seq::new(self.ops@.len(), |i: int| self.ops@[i]@),
            pos: self.pos as int,
            rollback_statement: self.rollback_statement@,
            rollback_on_error: self.rollback_on_error,
            admin_check: self.admin_check@,
            phase: self.phase@,
        }
    }
}

/// The trial's structural invariant.
pub open spec fn spec_trial_wf(s: TrialV) -> bool {
    &&& 0 <= s.pos <= s.ops.len()
    &&& (s.phase is Running ==> s.pos < s.ops.len())
}

/// A fresh trial for the given workload, table and injection.
pub open spec fn spec_trial_init(w: WorkloadKind, t: TableV, injection: Seq<char>) -> TrialV {
    TrialV {
        ops: spec_trial_ops(w, t, injection),
        pos: 0,
        rollback_statement: spec_rollback_statement(w),
        rollback_on_error: spec_rollback_on_error(w),
        admin_check: spec_admin_check_statement(t),
        phase: TrialPhaseV::Running,
    }
}

/// The action a trial asks of the driver in each phase.
pub open spec fn spec_next_action(s: TrialV) -> TrialActionV {
    match s.phase {
        TrialPhaseV::Running => match s.ops[s.pos] {
            TrialOpV::Enable { value } => TrialActionV::EnableFailpoint { value },
            TrialOpV::Sql { query } => TrialActionV::Execute { query },
        },
        TrialPhaseV::Checking => TrialActionV::Execute { query: s.admin_check },
        TrialPhaseV::RollingBack { .. } => TrialActionV::Execute {
            query: s.rollback_statement,
        },
        TrialPhaseV::Disabling { .. } => TrialActionV::DisableFailpoint,
        TrialPhaseV::Done { .. } => TrialActionV::Finished,
    }
}

/// The trial's transition relation.  A statement failure aborts the rest of
/// the plan, rolls back where the variant runs a transaction, and routes
/// the error into classification; a failed control call or a failed
/// rollback ends the trial with a fault; a completed plan is judged by the
/// structural re-check; and every path disables the failpoint before the
/// trial ends normally.
pub open spec fn spec_trial_step(s: TrialV, ev: StepEventV) -> TrialV {
    match s.phase {
        TrialPhaseV::Running => match ev {
            StepEventV::Succeeded => TrialV {
                pos: s.pos + 1,
                phase: if s.pos + 1 == s.ops.len() {
                    TrialPhaseV::Checking
                } else {
                    TrialPhaseV::Running
                },
                ..s
            },
            StepEventV::Failed { error } => match s.ops[s.pos] {
                TrialOpV::Enable { .. } => TrialV {
                    phase: TrialPhaseV::Done {
                        outcome: TrialOutcomeV::Fault {
                            error: MyErrorV::FaultInjection(error),
                        },
                    },
                    ..s
                },
                TrialOpV::Sql { .. } => {
                    if s.rollback_on_error {
                        TrialV { phase: TrialPhaseV::RollingBack { error }, ..s }
                    } else {
                        TrialV {
                            phase: TrialPhaseV::Disabling {
                                effectiveness: spec_classify(TrialResultV::Failed { error }),
                            },
                            ..s
                        }
                    }
                },
            },
        },
        TrialPhaseV::Checking => match ev {
            StepEventV::Succeeded => TrialV {
                phase: TrialPhaseV::Disabling { effectiveness: Effectiveness::Consistent },
                ..s
            },
            StepEventV::Failed { .. } => TrialV {
                phase: TrialPhaseV::Disabling { effectiveness: Effectiveness::Failure },
                ..s
            },
        },
        TrialPhaseV::RollingBack { error } => match ev {
            StepEventV::Succeeded => TrialV {
                phase: TrialPhaseV::Disabling {
                    effectiveness: spec_classify(TrialResultV::Failed { error }),
                },
                ..s
            },
            StepEventV::Failed { error: rollback_error } => TrialV {
                phase: TrialPhaseV::Done {
                    outcome: TrialOutcomeV::Fault {
                        error: MyErrorV::Statement(rollback_error),
                    },
                },
                ..s
            },
        },
        TrialPhaseV::Disabling { effectiveness } => match ev {
            StepEventV::Succeeded => TrialV {
                phase: TrialPhaseV::Done {
                    outcome: TrialOutcomeV::Recorded { effectiveness },
                },
                ..s
            },
            StepEventV::Failed { error } => TrialV {
                phase: TrialPhaseV::Done {
                    outcome: TrialOutcomeV::Fault {
                        error: MyErrorV::FaultInjection(error),
                    },
                },
                ..s
            },
        },
        TrialPhaseV::Done { .. } => s,
    }
}

/// A measure that strictly shrinks with every step, so a driver loop over
/// the trial terminates.
pub open spec fn spec_trial_measure(s: TrialV) -> int {
    4 * (s.ops.len() - s.pos) + match s.phase {
        TrialPhaseV::Running => 4int,
        TrialPhaseV::Checking => 3int,
        TrialPhaseV::RollingBack { .. } => 3int,
        TrialPhaseV::Disabling { .. } => 2int,
        TrialPhaseV::Done { .. } => 0int,
    }
}

impl Trial {
    /// A fresh trial for the given workload, table and injection.
    pub fn new(w: &WorkloadKind, table: &Table, injection: &str) -> (r: Trial)
        requires
            table@.cols.len() == 2,
        ensures
            r@ == spec_trial_init(*w, table@, injection@),
            spec_trial_wf(r@),
            !(r@.phase is Done),
    {
        let ops = trial_ops(w, table, injection);
        let rollback_statement = match w {
            WorkloadKind::DoubleInsertion => String::from_str("ROLLBACK"),
            _ => String::from_str("rollback"),
        };
        let rollback_on_error = !matches!(w, WorkloadKind::SingleInsertion);
        let admin_check = admin_check_statement(table);
        let r = Trial {
            ops,
            pos: 0,
            rollback_statement,
            rollback_on_error,
            admin_check,
            phase: TrialPhase::Running,
        };
        proof {
            assert(r@.ops =~= spec_trial_ops(*w, table@, injection@));
        }
        r
    }

    /// Whether the trial has reached its terminal phase.
    pub fn is_done(&self) -> (r: bool)
        ensures
            r == (self@.phase is Done),
    {
        matches!(self.phase, TrialPhase::Done { .. })
    }

    /// The terminal outcome.
    pub fn outcome(&self) -> (r: &TrialOutcome)
        requires
            self@.phase is Done,
        ensures
            self@.phase == (TrialPhaseV::Done { outcome: r@ }),
    {
        match &self.phase {
            TrialPhase::Done { outcome } => outcome,
            _ => vstd::pervasive::unreached(),
        }
    }

    /// The terminal outcome, by value.
    pub fn into_outcome(self) -> (r: TrialOutcome)
        requires
            self@.phase is Done,
        ensures
            self@.phase == (TrialPhaseV::Done { outcome: r@ }),
    {
        match self.phase {
            TrialPhase::Done { outcome } => outcome,
            _ => vstd::pervasive::unreached(),
        }
    }

    /// The action the driver must perform next.
    pub fn next_action(&self) -> (a: TrialAction)
        requires
            spec_trial_wf(self@),
        ensures
            a@ == spec_next_action(self@),
    {
        match &self.phase {
            TrialPhase::Running => match &self.ops[self.pos] {
                TrialOp::Enable { value } => TrialAction::EnableFailpoint {
                    value: value.clone(),
                },
                TrialOp::Sql { query } => TrialAction::Execute { query: query.clone() },
            },
            TrialPhase::Checking => TrialAction::Execute { query: self.admin_check.clone() },
            TrialPhase::RollingBack { .. } => TrialAction::Execute {
                query: self.rollback_statement.clone(),
            },
            TrialPhase::Disabling { .. } => TrialAction::DisableFailpoint,
            TrialPhase::Done { .. } => TrialAction::Finished,
        }
    }

    /// Feeds back what the last action came back with and advances the
    /// machine by exactly one transition.
    pub fn step(&mut self, ev: StepEvent)
        requires
            spec_trial_wf(old(self)@),
            !(old(self)@.phase is Done),
        ensures
            final(self)@ == spec_trial_step(old(self)@, ev@),
            spec_trial_wf(final(self)@),
            spec_trial_measure(final(self)@) < spec_trial_measure(old(self)@),
    {
        let mut ph = TrialPhase::Checking;
        core::mem::swap(&mut ph, &mut self.phase);
        match ph {
            TrialPhase::Running => match ev {
                StepEvent::Succeeded => {
                    let n = self.ops.len();
                    proof {
                        assert(old(self)@.phase is Running);
                        assert(self.pos < n);
                    }
                    self.pos = self.pos + 1;
                    if self.pos == n {
                        self.phase = TrialPhase::Checking;
                    } else {
                        self.phase = TrialPhase::Running;
                    }
                },
                StepEvent::Failed { error } => {
                    proof {
                        assert(old(self)@.phase is Running);
                        assert(self.pos < self.ops@.len());
                    }
                    let is_enable = matches!(&self.ops[self.pos], TrialOp::Enable { .. });
                    if is_enable {
                        self.phase = TrialPhase::Done {
                            outcome: TrialOutcome::Fault {
                                error: MyError::FaultInjection(error),
                            },
                        };
                    } else if self.rollback_on_error {
                        self.phase = TrialPhase::RollingBack { error };
                    } else {
                        let eff = classify(&TrialResult::Failed { error });
                        self.phase = TrialPhase::Disabling { effectiveness: eff };
                    }
                },
            },
            TrialPhase::Checking => match ev {
                StepEvent::Succeeded => {
                    self.phase = TrialPhase::Disabling {
                        effectiveness: Effectiveness::Consistent,
                    };
                },
                StepEvent::Failed { .. } => {
                    self.phase = TrialPhase::Disabling {
                        effectiveness: Effectiveness::Failure,
                    };
                },
            },
            TrialPhase::RollingBack { error } => match ev {
                StepEvent::Succeeded => {
                    let eff = classify(&TrialResult::Failed { error });
                    self.phase = TrialPhase::Disabling { effectiveness: eff };
                },
                StepEvent::Failed { error: rollback_error } => {
                    self.phase = TrialPhase::Done {
                        outcome: TrialOutcome::Fault {
                            error: MyError::Statement(rollback_error),
                        },
                    };
                },
            },
            TrialPhase::Disabling { effectiveness } => match ev {
                StepEvent::Succeeded => {
                    self.phase = TrialPhase::Done {
                        outcome: TrialOutcome::Recorded { effectiveness },
                    };
                },
                StepEvent::Failed { error } => {
                    self.phase = TrialPhase::Done {
                        outcome: TrialOutcome::Fault {
                            error: MyError::FaultInjection(error),
                        },
                    };
                },
            },
            TrialPhase::Done { outcome } => {
                self.phase = TrialPhase::Done { outcome };
            },
        }
    }
}

/// A trial records a classification only right after the disable call
/// succeeded: no trial ends normally with the failpoint still enabled.
pub proof fn lemma_recorded_only_after_disable(s: TrialV, ev: StepEventV)
    requires
        spec_trial_wf(s),
        !(s.phase is Done),
        spec_trial_step(s, ev).phase matches TrialPhaseV::Done {
            outcome: TrialOutcomeV::Recorded { .. },
        },
    ensures
        s.phase is Disabling,
        ev is Succeeded,
{
}

/// One classification a table run produced, keyed by injection name.
#[derive(Debug)]
pub struct RunRecord {
    pub injection: String,
    pub effectiveness: Effectiveness,
}

/// Mathematical value of a `RunRecord`.
pub ghost struct RunRecordV {
    pub injection: Seq<char>,
    pub effectiveness: Effectiveness,
}

impl View for RunRecord {
    type V = RunRecordV;

    open spec fn view(&self) -> RunRecordV {
        RunRecordV { injection: self.injection@, effectiveness: self.effectiveness }
    }
}

/// Where a table run stands between two driver actions.
#[derive(Debug)]
pub enum RunPhase {
    /// The mutation-checker session flag is on the wire.
    SettingMutationChecker,
    /// The assertion-level session setting is on the wire.
    SettingAssertionLevel,
    /// The table's DROP is on the wire.
    Dropping,
    /// The table's CREATE is on the wire.
    Creating,
    /// One injection's trial is in progress.
    InTrial { trial: Trial },
    /// Terminal; `fatal` carries the error that stopped the run early.
    Done { fatal: Option<MyError> },
}

/// Mathematical value of a `RunPhase`.
pub ghost enum RunPhaseV {
    SettingMutationChecker,
    SettingAssertionLevel,
    Dropping,
    Creating,
    InTrial { trial: TrialV },
    Done { fatal: Option<MyErrorV> },
}

impl View for RunPhase {
    type V = RunPhaseV;

    open spec fn view(&self) -> RunPhaseV {
        match self {
            RunPhase::SettingMutationChecker => RunPhaseV::SettingMutationChecker,
            RunPhase::SettingAssertionLevel => RunPhaseV::SettingAssertionLevel,
            RunPhase::Dropping => RunPhaseV::Dropping,
            RunPhase::Creating => RunPhaseV::Creating,
            RunPhase::InTrial { trial } => RunPhaseV::InTrial { trial: trial@ },
            RunPhase::Done { fatal } => RunPhaseV::Done {
                fatal: match fatal {
                    Some(e) => Some(e@),
                    None => None,
                },
            },
        }
    }
}

/// Mathematical state of a `TableRun`.
pub ghost struct TableRunV {
    pub workload: WorkloadKind,
    pub table: TableV,
    pub mutation_checker_statement: Seq<char>,
    pub assertion_statement: Seq<char>,
    pub injections: Seq<Seq<char>>,
    pub idx: int,
    pub recorded: Seq<RunRecordV>,
    pub phase: RunPhaseV,
}

/// The engine that takes one table through the whole fixed sequence:
/// session toggles and CREATE/DROP once per table, then one trial per
/// injection kind, recording each trial's classification.
#[derive(Debug)]
pub struct TableRun {
    workload: WorkloadKind,
    table: Table,
    mutation_checker_statement: String,
    assertion_statement: String,
    injections: Vec<String>,
    idx: usize,
    recorded: Vec<RunRecord>,
    phase: RunPhase,
}

impl View for TableRun {
    type V = TableRunV;

    closed spec fn view(&self) -> TableRunV {
        TableRunV {
            workload: self.workload,
            table: self.table@,
            mutation_checker_statement: self.mutation_checker_statement@,
            assertion_statement: self.assertion_statement@,
            injections: Seq::new(self.injections@.len(), |i: int| self.injections@[i]@),
            idx: self.idx as int,
            recorded: Seq::new(self.recorded@.len(), |i: int| self.recorded@[i]@),
            phase: self.phase@,
        }
    }
}

/// The longest plan any variant runs.
pub open spec fn spec_max_plan_len() -> int {
    8
}

/// The table run's structural invariant: the indices stay in range, every
/// record so far is keyed by the injection of its turn, and during a trial
/// the trial itself is well formed, live, and sized by its variant's plan.
pub open spec fn spec_run_wf(s: TableRunV) -> bool {
    &&& s.table.cols.len() == 2
    &&& s.injections == crate::spec_injections()
    &&& 0 <= s.idx <= crate::spec_injections().len()
    &&& s.recorded.len() <= crate::spec_injections().len()
    &&& forall|k: int|
        0 <= k < s.recorded.len() ==> (#[trigger] s.recorded[k]).injection
            == crate::spec_injections()[k]
    &&& (s.phase matches RunPhaseV::InTrial { trial } ==> {
        &&& s.idx < crate::spec_injections().len()
        &&& s.recorded.len() == s.idx
        &&& spec_trial_wf(trial)
        &&& !(trial.phase is Done)
        &&& trial.ops.len() <= spec_max_plan_len()
    })
    &&& ((s.phase is SettingMutationChecker || s.phase is SettingAssertionLevel || s.phase
        is Dropping || s.phase is Creating) ==> s.idx == 0 && s.recorded.len() == 0)
}

/// A fresh run of the given workload over the given table.
pub open spec fn spec_run_init(
    w: WorkloadKind,
    t: TableV,
    mutation_checker: Seq<char>,
    assertion: Seq<char>,
) -> TableRunV {
    TableRunV {
        workload: w,
        table: t,
        mutation_checker_statement: spec_set_mutation_checker(mutation_checker),
        assertion_statement: spec_set_assertion_level(assertion),
        injections: crate::spec_injections(),
        idx: 0,
        recorded: Seq::empty(),
        phase: RunPhaseV::SettingMutationChecker,
    }
}

/// The action a table run asks of the driver in each phase.
pub open spec fn spec_run_next_action(s: TableRunV) -> TrialActionV {
    match s.phase {
        RunPhaseV::SettingMutationChecker => TrialActionV::Execute {
            query: s.mutation_checker_statement,
        },
        RunPhaseV::SettingAssertionLevel => TrialActionV::Execute {
            query: s.assertion_statement,
        },
        RunPhaseV::Dropping => TrialActionV::Execute {
            query: crate::table::spec_drop_statement(s.table),
        },
        RunPhaseV::Creating => TrialActionV::Execute {
            query: crate::table::spec_create_statement(s.table),
        },
        RunPhaseV::InTrial { trial } => spec_next_action(trial),
        RunPhaseV::Done { .. } => TrialActionV::Finished,
    }
}

/// The table run's transition relation.  Session toggles and DDL failures
/// are fatal; a finished trial's classification is recorded under its
/// injection, the next injection's trial starts, and a trial fault ends
/// the run with that error.
pub open spec fn spec_run_step(s: TableRunV, ev: StepEventV) -> TableRunV {
    match s.phase {
        RunPhaseV::SettingMutationChecker => match ev {
            StepEventV::Succeeded => TableRunV { phase: RunPhaseV::SettingAssertionLevel, ..s },
            StepEventV::Failed { error } => TableRunV {
                phase: RunPhaseV::Done { fatal: Some(MyErrorV::Setup(error)) },
                ..s
            },
        },
        RunPhaseV::SettingAssertionLevel => match ev {
            StepEventV::Succeeded => TableRunV { phase: RunPhaseV::Dropping, ..s },
            StepEventV::Failed { error } => TableRunV {
                phase: RunPhaseV::Done { fatal: Some(MyErrorV::Setup(error)) },
                ..s
            },
        },
        RunPhaseV::Dropping => match ev {
            StepEventV::Succeeded => TableRunV { phase: RunPhaseV::Creating, ..s },
            StepEventV::Failed { error } => TableRunV {
                phase: RunPhaseV::Done { fatal: Some(MyErrorV::Setup(error)) },
                ..s
            },
        },
        RunPhaseV::Creating => match ev {
            StepEventV::Succeeded => TableRunV {
                phase: RunPhaseV::InTrial {
                    trial: spec_trial_init(s.workload, s.table, crate::spec_injections()[0]),
                },
                ..s
            },
            StepEventV::Failed { error } => TableRunV {
                phase: RunPhaseV::Done { fatal: Some(MyErrorV::Setup(error)) },
                ..s
            },
        },
        RunPhaseV::InTrial { trial } => {
            let stepped = spec_trial_step(trial, ev);
            match stepped.phase {
                TrialPhaseV::Done { outcome } => match outcome {
                    TrialOutcomeV::Recorded { effectiveness } => {
                        let rec = s.recorded.push(
                            RunRecordV {
                                injection: crate::spec_injections()[s.idx],
                                effectiveness,
                            },
                        );
                        if s.idx + 1 < crate::spec_injections().len() {
                            TableRunV {
                                idx: s.idx + 1,
                                recorded: rec,
                                phase: RunPhaseV::InTrial {
                                    trial: spec_trial_init(
                                        s.workload,
                                        s.table,
                                        crate::spec_injections()[s.idx + 1],
                                    ),
                                },
                                ..s
                            }
                        } else {
                            TableRunV {
                                idx: s.idx + 1,
                                recorded: rec,
                                phase: RunPhaseV::Done { fatal: None },
                                ..s
                            }
                        }
                    },
                    TrialOutcomeV::Fault { error } => TableRunV {
                        phase: RunPhaseV::Done { fatal: Some(error) },
                        ..s
                    },
                },
                _ => TableRunV { phase: RunPhaseV::InTrial { trial: stepped }, ..s },
            }
        },
        RunPhaseV::Done { .. } => s,
    }
}

/// A measure that strictly shrinks with every step, so a driver loop over
/// the run terminates.
pub open spec fn spec_run_measure(s: TableRunV) -> int {
    match s.phase {
        RunPhaseV::SettingMutationChecker => 300int,
        RunPhaseV::SettingAssertionLevel => 299int,
        RunPhaseV::Dropping => 298int,
        RunPhaseV::Creating => 297int,
        RunPhaseV::InTrial { trial } => (crate::spec_injections().len() - s.idx) * 50
            + spec_trial_measure(trial),
        RunPhaseV::Done { .. } => 0int,
    }
}

proof fn lemma_plan_len(w: WorkloadKind, t: TableV, injection: Seq<char>)
    ensures
        0 < spec_trial_ops(w, t, injection).len() <= spec_max_plan_len(),
{
}

impl TableRun {
    /// A fresh run of the given workload over the given table, with the
    /// session toggles built from the configured values.
    pub fn new(w: &WorkloadKind, table: Table, mutation_checker: &str, assertion: &str) -> (r:
        TableRun)
        requires
            table@.cols.len() == 2,
        ensures
            r@ == spec_run_init(*w, table@, mutation_checker@, assertion@),
            spec_run_wf(r@),
            !(r@.phase is Done),
    {
        let mut injections: Vec<String> = Vec::new();
        injections.push(String::from_str("extraIndex"));
        injections.push(String::from_str("missingIndex"));
        injections.push(String::from_str("corruptIndexKey"));
        injections.push(String::from_str("corruptIndexValue"));
        let r = TableRun {
            workload: *w,
            table,
            mutation_checker_statement: set_mutation_checker(mutation_checker),
            assertion_statement: set_assertion_level(assertion),
            injections,
            idx: 0,
            recorded: Vec::new(),
            phase: RunPhase::SettingMutationChecker,
        };
        proof {
            assert(r@.recorded =~= Seq::<RunRecordV>::empty());
            assert(r@.injections =~~= crate::spec_injections());
        }
        r
    }

    /// Whether the run has reached its terminal phase.
    pub fn is_done(&self) -> (r: bool)
        ensures
            r == (self@.phase is Done),
    {
        matches!(self.phase, RunPhase::Done { .. })
    }

    /// The error that ended the run early, if any.
    pub fn fatal(&self) -> (r: Option<&MyError>)
        requires
            self@.phase is Done,
        ensures
            self@.phase matches RunPhaseV::Done { fatal } ==> {
                &&& (r is Some) == (fatal is Some)
                &&& (r matches Some(e) ==> fatal == Some(e@))
            },
    {
        match &self.phase {
            RunPhase::Done { fatal } => match fatal {
                Some(e) => Some(e),
                None => None,
            },
            _ => vstd::pervasive::unreached(),
        }
    }

    /// The classifications recorded so far, in injection order.
    pub fn records(&self) -> (r: &Vec<RunRecord>)
        ensures
            r@.len() == self@.recorded.len(),
            forall|k: int| 0 <= k < r@.len() ==> r@[k]@ == self@.recorded[k],
    {
        &self.recorded
    }

    /// The action the driver must perform next.
    pub fn next_action(&self) -> (a: TrialAction)
        requires
            spec_run_wf(self@),
        ensures
            a@ == spec_run_next_action(self@),
    {
        match &self.phase {
            RunPhase::SettingMutationChecker => TrialAction::Execute {
                query: self.mutation_checker_statement.clone(),
            },
            RunPhase::SettingAssertionLevel => TrialAction::Execute {
                query: self.assertion_statement.clone(),
            },
            RunPhase::Dropping => TrialAction::Execute { query: self.table.drop_statement() },
            RunPhase::Creating => TrialAction::Execute { query: self.table.create_statement() },
            RunPhase::InTrial { trial } => trial.next_action(),
            RunPhase::Done { .. } => TrialAction::Finished,
        }
    }

    /// Feeds back what the last action came back with and advances the
    /// engine by one transition.
    pub fn step(&mut self, ev: StepEvent)
        requires
            spec_run_wf(old(self)@),
            !(old(self)@.phase is Done),
        ensures
            final(self)@ == spec_run_step(old(self)@, ev@),
            spec_run_wf(final(self)@),
            spec_run_measure(final(self)@) < spec_run_measure(old(self)@),
    {
        let mut ph = RunPhase::Dropping;
        core::mem::swap(&mut ph, &mut self.phase);
        match ph {
            RunPhase::SettingMutationChecker => match ev {
                StepEvent::Succeeded => {
                    self.phase = RunPhase::SettingAssertionLevel;
                },
                StepEvent::Failed { error } => {
                    self.phase = RunPhase::Done { fatal: Some(MyError::Setup(error)) };
                },
            },
            RunPhase::SettingAssertionLevel => match ev {
                StepEvent::Succeeded => {
                    self.phase = RunPhase::Dropping;
                },
                StepEvent::Failed { error } => {
                    self.phase = RunPhase::Done { fatal: Some(MyError::Setup(error)) };
                },
            },
            RunPhase::Dropping => match ev {
                StepEvent::Succeeded => {
                    self.phase = RunPhase::Creating;
                },
                StepEvent::Failed { error } => {
                    self.phase = RunPhase::Done { fatal: Some(MyError::Setup(error)) };
                },
            },
            RunPhase::Creating => match ev {
                StepEvent::Succeeded => {
                    let trial = Trial::new(&self.workload, &self.table, self.injections[0].as_str());
                    proof {
                        lemma_plan_len(self.workload, self.table@, self.injections@[0]@);
                    }
                    self.phase = RunPhase::InTrial { trial };
                },
                StepEvent::Failed { error } => {
                    self.phase = RunPhase::Done { fatal: Some(MyError::Setup(error)) };
                },
            },
            RunPhase::InTrial { mut trial } => {
                trial.step(ev);
                if trial.is_done() {
                    let outcome = trial.into_outcome();
                    match outcome {
                        TrialOutcome::Recorded { effectiveness } => {
                            let inj = self.injections[self.idx].clone();
                            self.recorded.push(RunRecord { injection: inj, effectiveness });
                            proof {
                                assert(self@.recorded =~= old(self)@.recorded.push(
                                    RunRecordV {
                                        injection: crate::spec_injections()[old(self)@.idx],
                                        effectiveness,
                                    },
                                ));
                            }
                            let next_idx = self.idx + 1;
                            self.idx = next_idx;
                            if next_idx < self.injections.len() {
                                let t2 = Trial::new(
                                    &self.workload,
                                    &self.table,
                                    self.injections[next_idx].as_str(),
                                );
                                proof {
                                    lemma_plan_len(
                                        self.workload,
                                        self.table@,
                                        self.injections@[next_idx as int]@,
                                    );
                                }
                                self.phase = RunPhase::InTrial { trial: t2 };
                            } else {
                                self.phase = RunPhase::Done { fatal: None };
                            }
                        },
                        TrialOutcome::Fault { error } => {
                            self.phase = RunPhase::Done { fatal: Some(error) };
                        },
                    }
                } else {
                    self.phase = RunPhase::InTrial { trial };
                }
            },
            RunPhase::Done { fatal } => {
                self.phase = RunPhase::Done { fatal };
            },
        }
    }
}

/// No injection is recorded twice in one table run: the recorded keys are
/// pairwise distinct.
pub proof fn lemma_records_distinct(s: TableRunV)
    requires
        spec_run_wf(s),
    ensures
        forall|k1: int, k2: int|
            0 <= k1 < k2 < s.recorded.len() ==> s.recorded[k1].injection != s.recorded[
                k2
            ].injection,
{
    crate::lemma_injections_distinct();
}

} // verus!
