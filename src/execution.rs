//! The classification of what the virtual machine returned for one
//! transaction into the status that the block executor acts on.
use vstd::prelude::*;
use crate::output::{
    delta_keys, is_committable, lemma_resolve_all_reads_delta_keys, materialize_spec, OutputModel,
    TransactionOutput,
};
use crate::state::{agree_on, StateView};

verus! {

/// The virtual machine's verdict on a transaction.
#[derive(Clone, Copy, Debug, PartialEq, Eq, Structural)]
pub enum VmStatus {
    Executed,
    MoveAbort { code: u64 },
    Error { code: u64 },
}

/// The account that sent a transaction.
#[derive(Clone, Copy, Debug, PartialEq, Eq, Structural)]
pub struct AccountAddress {
    pub value: u128,
}

/// What the virtual machine returns for a transaction it ran: its verdict,
/// the effects, and the sender where the transaction named one well enough.
#[derive(Debug)]
pub struct VmOutcome {
    pub status: VmStatus,
    pub output: TransactionOutput,
    pub sender: Option<AccountAddress>,
}

pub struct VmOutcomeModel {
    pub status: VmStatus,
    pub output: OutputModel,
    pub sender: Option<AccountAddress>,
}

/// The virtual machine's answer: an outcome, or the error that stopped the
/// transaction inside it.
pub type VmResult = Result<VmOutcome, VmStatus>;

pub type VmResultModel = Result<VmOutcomeModel, VmStatus>;

pub open spec fn vm_result_model(r: &VmResult) -> VmResultModel {
    match r {
        Ok(o) => Ok(VmOutcomeModel { status: o.status, output: o.output@, sender: o.sender }),
        Err(e) => Err(*e),
    }
}

/// What the block executor is told of one execution attempt.
#[derive(Debug)]
pub enum ExecutionStatus {
    /// The transaction ran; later transactions may run too.
    Success(TransactionOutput),
    /// The transaction changed the configuration: no later transaction of
    /// this pass may run, and commit stops here.
    SkipRest(TransactionOutput),
    /// The transaction failed inside the virtual machine.
    Abort(VmStatus),
}

pub enum ExecutionStatusModel {
    Success(OutputModel),
    SkipRest(OutputModel),
    Abort(VmStatus),
}

impl View for ExecutionStatus {
    type V = ExecutionStatusModel;

    open spec fn view(&self) -> ExecutionStatusModel {
        match self {
            ExecutionStatus::Success(o) => ExecutionStatusModel::Success(o@),
            ExecutionStatus::SkipRest(o) => ExecutionStatusModel::SkipRest(o@),
            ExecutionStatus::Abort(e) => ExecutionStatusModel::Abort(*e),
        }
    }
}

#[derive(Clone, Copy, Debug, PartialEq, Eq, Structural)]
pub enum LogLevel {
    Trace,
    Info,
}

#[derive(Clone, Copy, Debug, PartialEq, Eq, Structural)]
pub enum LogMessage {
    /// The transaction was discarded; its sender is known.
    Discarded { sender: AccountAddress, status: VmStatus },
    /// The transaction was discarded and named no sender.
    Malformed { status: VmStatus },
    /// The transaction changed the configuration.
    Reconfiguration,
}

/// A diagnostic of one execution attempt. An attempt may be discarded and
/// run again, so these describe speculative work, not committed history.
#[derive(Clone, Copy, Debug, PartialEq, Eq, Structural)]
pub struct LogEntry {
    pub level: LogLevel,
    pub txn_idx: u32,
    pub message: LogMessage,
}

/// The output handed on: with its deltas resolved against `view` where
/// `materialize` asks for it.
pub open spec fn prepared_output<V: StateView>(out: OutputModel, view: &V, materialize: bool) -> OutputModel {
    if materialize {
        materialize_spec(out, view)->Ok_0
    } else {
        out
    }
}

/// Resolution is asked for only where it succeeds.
pub open spec fn can_prepare<V: StateView>(raw: VmResultModel, view: &V, materialize: bool) -> bool {
    match raw {
        Ok(o) => materialize ==> materialize_spec(o.output, view) is Ok,
        Err(_) => true,
    }
}

/// An error inside the virtual machine aborts; an output that changed the
/// configuration stops the pass; any other output succeeds, also where the
/// virtual machine discarded the transaction.
pub open spec fn execution_spec<V: StateView>(raw: VmResultModel, view: &V, materialize: bool) -> ExecutionStatusModel {
    match raw {
        Err(e) => ExecutionStatusModel::Abort(e),
        Ok(o) => {
            let out = prepared_output(o.output, view, materialize);
            if out.reconfiguration {
                ExecutionStatusModel::SkipRest(out)
            } else {
                ExecutionStatusModel::Success(out)
            }
        },
    }
}

/// The diagnostics of one attempt: a trace for a discarded transaction,
/// naming its sender where there is one, then a note of a reconfiguration.
pub open spec fn trace_spec<V: StateView>(raw: VmResultModel, view: &V, materialize: bool, txn_idx: u32) -> Seq<LogEntry> {
    match raw {
        Err(_) => Seq::empty(),
        Ok(o) => {
            let out = prepared_output(o.output, view, materialize);
            let discarded = if out.status is Discard {
                match o.sender {
                    Some(sender) => seq![LogEntry { level: LogLevel::Trace, txn_idx, message: LogMessage::Discarded { sender, status: o.status } }],
                    None => seq![LogEntry { level: LogLevel::Trace, txn_idx, message: LogMessage::Malformed { status: o.status } }],
                }
            } else {
                Seq::empty()
            };
            if out.reconfiguration {
                discarded.push(LogEntry { level: LogLevel::Info, txn_idx, message: LogMessage::Reconfiguration })
            } else {
                discarded
            }
        },
    }
}

/// Running an attempt again on the same answer of the virtual machine, which
/// depends only on what the transaction read, against a view that agrees
/// with the first on every key that delta resolution reads, gives the same
/// status and the same diagnostics.
pub proof fn lemma_execution_deterministic<V: StateView, W: StateView>(
    raw: VmResultModel,
    first: &V,
    second: &W,
    materialize: bool,
    txn_idx: u32,
)
    requires
        raw matches Ok(o) ==> agree_on(first, second, delta_keys(o.output.deltas)),
    ensures
        execution_spec(raw, first, materialize) == execution_spec(raw, second, materialize),
        trace_spec(raw, first, materialize, txn_idx) == trace_spec(raw, second, materialize, txn_idx),
{
    if let Ok(o) = raw {
        lemma_resolve_all_reads_delta_keys(o.output.deltas, first, second);
        assert(prepared_output(o.output, first, materialize) == prepared_output(
            o.output,
            second,
            materialize,
        ));
    }
}

/// An output that changed the configuration stops the pass, whether the
/// transaction itself succeeded or failed.
pub proof fn lemma_reconfiguration_skips_rest<V: StateView>(
    raw: VmResultModel,
    view: &V,
    materialize: bool,
)
    requires
        raw matches Ok(o) && o.output.reconfiguration,
        can_prepare(raw, view, materialize),
    ensures
        execution_spec(raw, view, materialize) is SkipRest,
{
}

/// A transaction that the virtual machine discarded without a sender is no
/// abort: its output is handed on, not to be committed, with exactly one
/// trace-level diagnostic, which says it was malformed.
pub proof fn lemma_malformed_sender_not_abort<V: StateView>(
    raw: VmResultModel,
    view: &V,
    materialize: bool,
    txn_idx: u32,
)
    requires
        raw matches Ok(o) && o.output.status is Discard && o.sender is None,
        can_prepare(raw, view, materialize),
    ensures
        !(execution_spec(raw, view, materialize) is Abort),
        match execution_spec(raw, view, materialize) {
            ExecutionStatusModel::Success(out) => !is_committable(out),
            ExecutionStatusModel::SkipRest(out) => !is_committable(out),
            ExecutionStatusModel::Abort(_) => false,
        },
        trace_spec(raw, view, materialize, txn_idx).len() >= 1,
        trace_spec(raw, view, materialize, txn_idx)[0] == (LogEntry {
            level: LogLevel::Trace,
            txn_idx,
            message: LogMessage::Malformed { status: raw->Ok_0.status },
        }),
        forall|i: int|
            1 <= i < trace_spec(raw, view, materialize, txn_idx).len() ==> (#[trigger] trace_spec(
                raw,
                view,
                materialize,
                txn_idx,
            )[i]).level == LogLevel::Info,
{
}

} // verus!
