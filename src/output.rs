//! What the virtual machine produces for one transaction, and the
//! resolution of its deferred deltas against a view.
use vstd::prelude::*;
use crate::delta::{decode_spec, decode_value, encode_spec, encode_value, apply_spec, DeltaApplyError, DeltaOp};
use crate::state::{agree_on, ReadModel, StateKey, StateView};
use crate::write_op::{WriteOp, WriteOpModel};

verus! {

/// What becomes of a transaction's output at commit.
#[derive(Clone, Copy, Debug, PartialEq, Eq, Structural)]
pub enum TransactionStatus {
    /// The output is committed; `success` tells whether the transaction ran
    /// to its end or failed after its fee was charged.
    Keep { success: bool },
    /// The transaction is dropped: nothing of it is committed.
    Discard { code: u64 },
    /// The transaction is to be run again later.
    Retry,
}

/// An event that a transaction emitted.
#[derive(Debug)]
pub struct ContractEvent {
    pub type_tag: u64,
    pub data: Vec<u8>,
}

impl TransactionStatus {
    pub fn is_discard(&self) -> (r: bool)
        ensures
            r == (*self is Discard),
    {
        match self {
            TransactionStatus::Discard { .. } => true,
            _ => false,
        }
    }
}

/// The effects of one transaction.
#[derive(Debug)]
pub struct TransactionOutput {
    pub write_set: Vec<(StateKey, WriteOp)>,
    pub deltas: Vec<(StateKey, DeltaOp)>,
    pub events: Vec<ContractEvent>,
    pub gas_used: u64,
    pub status: TransactionStatus,
    /// The transaction changed the global configuration.
    pub reconfiguration: bool,
}

pub struct OutputModel {
    pub write_set: Seq<(StateKey, WriteOpModel)>,
    pub deltas: Seq<(StateKey, DeltaOp)>,
    pub events: Seq<ContractEvent>,
    pub gas_used: u64,
    pub status: TransactionStatus,
    pub reconfiguration: bool,
}

pub open spec fn write_set_model(ws: Seq<(StateKey, WriteOp)>) -> Seq<(StateKey, WriteOpModel)> {
    ws.map_values(|e: (StateKey, WriteOp)| (e.0, e.1@))
}

impl View for TransactionOutput {
    type V = OutputModel;

    open spec fn view(&self) -> OutputModel {
        OutputModel {
            write_set: write_set_model(self.write_set@),
            deltas: self.deltas@,
            events: self.events@,
            gas_used: self.gas_used,
            status: self.status,
            reconfiguration: self.reconfiguration,
        }
    }
}

/// An output may be committed only where its status keeps it.
pub open spec fn is_committable(out: OutputModel) -> bool {
    out.status is Keep
}

/// Why the deltas of an output could not be resolved.
#[derive(Clone, Copy, Debug, PartialEq, Eq, Structural)]
pub enum MaterializeError {
    /// The view could not read the delta's slot.
    StorageRead { key: StateKey },
    /// The delta's slot holds no value.
    MissingBase { key: StateKey },
    /// The slot's value is not an encoded aggregator value.
    Malformed { key: StateKey },
    /// The delta takes the value out of its bounds.
    Apply { key: StateKey, error: DeltaApplyError },
}

/// The write that resolves delta `op` on slot `key`, given what a read of
/// the slot gave. The slot keeps its metadata.
pub open spec fn resolve_spec(key: StateKey, op: DeltaOp, read: ReadModel) -> Result<
    WriteOpModel,
    MaterializeError,
> {
    match read {
        Err(_) => Err(MaterializeError::StorageRead { key }),
        Ok(None) => Err(MaterializeError::MissingBase { key }),
        Ok(Some(v)) => match decode_spec(v.bytes) {
            None => Err(MaterializeError::Malformed { key }),
            Some(base) => match apply_spec(op, base) {
                Err(error) => Err(MaterializeError::Apply { key, error }),
                Ok(n) => Ok(WriteOpModel::Modification { data: encode_spec(n), metadata: v.metadata }),
            },
        },
    }
}

/// The writes that resolve `deltas` in order, or the error of the first one
/// that cannot be resolved.
pub open spec fn resolve_all<V: StateView>(deltas: Seq<(StateKey, DeltaOp)>, view: &V) -> Result<
    Seq<(StateKey, WriteOpModel)>,
    MaterializeError,
>
    decreases deltas.len(),
{
    if deltas.len() == 0 {
        Ok(Seq::empty())
    } else {
        match resolve_all(deltas.drop_last(), view) {
            Err(e) => Err(e),
            Ok(ws) => {
                let (key, op) = deltas.last();
                match resolve_spec(key, op, view.lookup(key)) {
                    Err(e) => Err(e),
                    Ok(w) => Ok(ws.push((key, w))),
                }
            },
        }
    }
}

/// `out` with every delta replaced by the write that resolves it; the rest
/// of the output is unchanged.
pub open spec fn materialize_spec<V: StateView>(out: OutputModel, view: &V) -> Result<
    OutputModel,
    MaterializeError,
> {
    match resolve_all(out.deltas, view) {
        Err(e) => Err(e),
        Ok(ws) => Ok(
            OutputModel {
                write_set: out.write_set + ws,
                deltas: Seq::empty(),
                events: out.events,
                gas_used: out.gas_used,
                status: out.status,
                reconfiguration: out.reconfiguration,
            },
        ),
    }
}

pub open spec fn materialize_result_model(r: &Result<TransactionOutput, MaterializeError>) -> Result<
    OutputModel,
    MaterializeError,
> {
    match r {
        Ok(o) => Ok(o@),
        Err(e) => Err(*e),
    }
}

/// Resolves one delta on `key` through `view`.
pub fn resolve_delta<V: StateView>(view: &V, key: StateKey, op: DeltaOp) -> (r: Result<
    WriteOp,
    MaterializeError,
>)
    ensures
        match r {
            Ok(w) => resolve_spec(key, op, view.lookup(key)) == Ok::<WriteOpModel, MaterializeError>(w@),
            Err(e) => resolve_spec(key, op, view.lookup(key)) == Err::<WriteOpModel, MaterializeError>(e),
        },
{
    match view.get_state_value(&key) {
        Err(_) => Err(MaterializeError::StorageRead { key }),
        Ok(None) => Err(MaterializeError::MissingBase { key }),
        Ok(Some(v)) => match decode_value(&v.bytes) {
            None => Err(MaterializeError::Malformed { key }),
            Some(base) => match op.apply_to(base) {
                Err(error) => Err(MaterializeError::Apply { key, error }),
                Ok(n) => Ok(WriteOp::Modification { data: encode_value(n), metadata: v.metadata }),
            },
        },
    }
}

impl TransactionOutput {
    /// Resolves every deferred delta against `view`.
    pub fn try_materialize<V: StateView>(self, view: &V) -> (r: Result<
        TransactionOutput,
        MaterializeError,
    >)
        ensures
            materialize_result_model(&r) == materialize_spec(self@, view),
    {
        let ghost start = self@;
        let TransactionOutput { write_set, deltas, events, gas_used, status, reconfiguration } =
            self;
        let mut write_set = write_set;
        let ghost base = write_set_model(write_set@);
        let mut i: usize = 0;
        assert(deltas@.subrange(0, 0) =~= Seq::<(StateKey, DeltaOp)>::empty());
        assert(base + Seq::<(StateKey, WriteOpModel)>::empty() =~= base);
        while i < deltas.len()
            invariant
                i <= deltas@.len(),
                start == self@,
                base == start.write_set,
                deltas@ == start.deltas,
                resolve_all(deltas@.subrange(0, i as int), view) is Ok,
                write_set_model(write_set@) == base + resolve_all(
                    deltas@.subrange(0, i as int),
                    view,
                )->Ok_0,
            decreases deltas@.len() - i,
        {
            let (key, op) = deltas[i];
            let ghost prefix = deltas@.subrange(0, i as int);
            let ghost longer = deltas@.subrange(0, i + 1);
            assert(longer.drop_last() =~= prefix);
            assert(longer.last() == (key, op));
            match resolve_delta(view, key, op) {
                Err(e) => {
                    assert(resolve_all(longer, view) == Err::<
                        Seq<(StateKey, WriteOpModel)>,
                        MaterializeError,
                    >(e));
                    proof {
                        lemma_resolve_all_error_extends(deltas@, view, i as int + 1);
                    }
                    return Err(e);
                },
                Ok(w) => {
                    let ghost before = write_set@;
                    write_set.push((key, w));
                    assert(write_set_model(write_set@) =~= write_set_model(before).push((key, w@)));
                    i = i + 1;
                },
            }
        }
        assert(deltas@.subrange(0, i as int) =~= deltas@);
        Ok(
            TransactionOutput {
                write_set,
                deltas: Vec::new(),
                events,
                gas_used,
                status,
                reconfiguration,
            },
        )
    }
}

/// Resolving the deltas of an output whose deltas were resolved changes
/// nothing: no delta is left.
pub proof fn lemma_materialize_idempotent<V: StateView, W: StateView>(
    out: OutputModel,
    view: &V,
    later: &W,
)
    requires
        materialize_spec(out, view) is Ok,
    ensures
        materialize_spec(materialize_spec(out, view)->Ok_0, later) == materialize_spec(out, view),
{
    let done = materialize_spec(out, view)->Ok_0;
    assert(done.write_set + Seq::<(StateKey, WriteOpModel)>::empty() =~= done.write_set);
    assert(done.deltas.len() == 0);
}

/// The set of keys that `deltas` act on.
pub open spec fn delta_keys(deltas: Seq<(StateKey, DeltaOp)>) -> Set<StateKey> {
    Set::new(|k: StateKey| exists|i: int| 0 <= i < deltas.len() && deltas[i].0 == k)
}

/// Resolution reads the view only at the keys of the deltas.
pub proof fn lemma_resolve_all_reads_delta_keys<V: StateView, W: StateView>(
    deltas: Seq<(StateKey, DeltaOp)>,
    a: &V,
    b: &W,
)
    requires
        agree_on(a, b, delta_keys(deltas)),
    ensures
        resolve_all(deltas, a) == resolve_all(deltas, b),
    decreases deltas.len(),
{
    if deltas.len() > 0 {
        let front = deltas.drop_last();
        assert forall|k: StateKey| delta_keys(front).contains(k) implies delta_keys(deltas).contains(k) by {
            let i = choose|i: int| 0 <= i < front.len() && front[i].0 == k;
            assert(deltas[i].0 == k);
        }
        lemma_resolve_all_reads_delta_keys(front, a, b);
        assert(delta_keys(deltas).contains(deltas.last().0)) by {
            assert(deltas[deltas.len() - 1].0 == deltas.last().0);
        }
    }
}

/// Where resolution fails on a prefix of the deltas, it fails with the same
/// error on all of them.
proof fn lemma_resolve_all_error_extends<V: StateView>(
    deltas: Seq<(StateKey, DeltaOp)>,
    view: &V,
    n: int,
)
    requires
        0 <= n <= deltas.len(),
        resolve_all(deltas.subrange(0, n), view) is Err,
    ensures
        resolve_all(deltas, view) == resolve_all(deltas.subrange(0, n), view),
    decreases deltas.len() - n,
{
    if n < deltas.len() {
        let longer = deltas.subrange(0, n + 1);
        assert(longer.drop_last() =~= deltas.subrange(0, n));
        lemma_resolve_all_error_extends(deltas, view, n + 1);
    } else {
        assert(deltas.subrange(0, n) =~= deltas);
    }
}

} // verus!
