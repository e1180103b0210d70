use executor_task::delta::{decode_le, decode_value, encode_value, DeltaApplyError, DeltaOp, DeltaUpdate};
use executor_task::execution::{
    AccountAddress, ExecutionStatus, LogEntry, LogLevel, LogMessage, VmOutcome, VmResult, VmStatus,
};
use executor_task::output::{ContractEvent, MaterializeError, TransactionOutput, TransactionStatus};
use executor_task::state::{InMemoryState, SlotMetadata, StateKey, StateValue, StateView};
use executor_task::task::{ConfigLocations, ConversionError, ExecutorTask, ModuleLoadError, VmConfig};
use executor_task::write_op::{storage_op, MoveStorageOp, WriteOp, WriteOpConverter};

fn key(id: u64) -> StateKey {
    StateKey { id }
}

fn locations() -> ConfigLocations {
    ConfigLocations { features: key(1000), timestamp: key(1001), warm_module: key(1002) }
}

fn task_on(state: &InMemoryState) -> ExecutorTask {
    ExecutorTask::init(state, &locations())
}

fn plain_output(writes: Vec<(StateKey, WriteOp)>) -> TransactionOutput {
    TransactionOutput {
        write_set: writes,
        deltas: Vec::new(),
        events: Vec::new(),
        gas_used: 5,
        status: TransactionStatus::Keep { success: true },
        reconfiguration: false,
    }
}

fn ok_outcome(output: TransactionOutput) -> VmResult {
    Ok(VmOutcome { status: VmStatus::Executed, output, sender: Some(AccountAddress { value: 7 }) })
}

fn modification(data: Vec<u8>) -> WriteOp {
    WriteOp::Modification { data, metadata: None }
}

fn delta_output(k: StateKey, amount: u128, limit: u128) -> TransactionOutput {
    let mut out = plain_output(Vec::new());
    out.deltas.push((k, DeltaOp { update: DeltaUpdate::Plus(amount), limit }));
    out
}

#[test]
fn store_reads_latest_write() {
    let mut s = InMemoryState::new();
    assert!(s.get(&key(1)).is_none());
    s.insert(key(1), vec![1, 2]);
    s.insert(key(2), vec![3]);
    s.insert(key(1), vec![4]);
    assert_eq!(s.get(&key(1)).unwrap().bytes, vec![4]);
    assert_eq!(s.get(&key(2)).unwrap().bytes, vec![3]);
    s.remove(key(1));
    assert!(s.get(&key(1)).is_none());
    assert!(s.get_state_value(&key(2)).unwrap().is_some());
}

#[test]
fn value_codec_round_trips() {
    let bytes = encode_value(17);
    assert_eq!(bytes.len(), 16);
    assert_eq!(bytes[0], 17);
    assert!(bytes[1..].iter().all(|b| *b == 0));
    assert_eq!(decode_value(&bytes), Some(17));
    assert_eq!(decode_value(&encode_value(u128::MAX)), Some(u128::MAX));
    assert_eq!(decode_value(&encode_value(0x0102_0304)), Some(0x0102_0304));
    assert_eq!(encode_value(0x0102)[..2], [0x02, 0x01]);
    assert_eq!(decode_value(&vec![1, 2, 3]), None);
    assert_eq!(decode_le(&vec![0x10, 0x27, 0, 0, 0, 0, 0, 0], 8), Some(10_000));
}

#[test]
fn delta_apply_respects_bounds() {
    let plus = DeltaOp { update: DeltaUpdate::Plus(10), limit: 100 };
    assert_eq!(plus.apply_to(7), Ok(17));
    assert_eq!(plus.apply_to(90), Ok(100));
    assert_eq!(plus.apply_to(91), Err(DeltaApplyError::Overflow));
    let big = DeltaOp { update: DeltaUpdate::Plus(u128::MAX), limit: u128::MAX };
    assert_eq!(big.apply_to(1), Err(DeltaApplyError::Overflow));
    let minus = DeltaOp { update: DeltaUpdate::Minus(5), limit: 100 };
    assert_eq!(minus.apply_to(5), Ok(0));
    assert_eq!(minus.apply_to(4), Err(DeltaApplyError::Underflow));
}

#[test]
fn delta_materializes_against_base_value() {
    let k = key(9);
    let mut s = InMemoryState::new();
    s.insert(k, encode_value(7));
    let out = delta_output(k, 10, 1000).try_materialize(&s).unwrap();
    assert!(out.deltas.is_empty());
    assert_eq!(out.write_set.len(), 1);
    assert_eq!(out.write_set[0].0, k);
    match &out.write_set[0].1 {
        WriteOp::Modification { data, metadata } => {
            assert_eq!(decode_value(data), Some(17));
            assert_eq!(*metadata, None);
        },
        other => panic!("unexpected {:?}", other),
    }
}

#[test]
fn delta_on_absent_key_fails() {
    let k = key(9);
    let s = InMemoryState::new();
    let r = delta_output(k, 10, 1000).try_materialize(&s);
    assert_eq!(r.unwrap_err(), MaterializeError::MissingBase { key: k });
}

#[test]
fn delta_errors_are_reported() {
    let k = key(9);
    let mut s = InMemoryState::new();
    s.insert(k, vec![1, 2, 3]);
    let r = delta_output(k, 10, 1000).try_materialize(&s);
    assert_eq!(r.unwrap_err(), MaterializeError::Malformed { key: k });
    s.insert(k, encode_value(995));
    let r = delta_output(k, 10, 1000).try_materialize(&s);
    assert_eq!(
        r.unwrap_err(),
        MaterializeError::Apply { key: k, error: DeltaApplyError::Overflow }
    );
}

#[test]
fn materialize_twice_changes_nothing() {
    let k = key(3);
    let mut s = InMemoryState::new();
    s.insert(k, encode_value(1));
    let mut out = delta_output(k, 2, 10);
    out.write_set.push((key(4), modification(vec![9])));
    let once = out.try_materialize(&s).unwrap();
    let once_text = format!("{:?}", once);
    s.insert(k, encode_value(5));
    let twice = once.try_materialize(&s).unwrap();
    assert_eq!(format!("{:?}", twice), once_text);
    assert_eq!(twice.write_set.len(), 2);
}

#[test]
fn storage_op_follows_creation_flag() {
    assert!(matches!(storage_op(Some(vec![1]), true), MoveStorageOp::New(d) if d == vec![1]));
    assert!(matches!(storage_op(Some(vec![1]), false), MoveStorageOp::Modify(d) if d == vec![1]));
    assert!(matches!(storage_op(None, true), MoveStorageOp::Delete));
    assert!(matches!(storage_op(None, false), MoveStorageOp::Delete));
}

#[test]
fn convert_none_is_deletion() {
    let s = InMemoryState::new();
    let task = task_on(&s);
    for creation in [true, false] {
        let w = task.convert_to_value(&s, &key(5), None, creation).unwrap();
        assert!(matches!(w, WriteOp::Deletion { metadata: None }));
    }
}

#[test]
fn convert_value_follows_creation_flag() {
    let s = InMemoryState::new();
    let task = task_on(&s);
    let w = task.convert_to_value(&s, &key(5), Some(vec![1, 2]), true).unwrap();
    assert!(matches!(w, WriteOp::Creation { ref data, metadata: None } if *data == vec![1, 2]));
    let w = task.convert_to_value(&s, &key(5), Some(vec![3]), false).unwrap();
    assert!(matches!(w, WriteOp::Modification { ref data, metadata: None } if *data == vec![3]));
}

#[test]
fn convert_keeps_existing_metadata() {
    let md = SlotMetadata { deposit: 4, creation_time_usecs: 99 };
    let mut s = InMemoryState::new();
    s.set(key(5), Some(StateValue::new(vec![1], Some(md))));
    let task = task_on(&s);
    let w = task.convert_to_value(&s, &key(5), Some(vec![2]), false).unwrap();
    assert!(matches!(w, WriteOp::Modification { metadata: Some(m), .. } if m == md));
    let w = task.convert_to_value(&s, &key(5), None, false).unwrap();
    assert!(matches!(w, WriteOp::Deletion { metadata: Some(m) } if m == md));
}

fn config_state(features: Vec<u8>, timestamp: u64) -> InMemoryState {
    let mut s = InMemoryState::new();
    s.insert(locations().features, features);
    s.insert(locations().timestamp, timestamp.to_le_bytes().to_vec());
    s
}

#[test]
fn init_reads_metadata_policy() {
    // flag 19 is bit 3 of byte 2
    let s = config_state(vec![0, 0, 0b1000], 1234);
    let task = task_on(&s);
    assert_eq!(
        task.config(),
        VmConfig { storage_slot_metadata_enabled: true, timestamp_usecs: 1234 }
    );
    assert!(task.is_storage_slot_metadata_enabled());
    let w = task.convert_to_value(&s, &key(5), Some(vec![1]), true).unwrap();
    let md = SlotMetadata { deposit: 0, creation_time_usecs: 1234 };
    assert!(matches!(w, WriteOp::Creation { metadata: Some(m), .. } if m == md));
    let c = task.write_op_converter();
    assert_eq!(c.new_slot_metadata, Some(md));
}

#[test]
fn init_without_flag_has_no_new_metadata() {
    let s = config_state(vec![0xff, 0xff, 0b1111_0111], 1234);
    let task = task_on(&s);
    assert!(!task.is_storage_slot_metadata_enabled());
    let w = task.convert_to_value(&s, &key(5), Some(vec![1]), true).unwrap();
    assert!(matches!(w, WriteOp::Creation { metadata: None, .. }));
    let short = config_state(vec![0xff], 1);
    assert!(!task_on(&short).is_storage_slot_metadata_enabled());
}

#[test]
fn init_warms_module_where_present() {
    let mut s = InMemoryState::new();
    let cold = task_on(&s);
    assert!(!cold.is_module_cached(&locations().warm_module));
    s.insert(locations().warm_module, vec![0xa1, 0x1c]);
    let warm = task_on(&s);
    assert!(warm.is_module_cached(&locations().warm_module));
    assert!(!warm.is_module_cached(&key(1)));
}

#[test]
fn load_module_reports_missing() {
    let s = InMemoryState::new();
    let mut task = task_on(&s);
    assert_eq!(task.load_module(&s, key(77)), Err(ModuleLoadError::NotFound));
    assert!(!task.is_module_cached(&key(77)));
}

struct FailingView;

impl StateView for FailingView {
    fn lookup(&self, _key: StateKey) -> executor_task::state::ReadModel {
        Err(executor_task::state::StateReadError)
    }

    fn get_state_value(
        &self,
        _key: &StateKey,
    ) -> Result<Option<StateValue>, executor_task::state::StateReadError> {
        Err(executor_task::state::StateReadError)
    }
}

#[test]
fn conversion_error_when_view_fails() {
    let s = InMemoryState::new();
    let task = task_on(&s);
    assert!(matches!(
        task.convert_to_value(&FailingView, &key(1), None, false),
        Err(ConversionError)
    ));
    assert!(task.convert_to_value(&FailingView, &key(1), Some(vec![1]), true).is_ok());
    let r = delta_output(key(1), 1, 5).try_materialize(&FailingView);
    assert_eq!(r.unwrap_err(), MaterializeError::StorageRead { key: key(1) });
    let mut task = task_on(&s);
    assert_eq!(task.load_module(&FailingView, key(2)), Err(ModuleLoadError::StorageRead));
    let direct = WriteOpConverter { new_slot_metadata: None };
    assert!(direct.convert(&FailingView, &key(1), MoveStorageOp::Delete).is_err());
}

#[test]
fn vm_error_aborts() {
    let s = InMemoryState::new();
    let task = task_on(&s);
    let mut log = Vec::new();
    let r = task.execute_transaction(&s, Err(VmStatus::Error { code: 4001 }), 0, true, &mut log);
    assert!(matches!(r, ExecutionStatus::Abort(VmStatus::Error { code: 4001 })));
    assert!(log.is_empty());
}

#[test]
fn reconfiguration_skips_rest() {
    let s = InMemoryState::new();
    let task = task_on(&s);
    for success in [true, false] {
        let mut out = plain_output(Vec::new());
        out.reconfiguration = true;
        out.status = TransactionStatus::Keep { success };
        let mut log = Vec::new();
        let r = task.execute_transaction(&s, ok_outcome(out), 4, false, &mut log);
        assert!(matches!(r, ExecutionStatus::SkipRest(_)));
        assert_eq!(
            log,
            vec![LogEntry { level: LogLevel::Info, txn_idx: 4, message: LogMessage::Reconfiguration }]
        );
    }
}

#[test]
fn malformed_sender_is_traced_once() {
    let s = InMemoryState::new();
    let task = task_on(&s);
    let mut out = plain_output(Vec::new());
    out.status = TransactionStatus::Discard { code: 1 };
    let raw = Ok(VmOutcome { status: VmStatus::Error { code: 1 }, output: out, sender: None });
    let mut log = Vec::new();
    let r = task.execute_transaction(&s, raw, 2, true, &mut log);
    match r {
        ExecutionStatus::Success(o) => assert_eq!(o.status, TransactionStatus::Discard { code: 1 }),
        other => panic!("unexpected {:?}", other),
    }
    assert_eq!(
        log,
        vec![LogEntry {
            level: LogLevel::Trace,
            txn_idx: 2,
            message: LogMessage::Malformed { status: VmStatus::Error { code: 1 } },
        }]
    );
}

#[test]
fn discarded_with_sender_names_it() {
    let s = InMemoryState::new();
    let task = task_on(&s);
    let mut out = plain_output(Vec::new());
    out.status = TransactionStatus::Discard { code: 2 };
    let sender = AccountAddress { value: 42 };
    let raw = Ok(VmOutcome { status: VmStatus::Error { code: 2 }, output: out, sender: Some(sender) });
    let mut log = vec![LogEntry { level: LogLevel::Info, txn_idx: 0, message: LogMessage::Reconfiguration }];
    let r = task.execute_transaction(&s, raw, 3, false, &mut log);
    assert!(matches!(r, ExecutionStatus::Success(_)));
    assert_eq!(log.len(), 2);
    assert_eq!(
        log[1],
        LogEntry {
            level: LogLevel::Trace,
            txn_idx: 3,
            message: LogMessage::Discarded { sender, status: VmStatus::Error { code: 2 } },
        }
    );
}

fn event_output(k: StateKey) -> TransactionOutput {
    let mut out = delta_output(k, 3, 100);
    out.events.push(ContractEvent { type_tag: 1, data: vec![5] });
    out
}

#[test]
fn same_reads_give_same_status() {
    let k = key(8);
    let mut a = InMemoryState::new();
    a.insert(k, encode_value(10));
    a.insert(key(50), vec![1]);
    let mut b = InMemoryState::new();
    b.insert(k, encode_value(10));
    b.insert(key(51), vec![2]);
    let task = task_on(&a);
    let mut log_a = Vec::new();
    let mut log_b = Vec::new();
    let ra = task.execute_transaction(&a, ok_outcome(event_output(k)), 6, true, &mut log_a);
    let rb = task.execute_transaction(&b, ok_outcome(event_output(k)), 6, true, &mut log_b);
    assert_eq!(format!("{:?}", ra), format!("{:?}", rb));
    assert_eq!(log_a, log_b);
    match ra {
        ExecutionStatus::Success(o) => {
            assert_eq!(o.events.len(), 1);
            assert!(o.deltas.is_empty());
            assert!(matches!(&o.write_set[0].1, WriteOp::Modification { data, .. } if decode_value(data) == Some(13)));
        },
        other => panic!("unexpected {:?}", other),
    }
}

#[test]
fn deltas_stay_pending_without_materialization() {
    let s = InMemoryState::new();
    let task = task_on(&s);
    let mut log = Vec::new();
    let r = task.execute_transaction(&s, ok_outcome(delta_output(key(1), 1, 2)), 0, false, &mut log);
    match r {
        ExecutionStatus::Success(o) => assert_eq!(o.deltas.len(), 1),
        other => panic!("unexpected {:?}", other),
    }
}

/// A stand-in for the virtual machine in the block scenarios: transaction
/// `i` writes `i` to key `100 + i`, or, where `reads` names a key, the value
/// read there plus one.
fn run_vm(view: &InMemoryState, i: u64, reads: Option<StateKey>, reconfig_at: Option<u64>) -> VmResult {
    let value = match reads {
        Some(r) => match view.get(&r) {
            Some(v) => v.bytes[0] + 1,
            None => 0,
        },
        None => i as u8,
    };
    let mut out = plain_output(vec![(key(100 + i), modification(vec![value]))]);
    out.reconfiguration = reconfig_at == Some(i);
    ok_outcome(out)
}

/// Runs a block in order, applying each output before the next transaction
/// runs, and stops after a transaction that asks to skip the rest.
fn run_block(
    task: &ExecutorTask,
    view: &mut InMemoryState,
    n: u64,
    reconfig_at: Option<u64>,
) -> (Vec<u64>, Vec<(StateKey, WriteOp)>) {
    let mut committed = Vec::new();
    let mut writes = Vec::new();
    for i in 0..n {
        let mut log = Vec::new();
        let raw = run_vm(view, i, None, reconfig_at);
        let (out, stop) = match task.execute_transaction(view, raw, i as u32, true, &mut log) {
            ExecutionStatus::Success(o) => (o, false),
            ExecutionStatus::SkipRest(o) => (o, true),
            ExecutionStatus::Abort(e) => panic!("aborted {:?}", e),
        };
        assert!(out.deltas.is_empty());
        for (k, w) in out.write_set {
            if let WriteOp::Modification { data, .. } = &w {
                view.insert(k, data.clone());
            }
            writes.push((k, w));
        }
        committed.push(i);
        if stop {
            break;
        }
    }
    (committed, writes)
}

#[test]
fn block_of_independent_transactions() {
    let mut s = InMemoryState::new();
    let task = task_on(&s);
    let (committed, writes) = run_block(&task, &mut s, 3, None);
    assert_eq!(committed, vec![0, 1, 2]);
    assert_eq!(writes.len(), 3);
    let keys: Vec<u64> = writes.iter().map(|(k, _)| k.id).collect();
    assert_eq!(keys, vec![100, 101, 102]);
}

#[test]
fn reexecution_sees_lower_write() {
    let mut s = InMemoryState::new();
    let task = task_on(&s);
    let read_key = key(102);
    // transaction 5 first runs before transaction 2 has written
    let mut log = Vec::new();
    let first = task.execute_transaction(&s, run_vm(&s, 5, Some(read_key), None), 5, true, &mut log);
    s.insert(read_key, vec![40]);
    let second = task.execute_transaction(&s, run_vm(&s, 5, Some(read_key), None), 5, true, &mut log);
    let value = |r: &ExecutionStatus| match r {
        ExecutionStatus::Success(o) => match &o.write_set[0].1 {
            WriteOp::Modification { data, .. } => data[0],
            other => panic!("unexpected {:?}", other),
        },
        other => panic!("unexpected {:?}", other),
    };
    assert_eq!(value(&first), 0);
    assert_eq!(value(&second), 41);
    assert!(log.is_empty());
}

#[test]
fn reconfiguration_stops_block() {
    let mut s = InMemoryState::new();
    let task = task_on(&s);
    let (committed, writes) = run_block(&task, &mut s, 8, Some(4));
    assert_eq!(committed, vec![0, 1, 2, 3, 4]);
    assert_eq!(writes.len(), 5);
    assert!(s.get(&key(105)).is_none());
}
