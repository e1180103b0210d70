//! The task that one worker of the block executor holds: it runs the
//! adapter's side of each execution attempt and of write conversion.
use vstd::prelude::*;
use crate::delta::{byte_range, decode_le, le_value};
use crate::execution::{
    can_prepare, execution_spec, trace_spec, vm_result_model, ExecutionStatus, LogEntry, LogLevel,
    LogMessage, VmResult,
};
use crate::state::{SlotMetadata, StateKey, StateValue, StateView};
use crate::write_op::{
    blob_model, convert_spec, storage_op, storage_op_spec, WriteOp, WriteOpConverter,
};

verus! {

/// The feature flag that turns on metadata for new slots.
pub const STORAGE_SLOT_METADATA: u64 = 19;

/// The number of bytes that encode the on-chain time.
pub const TIMESTAMP_BYTES: usize = 8;

/// Where a session finds its configuration and the module it loads ahead
/// of time.
#[derive(Clone, Copy, Debug, PartialEq, Eq, Structural)]
pub struct ConfigLocations {
    /// A bit set of feature flags, flag `f` at bit `f % 8` of byte `f / 8`.
    pub features: StateKey,
    /// The current on-chain time in microseconds, eight bytes, least
    /// significant first.
    pub timestamp: StateKey,
    /// The module that nearly every transaction touches.
    pub warm_module: StateKey,
}

/// The configuration that a session reads once.
#[derive(Clone, Copy, Debug, PartialEq, Eq, Structural)]
pub struct VmConfig {
    pub storage_slot_metadata_enabled: bool,
    pub timestamp_usecs: u64,
}

pub open spec fn feature_enabled(bits: Seq<u8>, flag: u64) -> bool {
    &&& (flag / 8) < bits.len()
    &&& bits[(flag / 8) as int] & (1u8 << ((flag % 8) as u8)) != 0
}

/// The configuration that `source` holds; what cannot be read counts as
/// off, and as time zero.
pub open spec fn config_spec<V: StateView>(source: &V, at: ConfigLocations) -> VmConfig {
    VmConfig {
        storage_slot_metadata_enabled: match source.lookup(at.features) {
            Ok(Some(v)) => feature_enabled(v.bytes, STORAGE_SLOT_METADATA),
            _ => false,
        },
        timestamp_usecs: match source.lookup(at.timestamp) {
            Ok(Some(v)) => if v.bytes.len() == TIMESTAMP_BYTES {
                le_value(v.bytes) as u64
            } else {
                0
            },
            _ => 0,
        },
    }
}

/// What a new slot gets under `config`'s metadata policy.
pub open spec fn new_slot_metadata_spec(config: VmConfig) -> Option<SlotMetadata> {
    if config.storage_slot_metadata_enabled {
        Some(SlotMetadata { deposit: 0, creation_time_usecs: config.timestamp_usecs })
    } else {
        None
    }
}

/// A module could not be loaded.
#[derive(Clone, Copy, Debug, PartialEq, Eq, Structural)]
pub enum ModuleLoadError {
    NotFound,
    StorageRead,
}

/// A write conversion failed; the cause is not kept.
#[derive(Clone, Copy, Debug, PartialEq, Eq, Structural)]
pub struct ConversionError;

/// One worker's session: its configuration and its cache of loaded code.
pub struct ExecutorTask {
    config: VmConfig,
    code_cache: Vec<(StateKey, StateValue)>,
}

fn feature_is_enabled(bits: &Vec<u8>, flag: u64) -> (r: bool)
    ensures
        r == feature_enabled(bits@, flag),
{
    if flag / 8 < bits.len() as u64 {
        bits[(flag / 8) as usize] & (1u8 << ((flag % 8) as u8)) != 0
    } else {
        false
    }
}

fn read_config<V: StateView>(source: &V, at: &ConfigLocations) -> (r: VmConfig)
    ensures
        r == config_spec(source, *at),
{
    let storage_slot_metadata_enabled = match source.get_state_value(&at.features) {
        Ok(Some(v)) => feature_is_enabled(&v.bytes, STORAGE_SLOT_METADATA),
        _ => false,
    };
    let timestamp_usecs = match source.get_state_value(&at.timestamp) {
        Ok(Some(v)) => match decode_le(&v.bytes, TIMESTAMP_BYTES) {
            Some(t) => {
                proof {
                    reveal_with_fuel(byte_range, 9);
                }
                t as u64
            },
            None => 0,
        },
        _ => 0,
    };
    VmConfig { storage_slot_metadata_enabled, timestamp_usecs }
}

impl ExecutorTask {
    pub closed spec fn vm_config(&self) -> VmConfig {
        self.config
    }

    /// The modules loaded so far, in order of loading.
    pub closed spec fn cached_modules(&self) -> Seq<StateKey> {
        self.code_cache@.map_values(|e: (StateKey, StateValue)| e.0)
    }

    /// Starts a session on `config_source`: reads the configuration, then
    /// loads the warm-up module where it can. That load only saves time
    /// later; its failure is no failure of the session.
    pub fn init<V: StateView>(config_source: &V, at: &ConfigLocations) -> (r: ExecutorTask)
        ensures
            r.vm_config() == config_spec(config_source, *at),
            r.cached_modules() == (if config_source.lookup(at.warm_module) matches Ok(Some(_)) {
                seq![at.warm_module]
            } else {
                Seq::<StateKey>::empty()
            }),
    {
        let config = read_config(config_source, at);
        let mut task = ExecutorTask { config, code_cache: Vec::new() };
        assert(task.cached_modules() =~= Seq::<StateKey>::empty());
        let _ = task.load_module(config_source, at.warm_module);
        task
    }

    /// Loads `module` from `view` into the code cache.
    pub fn load_module<V: StateView>(&mut self, view: &V, module: StateKey) -> (r: Result<
        (),
        ModuleLoadError,
    >)
        ensures
            final(self).vm_config() == old(self).vm_config(),
            r == (match view.lookup(module) {
                Ok(Some(_)) => Ok::<(), ModuleLoadError>(()),
                Ok(None) => Err(ModuleLoadError::NotFound),
                Err(_) => Err(ModuleLoadError::StorageRead),
            }),
            final(self).cached_modules() == (if r is Ok {
                old(self).cached_modules().push(module)
            } else {
                old(self).cached_modules()
            }),
    {
        match view.get_state_value(&module) {
            Ok(Some(code)) => {
                self.code_cache.push((module, code));
                assert(self.cached_modules() =~= old(self).cached_modules().push(module));
                Ok(())
            },
            Ok(None) => Err(ModuleLoadError::NotFound),
            Err(_) => Err(ModuleLoadError::StorageRead),
        }
    }

    pub fn config(&self) -> (r: VmConfig)
        ensures
            r == self.vm_config(),
    {
        self.config
    }

    pub fn is_storage_slot_metadata_enabled(&self) -> (r: bool)
        ensures
            r == self.vm_config().storage_slot_metadata_enabled,
    {
        self.config.storage_slot_metadata_enabled
    }

    /// Whether `module` is in the code cache.
    pub fn is_module_cached(&self, module: &StateKey) -> (r: bool)
        ensures
            r == self.cached_modules().contains(*module),
    {
        let mut i: usize = 0;
        while i < self.code_cache.len()
            invariant
                i <= self.code_cache@.len(),
                forall|j: int| 0 <= j < i ==> self.cached_modules()[j] != *module,
            decreases self.code_cache@.len() - i,
        {
            if self.code_cache[i].0 == *module {
                assert(self.cached_modules()[i as int] == *module);
                return true;
            }
            i = i + 1;
        }
        false
    }

    /// The converter that this session's metadata policy gives.
    pub fn write_op_converter(&self) -> (r: WriteOpConverter)
        ensures
            r.new_slot_metadata == new_slot_metadata_spec(self.vm_config()),
    {
        let new_slot_metadata = if self.config.storage_slot_metadata_enabled {
            Some(SlotMetadata { deposit: 0, creation_time_usecs: self.config.timestamp_usecs })
        } else {
            None
        };
        WriteOpConverter { new_slot_metadata }
    }

    /// Completes one execution attempt of the transaction at `txn_idx`, given
    /// what the virtual machine returned for it against `view`: resolves the
    /// output's deltas where `materialize_deltas` asks for it, classifies the
    /// result, and appends the attempt's diagnostics to `log`. Nothing else
    /// is changed. Resolution is asked for only where it succeeds: against a
    /// view that the engine keeps in order it cannot fail, so a failure is a
    /// fault of the caller and no outcome of the transaction.
    pub fn execute_transaction<V: StateView>(
        &self,
        view: &V,
        raw: VmResult,
        txn_idx: u32,
        materialize_deltas: bool,
        log: &mut Vec<LogEntry>,
    ) -> (r: ExecutionStatus)
        requires
            can_prepare(vm_result_model(&raw), view, materialize_deltas),
        ensures
            r@ == execution_spec(vm_result_model(&raw), view, materialize_deltas),
            final(log)@ == old(log)@ + trace_spec(vm_result_model(&raw), view, materialize_deltas, txn_idx),
    {
        let ghost raw_model = vm_result_model(&raw);
        match raw {
            Err(e) => {
                assert(log@ =~= old(log)@ + Seq::<LogEntry>::empty());
                ExecutionStatus::Abort(e)
            },
            Ok(outcome) => {
                let mut output = outcome.output;
                if materialize_deltas {
                    output = match output.try_materialize(view) {
                        Ok(o) => o,
                        Err(_) => {
                            // The precondition asks for resolution only where it succeeds.
                            assert(false);
                            return ExecutionStatus::Abort(outcome.status);
                        },
                    };
                }
                let ghost mid = log@;
                if output.status.is_discard() {
                    match outcome.sender {
                        Some(sender) => log.push(
                            LogEntry {
                                level: LogLevel::Trace,
                                txn_idx,
                                message: LogMessage::Discarded { sender, status: outcome.status },
                            },
                        ),
                        None => log.push(
                            LogEntry {
                                level: LogLevel::Trace,
                                txn_idx,
                                message: LogMessage::Malformed { status: outcome.status },
                            },
                        ),
                    }
                }
                if output.reconfiguration {
                    log.push(
                        LogEntry { level: LogLevel::Info, txn_idx, message: LogMessage::Reconfiguration },
                    );
                }
                assert(log@ =~= old(log)@ + trace_spec(raw_model, view, materialize_deltas, txn_idx));
                if output.reconfiguration {
                    ExecutionStatus::SkipRest(output)
                } else {
                    ExecutionStatus::Success(output)
                }
            },
        }
    }

    /// The write operation for `key` after commit: `maybe_blob` is its new
    /// value, or `None` where it is deleted, and `creation` tells whether
    /// the key had no value before. The flag is taken as given.
    pub fn convert_to_value<V: StateView>(
        &self,
        view: &V,
        key: &StateKey,
        maybe_blob: Option<Vec<u8>>,
        creation: bool,
    ) -> (r: Result<WriteOp, ConversionError>)
        ensures
            match convert_spec(
                new_slot_metadata_spec(self.vm_config()),
                storage_op_spec(blob_model(maybe_blob), creation),
                view.lookup(*key),
            ) {
                Ok(w) => r matches Ok(op) && op@ == w,
                Err(_) => r == Err::<WriteOp, ConversionError>(ConversionError),
            },
    {
        let converter = self.write_op_converter();
        let move_op = storage_op(maybe_blob, creation);
        match converter.convert(view, key, move_op) {
            Ok(op) => Ok(op),
            Err(_) => Err(ConversionError),
        }
    }
}

} // verus!
