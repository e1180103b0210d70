//! Storage write operations and the conversion of a slot's new value into one.
use vstd::prelude::*;
use crate::state::{SlotMetadata, StateKey, StateReadError, StateView, ReadModel};

verus! {

/// The final mutation of one slot, ready for storage.
#[derive(Debug)]
pub enum WriteOp {
    Creation { data: Vec<u8>, metadata: Option<SlotMetadata> },
    Modification { data: Vec<u8>, metadata: Option<SlotMetadata> },
    Deletion { metadata: Option<SlotMetadata> },
}

/// What a `WriteOp` holds, as mathematical values.
pub enum WriteOpModel {
    Creation { data: Seq<u8>, metadata: Option<SlotMetadata> },
    Modification { data: Seq<u8>, metadata: Option<SlotMetadata> },
    Deletion { metadata: Option<SlotMetadata> },
}

impl View for WriteOp {
    type V = WriteOpModel;

    open spec fn view(&self) -> WriteOpModel {
        match self {
            WriteOp::Creation { data, metadata } => WriteOpModel::Creation {
                data: data@,
                metadata: *metadata,
            },
            WriteOp::Modification { data, metadata } => WriteOpModel::Modification {
                data: data@,
                metadata: *metadata,
            },
            WriteOp::Deletion { metadata } => WriteOpModel::Deletion { metadata: *metadata },
        }
    }
}

/// The change that execution made to a slot, before metadata is attached.
#[derive(Debug)]
pub enum MoveStorageOp {
    New(Vec<u8>),
    Modify(Vec<u8>),
    Delete,
}

pub enum StorageOpModel {
    New(Seq<u8>),
    Modify(Seq<u8>),
    Delete,
}

impl View for MoveStorageOp {
    type V = StorageOpModel;

    open spec fn view(&self) -> StorageOpModel {
        match self {
            MoveStorageOp::New(d) => StorageOpModel::New(d@),
            MoveStorageOp::Modify(d) => StorageOpModel::Modify(d@),
            MoveStorageOp::Delete => StorageOpModel::Delete,
        }
    }
}

pub open spec fn blob_model(blob: Option<Vec<u8>>) -> Option<Seq<u8>> {
    match blob {
        Some(b) => Some(b@),
        None => None,
    }
}

/// A new value makes a slot when `creation` holds and overwrites it
/// otherwise; no value deletes it.
pub open spec fn storage_op_spec(blob: Option<Seq<u8>>, creation: bool) -> StorageOpModel {
    match blob {
        Some(b) => if creation {
            StorageOpModel::New(b)
        } else {
            StorageOpModel::Modify(b)
        },
        None => StorageOpModel::Delete,
    }
}

pub fn storage_op(maybe_blob: Option<Vec<u8>>, creation: bool) -> (r: MoveStorageOp)
    ensures
        r@ == storage_op_spec(blob_model(maybe_blob), creation),
{
    match maybe_blob {
        Some(blob) => if creation {
            MoveStorageOp::New(blob)
        } else {
            MoveStorageOp::Modify(blob)
        },
        None => MoveStorageOp::Delete,
    }
}

/// The metadata that the slot holds now, as a read of it reports.
pub open spec fn existing_metadata(read: ReadModel) -> Result<Option<SlotMetadata>, StateReadError> {
    match read {
        Ok(Some(v)) => Ok(v.metadata),
        Ok(None) => Ok(None),
        Err(e) => Err(e),
    }
}

/// A new slot gets `new_slot_metadata`; a slot that is overwritten or
/// deleted keeps the metadata it has, which `existing` reads.
pub open spec fn convert_spec(
    new_slot_metadata: Option<SlotMetadata>,
    op: StorageOpModel,
    existing: ReadModel,
) -> Result<WriteOpModel, StateReadError> {
    match op {
        StorageOpModel::New(data) => Ok(WriteOpModel::Creation { data, metadata: new_slot_metadata }),
        StorageOpModel::Modify(data) => match existing_metadata(existing) {
            Ok(metadata) => Ok(WriteOpModel::Modification { data, metadata }),
            Err(e) => Err(e),
        },
        StorageOpModel::Delete => match existing_metadata(existing) {
            Ok(metadata) => Ok(WriteOpModel::Deletion { metadata }),
            Err(e) => Err(e),
        },
    }
}

pub open spec fn write_result_model<E>(r: &Result<WriteOp, E>) -> Result<WriteOpModel, E> {
    match r {
        Ok(w) => Ok(w@),
        Err(e) => Err(*e),
    }
}

/// No new value makes a deletion, whatever the creation flag says, wherever
/// the slot's metadata can be read; the deletion keeps that metadata.
pub proof fn lemma_no_value_deletes(
    new_slot_metadata: Option<SlotMetadata>,
    creation: bool,
    existing: ReadModel,
)
    requires
        existing is Ok,
    ensures
        convert_spec(new_slot_metadata, storage_op_spec(None, creation), existing) == Ok::<
            WriteOpModel,
            StateReadError,
        >(WriteOpModel::Deletion { metadata: existing_metadata(existing)->Ok_0 }),
{
}

/// A new value makes a creation where the flag says the slot is new, and a
/// modification otherwise, wherever the slot's metadata can be read.
pub proof fn lemma_value_creates_or_modifies(
    new_slot_metadata: Option<SlotMetadata>,
    data: Seq<u8>,
    existing: ReadModel,
)
    ensures
        convert_spec(new_slot_metadata, storage_op_spec(Some(data), true), existing) == Ok::<
            WriteOpModel,
            StateReadError,
        >(WriteOpModel::Creation { data, metadata: new_slot_metadata }),
        existing is Ok ==> convert_spec(
            new_slot_metadata,
            storage_op_spec(Some(data), false),
            existing,
        ) == Ok::<WriteOpModel, StateReadError>(
            WriteOpModel::Modification { data, metadata: existing_metadata(existing)->Ok_0 },
        ),
{
}

/// Attaches slot metadata to storage changes. `new_slot_metadata` is what
/// a new slot gets: `None` where the metadata policy is off.
#[derive(Clone, Copy, Debug)]
pub struct WriteOpConverter {
    pub new_slot_metadata: Option<SlotMetadata>,
}

impl WriteOpConverter {
    pub fn convert<V: StateView>(&self, view: &V, key: &StateKey, op: MoveStorageOp) -> (r: Result<
        WriteOp,
        StateReadError,
    >)
        ensures
            write_result_model(&r) == convert_spec(self.new_slot_metadata, op@, view.lookup(*key)),
    {
        match op {
            MoveStorageOp::New(data) => Ok(
                WriteOp::Creation { data, metadata: self.new_slot_metadata },
            ),
            MoveStorageOp::Modify(data) => match view.get_state_value(key) {
                Ok(Some(v)) => Ok(WriteOp::Modification { data, metadata: v.metadata }),
                Ok(None) => Ok(WriteOp::Modification { data, metadata: None }),
                Err(e) => Err(e),
            },
            MoveStorageOp::Delete => match view.get_state_value(key) {
                Ok(Some(v)) => Ok(WriteOp::Deletion { metadata: v.metadata }),
                Ok(None) => Ok(WriteOp::Deletion { metadata: None }),
                Err(e) => Err(e),
            },
        }
    }
}

} // verus!
