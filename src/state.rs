//! Keys, values and read-only views of state.
use vstd::prelude::*;

verus! {

/// Identifies one slot of state.
#[derive(Clone, Copy, Debug, PartialEq, Eq, Structural)]
pub struct StateKey {
    pub id: u64,
}

/// Bookkeeping kept beside a slot's value.
#[derive(Clone, Copy, Debug, PartialEq, Eq, Structural)]
pub struct SlotMetadata {
    pub deposit: u64,
    pub creation_time_usecs: u64,
}

/// The value stored in a slot.
#[derive(Debug)]
pub struct StateValue {
    pub bytes: Vec<u8>,
    pub metadata: Option<SlotMetadata>,
}

/// What a `StateValue` holds, as mathematical values.
pub struct StateValueModel {
    pub bytes: Seq<u8>,
    pub metadata: Option<SlotMetadata>,
}

impl View for StateValue {
    type V = StateValueModel;

    open spec fn view(&self) -> StateValueModel {
        StateValueModel { bytes: self.bytes@, metadata: self.metadata }
    }
}

impl StateValue {
    pub fn new(bytes: Vec<u8>, metadata: Option<SlotMetadata>) -> (r: StateValue)
        ensures
            r@ == (StateValueModel { bytes: bytes@, metadata }),
    {
        StateValue { bytes, metadata }
    }

    pub fn duplicate(&self) -> (r: StateValue)
        ensures
            r@ == self@,
    {
        let mut bytes: Vec<u8> = Vec::new();
        let mut i: usize = 0;
        while i < self.bytes.len()
            invariant
                i <= self.bytes@.len(),
                bytes@ == self.bytes@.subrange(0, i as int),
            decreases self.bytes@.len() - i,
        {
            bytes.push(self.bytes[i]);
            i = i + 1;
            assert(bytes@ =~= self.bytes@.subrange(0, i as int));
        }
        assert(bytes@ =~= self.bytes@);
        StateValue { bytes, metadata: self.metadata }
    }
}

/// A read of a slot failed in the store behind a view.
#[derive(Clone, Copy, Debug, PartialEq, Eq, Structural)]
pub struct StateReadError;

/// The outcome of reading one slot: the slot's value, if it has one.
pub type ReadModel = Result<Option<StateValueModel>, StateReadError>;

pub open spec fn read_model(r: &Result<Option<StateValue>, StateReadError>) -> ReadModel {
    match r {
        Ok(Some(v)) => Ok(Some(v@)),
        Ok(None) => Ok(None),
        Err(e) => Err(*e),
    }
}

/// A read-only view of state: the base store, or the engine's view of the
/// writes of lower transaction indices laid over it.
pub trait StateView {
    /// What a read of `key` gives.
    spec fn lookup(&self, key: StateKey) -> ReadModel;

    fn get_state_value(&self, key: &StateKey) -> (r: Result<Option<StateValue>, StateReadError>)
        ensures
            read_model(&r) == self.lookup(*key),
    ;
}

/// Two views read the same on every key of `keys`.
pub open spec fn agree_on<V1: StateView, V2: StateView>(a: &V1, b: &V2, keys: Set<StateKey>) -> bool {
    forall|k: StateKey| keys.contains(k) ==> #[trigger] a.lookup(k) == b.lookup(k)
}

/// Of the entries in `log`, the value that the last one for `key` sets.
pub open spec fn latest(log: Seq<(StateKey, Option<StateValueModel>)>, key: StateKey) -> Option<
    StateValueModel,
>
    decreases log.len(),
{
    if log.len() == 0 {
        None
    } else if log.last().0 == key {
        log.last().1
    } else {
        latest(log.drop_last(), key)
    }
}

pub open spec fn option_model(v: Option<StateValue>) -> Option<StateValueModel> {
    match v {
        Some(v) => Some(v@),
        None => None,
    }
}

/// A store held in memory, whose reads never fail. It keeps every write in
/// order; a read gives what the last write to the key set.
pub struct InMemoryState {
    entries: Vec<(StateKey, Option<StateValue>)>,
}

impl InMemoryState {
    /// The writes made so far, oldest first.
    pub closed spec fn log(&self) -> Seq<(StateKey, Option<StateValueModel>)> {
        self.entries@.map_values(|e: (StateKey, Option<StateValue>)| (e.0, option_model(e.1)))
    }

    /// The value that `key` holds.
    pub open spec fn value_at(&self, key: StateKey) -> Option<StateValueModel> {
        latest(self.log(), key)
    }

    /// An empty store.
    pub fn new() -> (r: InMemoryState)
        ensures
            forall|k: StateKey| #[trigger] r.value_at(k) == None::<StateValueModel>,
    {
        let r = InMemoryState { entries: Vec::new() };
        assert(r.log() =~= Seq::<(StateKey, Option<StateValueModel>)>::empty());
        r
    }

    /// Sets the value of `key`; `None` removes it.
    pub fn set(&mut self, key: StateKey, value: Option<StateValue>)
        ensures
            forall|k: StateKey|
                #[trigger] final(self).value_at(k) == if k == key {
                    option_model(value)
                } else {
                    old(self).value_at(k)
                },
    {
        let ghost m = option_model(value);
        self.entries.push((key, value));
        assert(self.log().drop_last() =~= old(self).log());
        assert(self.log().last() == (key, m));
    }

    /// Gives `key` the value `bytes` with no metadata.
    pub fn insert(&mut self, key: StateKey, bytes: Vec<u8>)
        ensures
            forall|k: StateKey|
                #[trigger] final(self).value_at(k) == if k == key {
                    Some(StateValueModel { bytes: bytes@, metadata: None })
                } else {
                    old(self).value_at(k)
                },
    {
        self.set(key, Some(StateValue { bytes, metadata: None }));
    }

    /// Removes the value of `key`.
    pub fn remove(&mut self, key: StateKey)
        ensures
            forall|k: StateKey|
                #[trigger] final(self).value_at(k) == if k == key {
                    None
                } else {
                    old(self).value_at(k)
                },
    {
        self.set(key, None);
    }

    /// The value of `key`, if it has one.
    pub fn get(&self, key: &StateKey) -> (r: Option<StateValue>)
        ensures
            option_model(r) == self.value_at(*key),
    {
        let mut i: usize = self.entries.len();
        assert(self.log().subrange(0, i as int) =~= self.log());
        while i > 0
            invariant
                i <= self.entries@.len(),
                latest(self.log(), *key) == latest(self.log().subrange(0, i as int), *key),
            decreases i,
        {
            let entry = &self.entries[i - 1];
            assert(self.log().subrange(0, i as int).drop_last() =~= self.log().subrange(
                0,
                i - 1,
            ));
            if entry.0 == *key {
                return match &entry.1 {
                    Some(v) => Some(v.duplicate()),
                    None => None,
                };
            }
            i = i - 1;
        }
        None
    }
}

impl StateView for InMemoryState {
    open spec fn lookup(&self, key: StateKey) -> ReadModel {
        Ok(self.value_at(key))
    }

    fn get_state_value(&self, key: &StateKey) -> (r: Result<Option<StateValue>, StateReadError>) {
        Ok(self.get(key))
    }
}

} // verus!
