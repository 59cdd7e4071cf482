use vstd::prelude::*;

use crate::errors::StreamError;
use crate::types::{DataKey, ProtocolConfig, Stream};

verus! {

/// The flat key-value store that backs the engine, made explicit.
///
/// The three logical key classes of [`DataKey`] map onto the three fields:
/// `StreamCounter` to `counter`, `Stream(id)` to `streams` (the record with
/// ID `id` lives at index `id - 1`, since IDs are assigned `1, 2, 3, ...`
/// and records are never removed), and `ProtocolConfig` to `config`.
pub struct Store {
    /// Global monotonic counter; equals the number of streams ever created.
    pub counter: u64,
    /// Every stream record ever created, indexed by `id - 1`.
    pub streams: Vec<Stream>,
    /// The protocol fee configuration; absent until `initialize` succeeds.
    pub config: Option<ProtocolConfig>,
}

impl Store {
    /// Store-wide invariant: the counter counts the records, every record
    /// satisfies the stream accounting invariant, and a stored config obeys
    /// the fee cap.
    pub open spec fn wf(self) -> bool {
        &&& self.counter as int == self.streams@.len()
        &&& forall|i: int|
            0 <= i < self.streams@.len() ==> (#[trigger] self.streams@[i]).wf()
        &&& self.config matches Some(cfg) ==> cfg.wf()
    }

    /// Whether a stream record exists under `stream_id`.
    pub open spec fn has_stream(self, stream_id: u64) -> bool {
        1 <= stream_id <= self.streams@.len()
    }

    /// The stream record stored under `stream_id`.
    pub open spec fn stream_at(self, stream_id: u64) -> Stream
        recommends
            self.has_stream(stream_id),
    {
        self.streams@[stream_id - 1]
    }

    /// Whether any record exists under `key`. The counter class is a
    /// singleton that always exists (an empty store counts zero streams).
    pub open spec fn key_present(self, key: DataKey) -> bool {
        match key {
            DataKey::StreamCounter => true,
            DataKey::Stream(id) => self.has_stream(id),
            DataKey::ProtocolConfig => self.config is Some,
        }
    }

    /// An empty store: no streams, no config, counter at zero.
    pub fn new() -> (s: Store)
        ensures
            s.counter == 0,
            s.streams@ == Seq::<Stream>::empty(),
            s.config is None,
            s.wf(),
    {
        Store { counter: 0, streams: Vec::new(), config: None }
    }
}

/// Whether the store holds a record under `key`: the generic existence
/// query of the storage substrate, addressed through the tagged key union.
pub fn key_exists(store: &Store, key: DataKey) -> (r: bool)
    ensures
        r == store.key_present(key),
{
    match key {
        DataKey::StreamCounter => true,
        DataKey::Stream(id) => 1 <= id && id <= store.streams.len() as u64,
        DataKey::ProtocolConfig => store.config.is_some(),
    }
}

/// Returns the next stream ID and persists the updated counter.
///
/// IDs start at 1 and are never reused or decremented.
pub fn next_stream_id(store: &mut Store) -> (id: u64)
    requires
        old(store).counter < u64::MAX,
    ensures
        id == old(store).counter + 1,
        final(store).counter == id,
        final(store).streams@ == old(store).streams@,
        final(store).config == old(store).config,
{
    store.counter = store.counter + 1;
    store.counter
}

/// Loads a stream by ID, or fails with `StreamNotFound`.
pub fn load_stream(store: &Store, stream_id: u64) -> (r: Result<Stream, StreamError>)
    ensures
        store.has_stream(stream_id) ==> r == Ok::<Stream, StreamError>(
            store.stream_at(stream_id),
        ),
        !store.has_stream(stream_id) ==> r == Err::<Stream, StreamError>(
            StreamError::StreamNotFound,
        ),
{
    if 1 <= stream_id && stream_id <= store.streams.len() as u64 {
        Ok(store.streams[(stream_id - 1) as usize])
    } else {
        Err(StreamError::StreamNotFound)
    }
}

/// Persists a stream record under `stream_id`.
///
/// The ID must be one that `next_stream_id` has handed out: either an
/// existing record is overwritten, or the freshly allocated ID (one past
/// the end) appends a new record.
pub fn save_stream(store: &mut Store, stream_id: u64, stream: &Stream)
    requires
        1 <= stream_id,
        stream_id <= old(store).streams@.len() + 1,
    ensures
        final(store).streams@ == if stream_id <= old(store).streams@.len() {
            old(store).streams@.update(stream_id - 1, *stream)
        } else {
            old(store).streams@.push(*stream)
        },
        final(store).counter == old(store).counter,
        final(store).config == old(store).config,
{
    if stream_id <= store.streams.len() as u64 {
        store.streams[(stream_id - 1) as usize] = *stream;
    } else {
        store.streams.push(*stream);
    }
}

/// Returns the stream if it exists, `None` otherwise (read-only queries).
pub fn try_load_stream(store: &Store, stream_id: u64) -> (r: Option<Stream>)
    ensures
        store.has_stream(stream_id) ==> r == Some(store.stream_at(stream_id)),
        !store.has_stream(stream_id) ==> r is None,
{
    if 1 <= stream_id && stream_id <= store.streams.len() as u64 {
        Some(store.streams[(stream_id - 1) as usize])
    } else {
        None
    }
}

/// Checks whether the protocol config has already been initialized.
pub fn config_exists(store: &Store) -> (r: bool)
    ensures
        r == (store.config is Some),
{
    store.config.is_some()
}

/// Loads the protocol config, or fails with `NotInitialized`.
pub fn load_config(store: &Store) -> (r: Result<ProtocolConfig, StreamError>)
    ensures
        store.config matches Some(cfg) ==> r == Ok::<ProtocolConfig, StreamError>(cfg),
        store.config is None ==> r == Err::<ProtocolConfig, StreamError>(
            StreamError::NotInitialized,
        ),
{
    match store.config {
        Some(cfg) => Ok(cfg),
        None => Err(StreamError::NotInitialized),
    }
}

/// Persists the protocol config.
pub fn save_config(store: &mut Store, config: &ProtocolConfig)
    ensures
        final(store).config == Some(*config),
        final(store).counter == old(store).counter,
        final(store).streams@ == old(store).streams@,
{
    store.config = Some(*config);
}

/// Reads the protocol config as an `Option` (used by fee collection).
pub fn try_load_config(store: &Store) -> (r: Option<ProtocolConfig>)
    ensures
        r == store.config,
{
    store.config
}

} // verus!
