use vstd::prelude::*;

use crate::parser::{chunk_outcome_spec, process_chunk, ChunkOutcome, ChunkOutcomeData};
use crate::song::{SongData, SongInfo};
use crate::store::SnapshotStore;

verus! {

/// Seconds to wait between a failed or ended connection and the next attempt.
pub const BACKOFF_SECS: u64 = 5;

/// The topic every published update is delivered under.
pub const UPDATE_TOPIC: &'static str = "song-info-update";

/// The connection lifecycle of the reconnecting client. A closed and a failed
/// connection both land in `Backoff`, and `Backoff` always leads back to
/// `Connecting`: the loop has no terminal state.
#[derive(Clone, Copy, PartialEq, Eq, Structural, Debug)]
pub enum ClientState {
    /// A connection attempt is owed.
    Connecting,
    /// A connection is open and chunks are being read.
    Streaming,
    /// Waiting out the fixed interval before reconnecting.
    Backoff,
}

/// What the surrounding transport reports to the client.
pub enum StreamEvent {
    /// A connection attempt succeeded.
    Connected,
    /// A connection attempt failed (DNS, TLS, status, timeout).
    ConnectFailed,
    /// One chunk of the response body arrived.
    Chunk(Vec<u8>),
    /// Reading a chunk failed mid-stream.
    ChunkError,
    /// Delivering a published update to the notification sink failed.
    PublishFailed,
    /// The remote closed the stream cleanly.
    StreamEnded,
    /// The backoff interval elapsed.
    BackoffElapsed,
}

/// Mathematical model of a `StreamEvent`.
pub ghost enum StreamEventData {
    Connected,
    ConnectFailed,
    Chunk(Seq<u8>),
    ChunkError,
    PublishFailed,
    StreamEnded,
    BackoffElapsed,
}

impl View for StreamEvent {
    type V = StreamEventData;

    open spec fn view(&self) -> StreamEventData {
        match self {
            StreamEvent::Connected => StreamEventData::Connected,
            StreamEvent::ConnectFailed => StreamEventData::ConnectFailed,
            StreamEvent::Chunk(bytes) => StreamEventData::Chunk(bytes@),
            StreamEvent::ChunkError => StreamEventData::ChunkError,
            StreamEvent::PublishFailed => StreamEventData::PublishFailed,
            StreamEvent::StreamEnded => StreamEventData::StreamEnded,
            StreamEvent::BackoffElapsed => StreamEventData::BackoffElapsed,
        }
    }
}

/// What one step of the client leaves behind: the next lifecycle state, the
/// snapshot after the step, and the update published by the step, if any.
pub ghost struct StepOutcome {
    pub state: ClientState,
    pub song: SongData,
    pub publish: Option<SongData>,
}

/// The client's transition function. A decoded update is written to the
/// snapshot and published; an ignored chunk changes nothing; a chunk that is
/// not valid UTF-8, a transport error, a failed publish and a clean end of
/// stream all lead to the backoff wait. An event that cannot occur in the
/// given state changes nothing.
pub open spec fn step_spec(state: ClientState, event: StreamEventData, song: SongData) -> StepOutcome {
    match (state, event) {
        (ClientState::Connecting, StreamEventData::Connected) => StepOutcome {
            state: ClientState::Streaming,
            song,
            publish: None,
        },
        (ClientState::Connecting, StreamEventData::ConnectFailed) => StepOutcome {
            state: ClientState::Backoff,
            song,
            publish: None,
        },
        (ClientState::Streaming, StreamEventData::Chunk(bytes)) => match chunk_outcome_spec(
            bytes,
        ) {
            ChunkOutcomeData::Invalid => StepOutcome {
                state: ClientState::Backoff,
                song,
                publish: None,
            },
            ChunkOutcomeData::Ignored => StepOutcome {
                state: ClientState::Streaming,
                song,
                publish: None,
            },
            ChunkOutcomeData::Update(update) => StepOutcome {
                state: ClientState::Streaming,
                song: update,
                publish: Some(update),
            },
        },
        (ClientState::Streaming, StreamEventData::ChunkError) => StepOutcome {
            state: ClientState::Backoff,
            song,
            publish: None,
        },
        (ClientState::Streaming, StreamEventData::PublishFailed) => StepOutcome {
            state: ClientState::Backoff,
            song,
            publish: None,
        },
        (ClientState::Streaming, StreamEventData::StreamEnded) => StepOutcome {
            state: ClientState::Backoff,
            song,
            publish: None,
        },
        (ClientState::Backoff, StreamEventData::BackoffElapsed) => StepOutcome {
            state: ClientState::Connecting,
            song,
            publish: None,
        },
        _ => StepOutcome { state, song, publish: None },
    }
}

/// The view of an optional published update.
pub open spec fn opt_song_view(s: Option<SongInfo>) -> Option<SongData> {
    match s {
        Some(info) => Some(info@),
        None => None,
    }
}

/// Advances the client by one event: updates the snapshot store as the
/// transition function says and returns the next state together with the
/// update to publish, if any. Publishing and the snapshot write carry the same
/// decoded value, and each event is fully processed before the next one.
pub fn client_step(state: ClientState, event: StreamEvent, store: &mut SnapshotStore) -> (r: (
    ClientState,
    Option<SongInfo>,
))
    ensures
        ({
            let out = step_spec(state, event@, old(store)@);
            &&& r.0 == out.state
            &&& final(store)@ == out.song
            &&& opt_song_view(r.1) == out.publish
        }),
{
    match (state, event) {
        (ClientState::Connecting, StreamEvent::Connected) => (ClientState::Streaming, None),
        (ClientState::Connecting, StreamEvent::ConnectFailed) => (ClientState::Backoff, None),
        (ClientState::Streaming, StreamEvent::Chunk(bytes)) => match process_chunk(
            bytes.as_slice(),
        ) {
            ChunkOutcome::Invalid => (ClientState::Backoff, None),
            ChunkOutcome::Ignored => (ClientState::Streaming, None),
            ChunkOutcome::Update(update) => {
                let published = update.clone();
                store.replace(update);
                (ClientState::Streaming, Some(published))
            },
        },
        (ClientState::Streaming, StreamEvent::ChunkError) => (ClientState::Backoff, None),
        (ClientState::Streaming, StreamEvent::PublishFailed) => (ClientState::Backoff, None),
        (ClientState::Streaming, StreamEvent::StreamEnded) => (ClientState::Backoff, None),
        (ClientState::Backoff, StreamEvent::BackoffElapsed) => (ClientState::Connecting, None),
        (s, _) => (s, None),
    }
}

/// Law: whenever a step publishes an update, the snapshot it leaves behind is
/// exactly the published value, so a query made after the step and before any
/// further update returns that update.
pub proof fn lemma_published_update_is_queried(
    state: ClientState,
    event: StreamEventData,
    song: SongData,
)
    ensures
        ({
            let out = step_spec(state, event, song);
            out.publish matches Some(p) ==> out.song == p
        }),
{
}

/// Law: a step that publishes nothing leaves the snapshot unchanged. Starting
/// from a fresh store, queries therefore return the placeholder value until
/// the first decoded update arrives.
pub proof fn lemma_no_publish_keeps_snapshot(
    state: ClientState,
    event: StreamEventData,
    song: SongData,
)
    ensures
        ({
            let out = step_spec(state, event, song);
            out.publish is None ==> out.song == song
        }),
{
}

/// Law: feeding the same chunk twice in a row leaves the snapshot where the
/// first application put it, and each application of a decoded frame still
/// publishes exactly one update.
pub proof fn lemma_repeated_frame_idempotent(bytes: Seq<u8>, song: SongData)
    ensures
        ({
            let first = step_spec(ClientState::Streaming, StreamEventData::Chunk(bytes), song);
            let second = step_spec(first.state, StreamEventData::Chunk(bytes), first.song);
            &&& second.song == first.song
            &&& second.publish == first.publish
            &&& chunk_outcome_spec(bytes) is Update ==> first.publish is Some
                && second.publish is Some
        }),
{
}

} // verus!
