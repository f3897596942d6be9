use song_stream::client::{client_step, ClientState, StreamEvent, BACKOFF_SECS, UPDATE_TOPIC};
use song_stream::store::{get_current_song, SnapshotStore};

#[test]
fn decoded_update_is_published_and_queryable() {
    let mut store = SnapshotStore::new();
    let chunk = b"data: {\"title\":\"Song A\",\"artist\":\"Artist A\"}\n\n".to_vec();
    let (state, published) =
        client_step(ClientState::Streaming, StreamEvent::Chunk(chunk), &mut store);
    assert_eq!(state, ClientState::Streaming);
    let published = published.expect("one update must be published");
    assert_eq!(published.title, "Song A");
    assert_eq!(published.artist, "Artist A");
    let queried = get_current_song(&store);
    assert_eq!(queried.title, published.title);
    assert_eq!(queried.artist, published.artist);
}

#[test]
fn keep_alive_publishes_nothing_and_keeps_snapshot() {
    let mut store = SnapshotStore::new();
    let (state, published) = client_step(
        ClientState::Streaming,
        StreamEvent::Chunk(b": keep-alive\n\n".to_vec()),
        &mut store,
    );
    assert_eq!(state, ClientState::Streaming);
    assert!(published.is_none());
    let queried = get_current_song(&store);
    assert_eq!(queried.title, "Loading...");
    assert_eq!(queried.artist, "");
}

#[test]
fn repeated_frame_keeps_value_and_publishes_each_time() {
    let mut store = SnapshotStore::new();
    let chunk = b"data: {\"title\":\"Song A\",\"artist\":\"Artist A\"}\n\n";
    let (state, first) = client_step(
        ClientState::Streaming,
        StreamEvent::Chunk(chunk.to_vec()),
        &mut store,
    );
    let (_, second) = client_step(state, StreamEvent::Chunk(chunk.to_vec()), &mut store);
    let first = first.expect("first application publishes");
    let second = second.expect("second application publishes too");
    assert_eq!(first.title, second.title);
    assert_eq!(first.artist, second.artist);
    let queried = get_current_song(&store);
    assert_eq!(queried.title, "Song A");
    assert_eq!(queried.artist, "Artist A");
}

#[test]
fn connection_failure_waits_then_retries() {
    let mut store = SnapshotStore::new();
    let (state, _) = client_step(ClientState::Connecting, StreamEvent::ConnectFailed, &mut store);
    assert_eq!(state, ClientState::Backoff);
    let (state, _) = client_step(state, StreamEvent::BackoffElapsed, &mut store);
    assert_eq!(state, ClientState::Connecting);
}

#[test]
fn clean_eof_reconnects_once_and_keeps_processing() {
    let mut store = SnapshotStore::new();

    // The stream ends cleanly: the client moves to the backoff wait.
    let (state, published) =
        client_step(ClientState::Streaming, StreamEvent::StreamEnded, &mut store);
    assert_eq!(state, ClientState::Backoff);
    assert!(published.is_none());

    // The fixed interval elapses: exactly one reconnection attempt is owed.
    let (state, published) = client_step(state, StreamEvent::BackoffElapsed, &mut store);
    assert_eq!(state, ClientState::Connecting);
    assert!(published.is_none());

    // The attempt succeeds and a later frame is processed as before.
    let (state, published) = client_step(state, StreamEvent::Connected, &mut store);
    assert_eq!(state, ClientState::Streaming);
    assert!(published.is_none());
    let chunk = b"data: {\"title\":\"Song B\"}\n\n".to_vec();
    let (state, published) = client_step(state, StreamEvent::Chunk(chunk), &mut store);
    assert_eq!(state, ClientState::Streaming);
    let published = published.expect("the frame after the reconnect is published");
    assert_eq!(published.title, "Song B");
    assert_eq!(published.artist, "Unknown Artist");
}

#[test]
fn failed_publish_backs_off() {
    let mut store = SnapshotStore::new();
    let (state, published) =
        client_step(ClientState::Streaming, StreamEvent::PublishFailed, &mut store);
    assert_eq!(state, ClientState::Backoff);
    assert!(published.is_none());
}

#[test]
fn mid_stream_error_backs_off() {
    let mut store = SnapshotStore::new();
    let (state, published) =
        client_step(ClientState::Streaming, StreamEvent::ChunkError, &mut store);
    assert_eq!(state, ClientState::Backoff);
    assert!(published.is_none());
}

#[test]
fn invalid_utf8_chunk_fails_the_session() {
    let mut store = SnapshotStore::new();
    let (state, published) = client_step(
        ClientState::Streaming,
        StreamEvent::Chunk(vec![0xff, 0xfe]),
        &mut store,
    );
    assert_eq!(state, ClientState::Backoff);
    assert!(published.is_none());
    // The store keeps its last good value.
    assert_eq!(get_current_song(&store).title, "Loading...");
}

#[test]
fn backoff_interval_is_five_seconds() {
    assert_eq!(BACKOFF_SECS, 5);
}

#[test]
fn update_topic_is_fixed() {
    assert_eq!(UPDATE_TOPIC, "song-info-update");
}
