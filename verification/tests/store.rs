use song_stream::song::SongInfo;
use song_stream::store::{get_current_song, SnapshotStore};

#[test]
fn initial_value_is_placeholder() {
    let store = SnapshotStore::new();
    let song = get_current_song(&store);
    assert_eq!(song.title, "Loading...");
    assert_eq!(song.artist, "");
}

#[test]
fn replace_then_read_round_trips() {
    let mut store = SnapshotStore::new();
    store.replace(SongInfo {
        title: String::from("Song A"),
        artist: String::from("Artist A"),
    });
    let song = store.read();
    assert_eq!(song.title, "Song A");
    assert_eq!(song.artist, "Artist A");
}

#[test]
fn replace_swaps_the_whole_value() {
    let mut store = SnapshotStore::new();
    store.replace(SongInfo {
        title: String::from("Song A"),
        artist: String::from("Artist A"),
    });
    store.replace(SongInfo {
        title: String::from("Song B"),
        artist: String::from("Artist B"),
    });
    let song = get_current_song(&store);
    assert_eq!(song.title, "Song B");
    assert_eq!(song.artist, "Artist B");
}
