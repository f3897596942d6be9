use vstd::prelude::*;
use vstd::string::StringExecFns;

use crate::song::{initial_song, SongData, SongInfo};

verus! {

/// Holds the latest known snapshot; reads and replacements are whole-value
/// operations, so no caller ever observes a half-updated value.
pub struct SnapshotStore {
    current: SongInfo,
}

impl View for SnapshotStore {
    type V = SongData;

    closed spec fn view(&self) -> SongData {
        self.current@
    }
}

impl SnapshotStore {
    /// A fresh store holds the placeholder value.
    pub fn new() -> (r: SnapshotStore)
        ensures
            r@ == initial_song(),
    {
        SnapshotStore {
            current: SongInfo {
                title: String::from_str("Loading..."),
                artist: String::from_str(""),
            },
        }
    }

    /// Returns a copy of the current snapshot.
    pub fn read(&self) -> (r: SongInfo)
        ensures
            r@ == self@,
    {
        self.current.clone()
    }

    /// Replaces the stored snapshot wholesale.
    pub fn replace(&mut self, value: SongInfo)
        ensures
            final(self)@ == value@,
    {
        self.current = value;
    }
}

/// The synchronous query surface: returns the current snapshot at any time.
pub fn get_current_song(store: &SnapshotStore) -> (r: SongInfo)
    ensures
        r@ == store@,
{
    store.read()
}

} // verus!
