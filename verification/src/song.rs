use vstd::prelude::*;
use vstd::string::StringExecFns;

verus! {

/// The decoded wire payload of one event frame; either field may be absent.
pub struct IncomingEvent {
    pub title: Option<String>,
    pub artist: Option<String>,
}

/// Mathematical model of an `IncomingEvent`.
pub ghost struct EventData {
    pub title: Option<Seq<char>>,
    pub artist: Option<Seq<char>>,
}

impl View for IncomingEvent {
    type V = EventData;

    open spec fn view(&self) -> EventData {
        EventData {
            title: match self.title {
                Some(t) => Some(t@),
                None => None,
            },
            artist: match self.artist {
                Some(a) => Some(a@),
                None => None,
            },
        }
    }
}

/// The snapshot value: both fields always present.
pub struct SongInfo {
    pub title: String,
    pub artist: String,
}

/// Mathematical model of a `SongInfo`.
pub ghost struct SongData {
    pub title: Seq<char>,
    pub artist: Seq<char>,
}

impl View for SongInfo {
    type V = SongData;

    open spec fn view(&self) -> SongData {
        SongData { title: self.title@, artist: self.artist@ }
    }
}

impl Clone for SongInfo {
    fn clone(&self) -> (r: Self)
        ensures
            r@ == self@,
    {
        SongInfo { title: self.title.clone(), artist: self.artist.clone() }
    }
}

/// The snapshot a frame decodes to: absent fields fall back to fixed defaults.
pub open spec fn song_of_event(e: EventData) -> SongData {
    SongData {
        title: match e.title {
            Some(t) => t,
            None => "Unknown Title"@,
        },
        artist: match e.artist {
            Some(a) => a,
            None => "Unknown Artist"@,
        },
    }
}

/// Converts a decoded frame into the snapshot value, substituting the default
/// title and artist for absent fields.
pub fn song_from_event(e: IncomingEvent) -> (r: SongInfo)
    ensures
        r@ == song_of_event(e@),
        e@.title matches Some(t) ==> r@.title == t,
        e@.title is None ==> r@.title == "Unknown Title"@,
        e@.artist matches Some(a) ==> r@.artist == a,
        e@.artist is None ==> r@.artist == "Unknown Artist"@,
{
    let title = match e.title {
        Some(t) => t,
        None => String::from_str("Unknown Title"),
    };
    let artist = match e.artist {
        Some(a) => a,
        None => String::from_str("Unknown Artist"),
    };
    SongInfo { title, artist }
}

/// The placeholder snapshot held before any successful update.
pub open spec fn initial_song() -> SongData {
    SongData { title: "Loading..."@, artist: ""@ }
}

} // verus!
