use vstd::prelude::*;

use crate::youtube::requests::utils::RequestError;

verus! {

/// Main playlist for a channel: the platform-managed playlist all the
/// channel's uploads go to. Transient — produced and consumed within a single
/// "get latest videos" call. Always carries a non-empty `playlist_id`.
#[derive(Debug)]
pub struct Playlist {
    pub channel_id: String,
    pub playlist_id: String,
}

/// Error for playlist operations: a fixed message plus the wrapped cause.
#[derive(Debug)]
pub struct PlaylistError {
    source: Option<RequestError>,
    msg: String,
}

impl Playlist {
    pub fn new(channel_id: String, playlist_id: String) -> (r: Self)
        requires
            playlist_id@.len() > 0,
        ensures
            r.channel_id@ == channel_id@,
            r.playlist_id@ == playlist_id@,
            r.playlist_id@.len() > 0,
    {
        Self { channel_id, playlist_id }
    }
}

} // verus!
