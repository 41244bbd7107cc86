use vstd::prelude::*;

use crate::http_client::HttpClientTrait;
use crate::youtube::playlist::Playlist;
use crate::youtube::requests::channel::resolve_channel_id;
use crate::youtube::requests::playlist::retrieve_main_playlist_id;
use crate::youtube::requests::utils::RequestError;
use crate::youtube::requests::video::retrieve_latest_videos;
use crate::youtube::video::Video;

verus! {

/// A channel on the platform. Created only via successful resolution, inert
/// afterwards; always carries a non-empty `channel_id`.
#[derive(Debug)]
pub struct Channel {
    pub name: String,
    pub channel_id: String,
}

/// Error for channel operations: a fixed message per call site, plus the
/// wrapped lower-layer cause kept for diagnostics.
#[derive(Debug)]
pub struct ChannelError {
    pub source: Option<RequestError>,
    pub msg: String,
}

impl Channel {
    pub fn new(name: String, channel_id: String) -> (r: Self)
        requires
            channel_id@.len() > 0,
        ensures
            r.name@ == name@,
            r.channel_id@ == channel_id@,
            r.channel_id@.len() > 0,
    {
        Self { name, channel_id }
    }

    /// What a channel resolution outcome yields: a `Channel` carrying the
    /// name and exactly the resolved id when that id is non-empty; a failure
    /// with the fixed message "Failed to get channel id" when the id is
    /// empty (a constructed channel always has one) or when the resolution
    /// itself failed, the cause then kept in `source`.
    pub fn channel_from_resolution(name: String, resolved: Result<String, RequestError>) -> (r:
        Result<Self, ChannelError>)
        ensures
            resolved matches Ok(id) ==> id@.len() > 0 ==> (r matches Ok(c) && c.name@ == name@
                && c.channel_id@ == id@),
            resolved matches Ok(id) ==> id@.len() == 0 ==> (r matches Err(e) && e.source is None
                && e.msg@ == "Failed to get channel id"@),
            resolved matches Err(re) ==> (r matches Err(e) && e.source == Some(re) && e.msg@
                == "Failed to get channel id"@),
    {
        match resolved {
            Ok(channel_id) => {
                if channel_id.as_str().is_empty() {
                    Err(
                        ChannelError {
                            source: None,
                            msg: "Failed to get channel id".to_owned(),
                        },
                    )
                } else {
                    Ok(Self::new(name, channel_id))
                }
            },
            Err(e) => Err(
                ChannelError { source: Some(e), msg: "Failed to get channel id".to_owned() },
            ),
        }
    }

    /// Resolve a channel name to a channel: one lookup through the
    /// capability, then [`Self::channel_from_resolution`], which states
    /// exactly what each resolution outcome yields.
    pub fn initialize<T: HttpClientTrait>(name: String, client: &T) -> (r: Result<
        Self,
        ChannelError,
    >)
        ensures
            r matches Ok(c) ==> c.name@ == name@ && c.channel_id@.len() > 0,
            r matches Err(e) ==> e.msg@ == "Failed to get channel id"@,
    {
        let resolved = resolve_channel_id(&name, client);
        Self::channel_from_resolution(name, resolved)
    }

    /// What a playlist resolution outcome yields for this channel: a
    /// `Playlist` carrying this channel's id and exactly the resolved
    /// uploads id when that id is non-empty; a failure with the fixed
    /// message "Failed to get playlist id" when the id is empty (a playlist
    /// always has one) or when the resolution itself failed, the cause then
    /// kept in `source`.
    pub fn playlist_from_resolution(&self, resolved: Result<String, RequestError>) -> (r: Result<
        Playlist,
        ChannelError,
    >)
        ensures
            resolved matches Ok(pid) ==> pid@.len() > 0 ==> (r matches Ok(p) && p.channel_id@
                == self.channel_id@ && p.playlist_id@ == pid@),
            resolved matches Ok(pid) ==> pid@.len() == 0 ==> (r matches Err(e) && e.source is None
                && e.msg@ == "Failed to get playlist id"@),
            resolved matches Err(re) ==> (r matches Err(e) && e.source == Some(re) && e.msg@
                == "Failed to get playlist id"@),
    {
        match resolved {
            Ok(playlist_id) => {
                if playlist_id.as_str().is_empty() {
                    Err(
                        ChannelError {
                            source: None,
                            msg: "Failed to get playlist id".to_owned(),
                        },
                    )
                } else {
                    Ok(Playlist::new(self.channel_id.clone(), playlist_id))
                }
            },
            Err(e) => Err(
                ChannelError { source: Some(e), msg: "Failed to get playlist id".to_owned() },
            ),
        }
    }

    /// Resolve this channel's main upload playlist: one lookup through the
    /// capability, then [`Self::playlist_from_resolution`], which states
    /// exactly what each resolution outcome yields.
    pub fn get_main_playlist_id<T: HttpClientTrait>(&self, client: &T) -> (r: Result<
        Playlist,
        ChannelError,
    >)
        ensures
            r matches Ok(p) ==> p.channel_id@ == self.channel_id@ && p.playlist_id@.len() > 0,
            r matches Err(e) ==> e.msg@ == "Failed to get playlist id"@,
    {
        let resolved = retrieve_main_playlist_id(&self.channel_id, client);
        self.playlist_from_resolution(resolved)
    }

    /// What a video-listing retrieval outcome yields: a successful listing
    /// handed through unchanged; a failure wrapped with the fixed message
    /// "Failed to get videos from channel", the cause kept in `source`.
    pub fn videos_from_retrieval(retrieved: Result<Vec<Video>, RequestError>) -> (r: Result<
        Vec<Video>,
        ChannelError,
    >)
        ensures
            retrieved matches Ok(vs) ==> (r matches Ok(out) && out == vs),
            retrieved matches Err(re) ==> (r matches Err(e) && e.source == Some(re) && e.msg@
                == "Failed to get videos from channel"@),
    {
        match retrieved {
            Ok(vs) => Ok(vs),
            Err(e) => Err(
                ChannelError {
                    source: Some(e),
                    msg: "Failed to get videos from channel".to_owned(),
                },
            ),
        }
    }

    /// The channel's latest videos: resolve the main upload playlist, then
    /// list its items, short-circuiting on the first failure — no partial
    /// results. A returned list is never empty; each stage's failure carries
    /// its own fixed message, stated exactly at
    /// [`Self::playlist_from_resolution`] and [`Self::videos_from_retrieval`].
    pub fn get_latest_videos<T: HttpClientTrait>(&self, number_of_videos: i32, client: &T) -> (r:
        Result<Vec<Video>, ChannelError>)
        ensures
            r matches Ok(vs) ==> vs@.len() > 0,
            r matches Err(e) ==> e.msg@ == "Failed to get playlist id"@ || e.msg@
                == "Failed to get videos from channel"@,
    {
        let playlist = match self.get_main_playlist_id(client) {
            Ok(p) => p,
            Err(e) => {
                return Err(e);
            },
        };
        let retrieved = retrieve_latest_videos(&playlist.playlist_id, number_of_videos, client);
        Self::videos_from_retrieval(retrieved)
    }
}

} // verus!
