use vstd::prelude::*;

use crate::youtube::requests::channel::{ChannelLookupResponse, ChannelSearchResponse};
use crate::youtube::requests::playlist::PlaylistResponse;
use crate::youtube::requests::video::VideoListingResponse;

verus! {

/// What one HTTP GET produced once a response arrived: the status code, and
/// the outcome of decoding the body into the expected wire shape (the decoded
/// record, or the decoder's failure message).
pub struct RawResponse<T> {
    pub status: u16,
    pub parsed: Result<T, String>,
}

/// The fetch capability every resolution stage goes through: one method per
/// wire shape, each performing a single GET for the given URL and decoding
/// the body into that shape. `Err` is a transport failure (no response
/// arrived), described by a message.
///
/// Implementations live outside the verified library: a real HTTP client in
/// production, a scripted double in tests. Nothing is assumed about what they
/// return; every caller in this crate states what holds of its own result
/// whatever the capability handed back.
pub trait HttpClientTrait {
    /// GET a channel-lookup URL, decoding `{items: [{id}]}`.
    fn get_channel_lookup(&self, url: &str) -> Result<RawResponse<ChannelLookupResponse>, String>;

    /// GET a channel-search URL, decoding
    /// `{items: [{snippet: {channelId, channelTitle, channelHandle}}]}`.
    fn get_channel_search(&self, url: &str) -> Result<RawResponse<ChannelSearchResponse>, String>;

    /// GET a channel-detail URL, decoding
    /// `{items: [{contentDetails: {relatedPlaylists: {uploads}}}]}`.
    fn get_playlist_lookup(&self, url: &str) -> Result<RawResponse<PlaylistResponse>, String>;

    /// GET a playlist-items or video-lookup URL, decoding
    /// `{items: [{snippet: {...}}]}`.
    fn get_video_listing(&self, url: &str) -> Result<RawResponse<VideoListingResponse>, String>;
}

} // verus!
