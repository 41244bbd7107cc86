use vstd::prelude::*;

use crate::http_client::HttpClientTrait;
use crate::youtube::requests::utils::{
    build_url, count_to_string, decimal_of, params_view, process_response, transport_failure,
    url_parse_ok, RequestError,
};
use crate::youtube::video::Video;

verus! {

/// The metadata sub-record of one listed item, reduced to what the lister
/// reads: title, description, publish timestamp, the high-resolution
/// thumbnail URL, and the optional resource identifier (absent for some
/// deleted or private entries).
pub struct VideoSnippet {
    pub title: String,
    pub description: String,
    pub published_at: String,
    pub thumbnail: String,
    pub video_id: Option<String>,
}

/// Decoded wire shape of a playlist-items or video lookup:
/// `{items: [{snippet: {title, description, publishedAt, thumbnails,
/// resourceId?}}]}`.
pub struct VideoListingResponse {
    pub items: Vec<VideoSnippet>,
}

/// The video id a listed snippet stands for: its resource identifier when
/// present, the empty string otherwise (policy, not a defect).
pub open spec fn snippet_video_id(s: VideoSnippet) -> Seq<char> {
    match s.video_id {
        Some(v) => v@,
        None => Seq::<char>::empty(),
    }
}

/// The video record carries exactly the snippet's data, with the id the
/// snippet stands for.
pub open spec fn video_matches_snippet(v: Video, s: VideoSnippet) -> bool {
    v.id@ == snippet_video_id(s) && v.title@ == s.title@ && v.description@ == s.description@
        && v.published_at@ == s.published_at@ && v.thumbnail@ == s.thumbnail@
}

/// What a decoded video listing yields: one video per listed item, in the
/// upstream order, an item without a resource identifier kept with an empty
/// id; an empty items list is `NotFound` by design, even though the HTTP
/// call succeeded.
pub fn videos_from_listing(response: VideoListingResponse) -> (r: Result<Vec<Video>, RequestError>)
    ensures
        response.items@.len() == 0 ==> (r matches Err(e) && e is NotFound),
        response.items@.len() > 0 ==> (r matches Ok(vs) && vs@.len() == response.items@.len()
            && forall|i: int|
            0 <= i < vs@.len() ==> video_matches_snippet(#[trigger] vs@[i], response.items@[i])),
{
    if response.items.len() == 0 {
        return Err(RequestError::NotFound);
    }
    let mut out: Vec<Video> = Vec::new();
    let n = response.items.len();
    let mut k: usize = 0;
    while k < n
        invariant
            n == response.items@.len(),
            k <= n,
            out@.len() == k,
            forall|i: int|
                0 <= i < k ==> video_matches_snippet(#[trigger] out@[i], response.items@[i]),
        decreases n - k,
    {
        let s = &response.items[k];
        let id: String = match &s.video_id {
            Some(v) => v.clone(),
            None => String::new(),
        };
        let v = Video::new(
            id,
            s.title.clone(),
            s.description.clone(),
            s.published_at.clone(),
            s.thumbnail.clone(),
        );
        out.push(v);
        k = k + 1;
    }
    Ok(out)
}

/// What a decoded video lookup yields: a video built from the first item's
/// snippet but carrying the caller-supplied id — the endpoint only confirms
/// existence and metadata; `NotFound` when the items list is empty.
pub fn video_from_lookup(video_id: String, response: VideoListingResponse) -> (r: Result<
    Video,
    RequestError,
>)
    ensures
        response.items@.len() == 0 ==> (r matches Err(e) && e is NotFound),
        response.items@.len() > 0 ==> (r matches Ok(v) && v.id@ == video_id@
            && v.title@ == response.items@[0].title@
            && v.description@ == response.items@[0].description@
            && v.published_at@ == response.items@[0].published_at@
            && v.thumbnail@ == response.items@[0].thumbnail@),
{
    if response.items.len() == 0 {
        return Err(RequestError::NotFound);
    }
    let s = &response.items[0];
    Ok(
        Video::new(
            video_id,
            s.title.clone(),
            s.description.clone(),
            s.published_at.clone(),
            s.thumbnail.clone(),
        ),
    )
}

/// The query parameters of a playlist-items listing.
pub open spec fn playlist_items_params(count: int, playlist_id: Seq<char>) -> Seq<
    (Seq<char>, Seq<char>),
> {
    seq![("part"@, "snippet"@), ("maxResults"@, decimal_of(count)), ("playlistId"@, playlist_id)]
}

/// The query parameters of a video lookup.
pub open spec fn video_lookup_params(video_id: Seq<char>) -> Seq<(Seq<char>, Seq<char>)> {
    seq![("part"@, "snippet"@), ("id"@, video_id)]
}

/// List a playlist's latest videos
/// (`playlistItems?part=snippet&maxResults=<count>&playlistId=<playlist_id>`):
/// one GET through the capability, then validation by
/// [`videos_from_listing`], which states exactly what each decoded response
/// yields. A returned list is never empty. The one failure of this function's
/// own — `Other`, before any GET — comes exactly when the request URL cannot
/// be built.
pub fn retrieve_latest_videos<T: HttpClientTrait>(
    playlist_id: &String,
    number_of_videos: i32,
    client: &T,
) -> (r: Result<Vec<Video>, RequestError>)
    ensures
        r matches Ok(vs) ==> vs@.len() > 0,
        r matches Err(e) && e is Other ==> !url_parse_ok(
            "https://yt.lemnoslife.com/noKey/playlistItems"@,
            playlist_items_params(number_of_videos as int, playlist_id@),
        ),
        !url_parse_ok(
            "https://yt.lemnoslife.com/noKey/playlistItems"@,
            playlist_items_params(number_of_videos as int, playlist_id@),
        ) ==> (r matches Err(e) && e is Other),
{
    let mut params: Vec<(String, String)> = Vec::new();
    params.push(("part".to_owned(), "snippet".to_owned()));
    params.push(("maxResults".to_owned(), count_to_string(number_of_videos)));
    params.push(("playlistId".to_owned(), playlist_id.clone()));
    proof {
        assert(params_view(params@) =~= playlist_items_params(
            number_of_videos as int,
            playlist_id@,
        ));
    }
    let url = match build_url("https://yt.lemnoslife.com/noKey/playlistItems", &params) {
        Ok(u) => u,
        Err(m) => {
            return Err(RequestError::Other(m));
        },
    };
    let fetched = match client.get_video_listing(url.as_str()) {
        Ok(resp) => resp,
        Err(m) => {
            return Err(transport_failure(m));
        },
    };
    let data = match process_response(fetched) {
        Ok(d) => d,
        Err(e) => {
            return Err(e);
        },
    };
    videos_from_listing(data)
}

/// Look a single video up (`videos?part=snippet&id=<video_id>`): one GET
/// through the capability, then validation by [`video_from_lookup`], which
/// states exactly what each decoded response yields. A returned video
/// carries the caller-supplied id. The one failure of this function's own —
/// `Other`, before any GET — comes exactly when the request URL cannot be
/// built.
pub fn retrieve_video_by_id<T: HttpClientTrait>(video_id: &String, client: &T) -> (r: Result<
    Video,
    RequestError,
>)
    ensures
        r matches Ok(v) ==> v.id@ == video_id@,
        r matches Err(e) && e is Other ==> !url_parse_ok(
            "https://yt.lemnoslife.com/noKey/videos"@,
            video_lookup_params(video_id@),
        ),
        !url_parse_ok("https://yt.lemnoslife.com/noKey/videos"@, video_lookup_params(video_id@))
            ==> (r matches Err(e) && e is Other),
{
    let mut params: Vec<(String, String)> = Vec::new();
    params.push(("part".to_owned(), "snippet".to_owned()));
    params.push(("id".to_owned(), video_id.clone()));
    proof {
        assert(params_view(params@) =~= video_lookup_params(video_id@));
    }
    let url = match build_url("https://yt.lemnoslife.com/noKey/videos", &params) {
        Ok(u) => u,
        Err(m) => {
            return Err(RequestError::Other(m));
        },
    };
    let fetched = match client.get_video_listing(url.as_str()) {
        Ok(resp) => resp,
        Err(m) => {
            return Err(transport_failure(m));
        },
    };
    let data = match process_response(fetched) {
        Ok(d) => d,
        Err(e) => {
            return Err(e);
        },
    };
    video_from_lookup(video_id.clone(), data)
}

} // verus!
