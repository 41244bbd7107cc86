use vstd::prelude::*;

use crate::http_client::HttpClientTrait;
use crate::youtube::requests::utils::{
    build_url, params_view, process_response, transport_failure, url_parse_ok, RequestError,
};

verus! {

/// One item of a channel-detail response, reduced to what the resolver
/// reads: the channel's main upload-playlist id, which may be null upstream.
pub struct PlaylistItem {
    pub uploads: Option<String>,
}

/// Decoded wire shape of a channel detail lookup:
/// `{items: [{contentDetails: {relatedPlaylists: {uploads}}}]}`.
pub struct PlaylistResponse {
    pub items: Vec<PlaylistItem>,
}

/// What a decoded channel-detail response yields: the first item's `uploads`
/// playlist id when present; `NotFound` when the items list is empty;
/// `ResponseNotParsed` when an item was there but `uploads` was null — an
/// unusable shape, not absence.
pub fn main_playlist_id_from(response: PlaylistResponse) -> (r: Result<String, RequestError>)
    ensures
        response.items@.len() == 0 ==> (r matches Err(e) && e is NotFound),
        response.items@.len() > 0 && response.items@[0].uploads is None ==> (r matches Err(e)
            && e is ResponseNotParsed),
        response.items@.len() > 0 && response.items@[0].uploads is Some ==> (r matches Ok(s)
            && s@ == response.items@[0].uploads->0@),
{
    let mut items = response.items;
    if items.len() == 0 {
        return Err(RequestError::NotFound);
    }
    let first = items.remove(0);
    match first.uploads {
        Some(uploads) => Ok(uploads),
        None => Err(
            RequestError::ResponseNotParsed("channel item without uploads playlist".to_owned()),
        ),
    }
}

/// The query parameters of a channel-detail lookup.
pub open spec fn channel_detail_params(channel_id: Seq<char>) -> Seq<(Seq<char>, Seq<char>)> {
    seq![("part"@, "contentDetails"@), ("id"@, channel_id)]
}

/// Resolve a channel id to the channel's main upload-playlist id
/// (`channels?part=contentDetails&id=<channel_id>`): one GET through the
/// capability, then validation by [`main_playlist_id_from`], which states
/// exactly what each decoded response yields. The one failure of this
/// function's own — `Other`, before any GET — comes exactly when the request
/// URL cannot be built.
pub fn retrieve_main_playlist_id<T: HttpClientTrait>(channel_id: &String, client: &T) -> (r: Result<
    String,
    RequestError,
>)
    ensures
        r matches Err(e) && e is Other ==> !url_parse_ok(
            "https://yt.lemnoslife.com/noKey/channels"@,
            channel_detail_params(channel_id@),
        ),
        !url_parse_ok(
            "https://yt.lemnoslife.com/noKey/channels"@,
            channel_detail_params(channel_id@),
        ) ==> (r matches Err(e) && e is Other),
{
    let mut params: Vec<(String, String)> = Vec::new();
    params.push(("part".to_owned(), "contentDetails".to_owned()));
    params.push(("id".to_owned(), channel_id.clone()));
    proof {
        assert(params_view(params@) =~= channel_detail_params(channel_id@));
    }
    let url = match build_url("https://yt.lemnoslife.com/noKey/channels", &params) {
        Ok(u) => u,
        Err(m) => {
            return Err(RequestError::Other(m));
        },
    };
    let fetched = match client.get_playlist_lookup(url.as_str()) {
        Ok(resp) => resp,
        Err(m) => {
            return Err(transport_failure(m));
        },
    };
    let data = match process_response(fetched) {
        Ok(d) => d,
        Err(e) => {
            return Err(e);
        },
    };
    main_playlist_id_from(data)
}

} // verus!
