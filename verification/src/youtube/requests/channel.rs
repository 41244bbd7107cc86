use vstd::prelude::*;
use vstd::string::StringExecFns;

use crate::http_client::HttpClientTrait;
use crate::youtube::requests::utils::{
    build_url, params_view, process_response, transport_failure, url_parse_ok, RequestError,
};

verus! {

/// One item of a channel-lookup response; the identifier field may be null
/// or absent upstream.
pub struct ChannelLookupItem {
    pub id: Option<String>,
}

/// Decoded wire shape of a channel lookup: `{items: [{id}]}`.
pub struct ChannelLookupResponse {
    pub items: Vec<ChannelLookupItem>,
}

/// The metadata sub-record a channel-search response attaches to each
/// candidate.
pub struct ChannelSnippet {
    pub channel_id: String,
    pub channel_title: String,
    pub channel_handle: String,
}

/// One candidate of a channel-search response.
pub struct ChannelSearchItem {
    pub snippet: ChannelSnippet,
}

/// Decoded wire shape of a channel search:
/// `{items: [{snippet: {channelId, channelTitle, channelHandle}}]}`.
pub struct ChannelSearchResponse {
    pub items: Vec<ChannelSearchItem>,
}

/// What a decoded channel lookup yields: the first item's identifier when
/// present; `NotFound` when the API had nothing; `ResponseNotParsed` when an
/// item was there but its identifier was null or absent — an unusable shape,
/// not absence.
pub fn channel_id_from_lookup(response: ChannelLookupResponse) -> (r: Result<
    String,
    RequestError,
>)
    ensures
        response.items@.len() == 0 ==> (r matches Err(e) && e is NotFound),
        response.items@.len() > 0 && response.items@[0].id is None ==> (r matches Err(e)
            && e is ResponseNotParsed),
        response.items@.len() > 0 && response.items@[0].id is Some ==> (r matches Ok(s) && s@
            == response.items@[0].id->0@),
{
    let mut items = response.items;
    if items.len() == 0 {
        return Err(RequestError::NotFound);
    }
    let first = items.remove(0);
    match first.id {
        Some(id) => Ok(id),
        None => Err(RequestError::ResponseNotParsed("channel item without id".to_owned())),
    }
}

/// A candidate matches when its handle equals "@" followed by the target
/// handle, character for character.
pub open spec fn channel_item_matches(item: ChannelSearchItem, handle: Seq<char>) -> bool {
    item.snippet.channel_handle@ == "@"@ + handle
}

/// The two snippets hold the same channel id, title and handle.
pub open spec fn snippet_views_equal(a: ChannelSnippet, b: ChannelSnippet) -> bool {
    a.channel_id@ == b.channel_id@ && a.channel_title@ == b.channel_title@
        && a.channel_handle@ == b.channel_handle@
}

/// Pick the channel whose handle is exactly `"@" + target_handle` out of the
/// search candidates: case-sensitive exact match, first match wins, no match
/// is `NotFound`.
pub fn find_channel_by_handle(channels: &Vec<ChannelSearchItem>, target_handle: &String) -> (r:
    Result<ChannelSnippet, RequestError>)
    ensures
        r is Ok <==> exists|i: int|
            0 <= i < channels@.len() && channel_item_matches(#[trigger] channels@[i], target_handle@),
        r matches Ok(s) ==> exists|i: int|
            0 <= i < channels@.len() && channel_item_matches(#[trigger] channels@[i], target_handle@)
                && snippet_views_equal(s, channels@[i].snippet) && (forall|j: int|
                0 <= j < i ==> !channel_item_matches(channels@[j], target_handle@)),
        r matches Err(e) ==> e is NotFound,
{
    let target = {
        let mut t: String = "@".to_owned();
        t.append(target_handle.as_str());
        t
    };
    let n = channels.len();
    let mut k: usize = 0;
    while k < n
        invariant
            n == channels@.len(),
            k <= n,
            target@ == "@"@ + target_handle@,
            forall|j: int| 0 <= j < k ==> !channel_item_matches(channels@[j], target_handle@),
        decreases n - k,
    {
        if channels[k].snippet.channel_handle == target {
            let snippet = ChannelSnippet {
                channel_id: channels[k].snippet.channel_id.clone(),
                channel_title: channels[k].snippet.channel_title.clone(),
                channel_handle: channels[k].snippet.channel_handle.clone(),
            };
            return Ok(snippet);
        }
        k = k + 1;
    }
    Err(RequestError::NotFound)
}

/// The query parameters of a channel lookup by name.
pub open spec fn channel_lookup_params(name: Seq<char>) -> Seq<(Seq<char>, Seq<char>)> {
    seq![("cId"@, name)]
}

/// The query parameters of a channel search by handle.
pub open spec fn channel_search_params(handle: Seq<char>) -> Seq<(Seq<char>, Seq<char>)> {
    seq![("q"@, handle), ("type"@, "channel"@), ("part"@, "snippet"@), ("maxResults"@, "10"@)]
}

/// Resolve a channel name to its channel id through the metadata endpoint's
/// query-by-name lookup (`channels?cId=<name>`): one GET through the
/// capability, then validation by [`channel_id_from_lookup`], which states
/// exactly what each decoded response yields. The one failure of this
/// function's own — `Other`, before any GET — comes exactly when the request
/// URL cannot be built.
pub fn resolve_channel_id<T: HttpClientTrait>(name: &String, client: &T) -> (r: Result<
    String,
    RequestError,
>)
    ensures
        r matches Err(e) && e is Other ==> !url_parse_ok(
            "https://yt.lemnoslife.com/noKey/channels"@,
            channel_lookup_params(name@),
        ),
        !url_parse_ok("https://yt.lemnoslife.com/noKey/channels"@, channel_lookup_params(name@))
            ==> (r matches Err(e) && e is Other),
{
    let mut params: Vec<(String, String)> = Vec::new();
    params.push(("cId".to_owned(), name.clone()));
    proof {
        assert(params_view(params@) =~= channel_lookup_params(name@));
    }
    let url = match build_url("https://yt.lemnoslife.com/noKey/channels", &params) {
        Ok(u) => u,
        Err(m) => {
            return Err(RequestError::Other(m));
        },
    };
    let fetched = match client.get_channel_lookup(url.as_str()) {
        Ok(resp) => resp,
        Err(m) => {
            return Err(transport_failure(m));
        },
    };
    let data = match process_response(fetched) {
        Ok(d) => d,
        Err(e) => {
            return Err(e);
        },
    };
    channel_id_from_lookup(data)
}

/// Resolve a channel handle to its channel id and display title through the
/// search endpoint: one GET through the capability, then an exact match on
/// `"@" + handle` among the candidates by [`find_channel_by_handle`], which
/// states exactly what each decoded response yields. The one failure of this
/// function's own — `Other`, before any GET — comes exactly when the request
/// URL cannot be built.
pub fn retrieve_channel_id<T: HttpClientTrait>(handle: &String, client: &T) -> (r: Result<
    (String, String),
    RequestError,
>)
    ensures
        r matches Err(e) && e is Other ==> !url_parse_ok(
            "https://yt.lemnoslife.com/search"@,
            channel_search_params(handle@),
        ),
        !url_parse_ok("https://yt.lemnoslife.com/search"@, channel_search_params(handle@)) ==> (
        r matches Err(e) && e is Other),
{
    let mut params: Vec<(String, String)> = Vec::new();
    params.push(("q".to_owned(), handle.clone()));
    params.push(("type".to_owned(), "channel".to_owned()));
    params.push(("part".to_owned(), "snippet".to_owned()));
    params.push(("maxResults".to_owned(), "10".to_owned()));
    proof {
        assert(params_view(params@) =~= channel_search_params(handle@));
    }
    let url = match build_url("https://yt.lemnoslife.com/search", &params) {
        Ok(u) => u,
        Err(m) => {
            return Err(RequestError::Other(m));
        },
    };
    let fetched = match client.get_channel_search(url.as_str()) {
        Ok(resp) => resp,
        Err(m) => {
            return Err(transport_failure(m));
        },
    };
    let data = match process_response(fetched) {
        Ok(d) => d,
        Err(e) => {
            return Err(e);
        },
    };
    match find_channel_by_handle(&data.items, handle) {
        Ok(snippet) => Ok((snippet.channel_id, snippet.channel_title)),
        Err(e) => Err(e),
    }
}

} // verus!
