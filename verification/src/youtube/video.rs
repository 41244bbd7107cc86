use vstd::prelude::*;
use vstd::string::StringExecFns;

use crate::http_client::HttpClientTrait;
use crate::youtube::requests::utils::RequestError;
use crate::youtube::requests::video::retrieve_video_by_id;

verus! {

/// A video record: all data the metadata API reports for a single video.
/// `id` may be the empty string when the upstream record lacked a resource
/// identifier; callers must tolerate empty ids.
#[derive(Debug)]
pub struct Video {
    pub id: String,
    pub title: String,
    pub description: String,
    pub published_at: String,
    pub thumbnail: String,
}

/// Error for video operations: a fixed message per call site, plus the
/// wrapped lower-layer cause kept for diagnostics.
#[derive(Debug)]
pub struct VideoError {
    pub source: Option<RequestError>,
    pub msg: String,
}

/// The fixed watch-URL template every video URL starts with.
pub open spec fn watch_url_prefix() -> Seq<char> {
    "https://www.youtube.com/watch?v="@
}

impl Video {
    pub fn new(
        id: String,
        title: String,
        description: String,
        published_at: String,
        thumbnail: String,
    ) -> (r: Self)
        ensures
            r.id@ == id@,
            r.title@ == title@,
            r.description@ == description@,
            r.published_at@ == published_at@,
            r.thumbnail@ == thumbnail@,
    {
        Self { id, title, description, published_at, thumbnail }
    }

    /// The url for this video: always the fixed watch-URL template followed
    /// by the video's id, also when the id is empty.
    pub fn url(&self) -> (r: String)
        ensures
            r@ == watch_url_prefix() + self.id@,
    {
        let mut r: String = "https://www.youtube.com/watch?v=".to_owned();
        r.append(self.id.as_str());
        r
    }

    /// What a video retrieval outcome yields: a retrieved video handed
    /// through unchanged; a failure wrapped with the fixed message
    /// "Failed to get video", the cause kept in `source`.
    pub fn video_from_retrieval(retrieved: Result<Self, RequestError>) -> (r: Result<
        Self,
        VideoError,
    >)
        ensures
            retrieved matches Ok(v) ==> (r matches Ok(out) && out == v),
            retrieved matches Err(re) ==> (r matches Err(e) && e.source == Some(re) && e.msg@
                == "Failed to get video"@),
    {
        match retrieved {
            Ok(v) => Ok(v),
            Err(e) => Err(
                VideoError { source: Some(e), msg: "Failed to get video".to_owned() },
            ),
        }
    }

    /// Look a single video up by its id: one lookup through the capability,
    /// then [`Self::video_from_retrieval`], which states exactly what each
    /// retrieval outcome yields. The returned record carries the
    /// caller-supplied id (the endpoint only confirms existence and
    /// metadata).
    pub fn search_video_by_id<T: HttpClientTrait>(name: String, client: &T) -> (r: Result<
        Self,
        VideoError,
    >)
        ensures
            r matches Ok(v) ==> v.id@ == name@,
            r matches Err(e) ==> e.msg@ == "Failed to get video"@,
    {
        let retrieved = retrieve_video_by_id(&name, client);
        Self::video_from_retrieval(retrieved)
    }
}

} // verus!
