use vstd::prelude::*;
use vstd::string::StringExecFns;

use crate::errors::RunError;
use crate::naming::image_url;
use crate::naming::spec_image_url;
use crate::naming::spec_target_path;
use crate::naming::target_path;

verus! {

/// What one invocation of Fetch-and-Cache has to do: the path of the day's
/// image, and the URL still to be downloaded to it, if any.
pub struct FetchPlan {
    /// Where the day's image lives (or will live) inside the cache directory.
    pub target: String,
    /// The URL to download to `target`; present exactly when the target file
    /// does not exist yet.
    pub download: Option<String>,
}

/// The plan as a mathematical value: the target path, and the URL to download
/// (`None` when the target already exists).
pub open spec fn spec_fetch_plan(
    cache_dir: Seq<char>,
    date_key: Seq<char>,
    remote_url: Seq<char>,
    target_exists: bool,
) -> (Seq<char>, Option<Seq<char>>) {
    (
        spec_target_path(cache_dir, date_key),
        if target_exists {
            None
        } else {
            Some(remote_url)
        },
    )
}

/// Plans Fetch-and-Cache. The caller tells whether the target path already
/// exists as a file; when it does, the plan orders no download (the
/// idempotency gate), and when it does not, the plan orders exactly one
/// download of `remote_url` to the target path.
pub fn ensure_today_image_plan(
    cache_dir: &str,
    date_key: &str,
    remote_url: &str,
    target_exists: bool,
) -> (p: FetchPlan)
    ensures
        p.target@ == spec_fetch_plan(cache_dir@, date_key@, remote_url@, target_exists).0,
        match p.download {
            Some(u) => !target_exists && Some(u@) == spec_fetch_plan(
                cache_dir@,
                date_key@,
                remote_url@,
                target_exists,
            ).1,
            None => target_exists,
        },
{
    let target = target_path(cache_dir, date_key);
    let download = if target_exists {
        None
    } else {
        Some(String::from_str(remote_url))
    };
    FetchPlan { target, download }
}

/// The first image descriptor of the metadata response, or `NoImageData`
/// when the response holds none. The run downloads only through a plan, and
/// an erring run never reaches planning, so an empty response downloads
/// nothing.
pub fn first_image_urlbase(urlbases: &Vec<String>) -> (r: Result<&String, RunError>)
    ensures
        match r {
            Ok(u) => urlbases@.len() > 0 && u@ == urlbases@[0]@,
            Err(e) => urlbases@.len() == 0 && e == RunError::NoImageData,
        },
{
    if urlbases.len() == 0 {
        Err(RunError::NoImageData)
    } else {
        Ok(&urlbases[0])
    }
}

/// The whole metadata decision: the URL of the day's image, built from the
/// first descriptor of the metadata response, or `NoImageData` when the
/// response holds none — in which case the run stops before any download.
pub fn image_url_from_metadata(urlbases: &Vec<String>) -> (r: Result<String, RunError>)
    ensures
        match r {
            Ok(u) => urlbases@.len() > 0 && u@ == spec_image_url(urlbases@[0]@),
            Err(e) => urlbases@.len() == 0 && e == RunError::NoImageData,
        },
{
    match first_image_urlbase(urlbases) {
        Ok(u) => Ok(image_url(u.as_str())),
        Err(e) => Err(e),
    }
}

/// Idempotency of Fetch-and-Cache: the target path depends on the cache
/// directory and the date key alone — not on whether the file exists — and a
/// call that finds the target present schedules no download. So once a first
/// call has produced the file, a second call with the same inputs performs no
/// network access and yields the same path.
pub proof fn lemma_fetch_idempotent(
    cache_dir: Seq<char>,
    date_key: Seq<char>,
    remote_url: Seq<char>,
    first_exists: bool,
)
    ensures
        spec_fetch_plan(cache_dir, date_key, remote_url, true).1 is None,
        spec_fetch_plan(cache_dir, date_key, remote_url, true).0 == spec_fetch_plan(
            cache_dir,
            date_key,
            remote_url,
            first_exists,
        ).0,
{
}

} // verus!
