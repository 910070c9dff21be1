use vstd::prelude::*;
use vstd::string::StringExecFns;

verus! {

/// The filename under which the image for one calendar day is cached:
/// `bing_<date_key>.jpg`. At most one file per date key can exist, so the
/// presence of this name is the idempotency signal of Fetch-and-Cache.
pub open spec fn spec_target_filename(date_key: Seq<char>) -> Seq<char> {
    "bing_"@ + date_key + ".jpg"@
}

/// The full target path: the cache directory, a separator, the dated filename.
pub open spec fn spec_target_path(cache_dir: Seq<char>, date_key: Seq<char>) -> Seq<char> {
    cache_dir + "/"@ + spec_target_filename(date_key)
}

/// The image URL derived from a metadata descriptor: a fixed host, the
/// descriptor's path fragment, and a fixed quality suffix.
pub open spec fn spec_image_url(urlbase: Seq<char>) -> Seq<char> {
    "https://www.bing.com"@ + urlbase + "_UHD.jpg"@
}

/// The name of the cache subdirectory under the user's picture (or home)
/// directory.
pub open spec fn spec_cache_subdir() -> Seq<char> {
    "BingWallpapers"@
}

pub fn target_filename(date_key: &str) -> (r: String)
    ensures
        r@ == spec_target_filename(date_key@),
{
    let r = String::from_str("bing_").concat(date_key).concat(".jpg");
    proof {
        assert(r@ =~= spec_target_filename(date_key@));
    }
    r
}

pub fn target_path(cache_dir: &str, date_key: &str) -> (r: String)
    ensures
        r@ == spec_target_path(cache_dir@, date_key@),
{
    let name = target_filename(date_key);
    let r = String::from_str(cache_dir).concat("/").concat(name.as_str());
    proof {
        assert(r@ =~= spec_target_path(cache_dir@, date_key@));
    }
    r
}

pub fn image_url(urlbase: &str) -> (r: String)
    ensures
        r@ == spec_image_url(urlbase@),
{
    let r = String::from_str("https://www.bing.com").concat(urlbase).concat("_UHD.jpg");
    proof {
        assert(r@ =~= spec_image_url(urlbase@));
    }
    r
}

pub fn cache_subdir() -> (r: &'static str)
    ensures
        r@ == spec_cache_subdir(),
{
    "BingWallpapers"
}

} // verus!
