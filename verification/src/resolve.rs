use vstd::prelude::*;
use vstd::string::StringExecFns;

use crate::errors::RunError;
use crate::naming::spec_cache_subdir;

verus! {

/// The cache directory under a base directory: `<base>/BingWallpapers`.
pub open spec fn spec_cache_dir_path(base: Seq<char>) -> Seq<char> {
    base + "/"@ + spec_cache_subdir()
}

/// Picks the base directory for the cache from what the host reports: the
/// user's picture directory where there is one, else the home directory, and
/// `DirectoryUnavailable` where there is neither. Creating the directory is
/// the caller's side effect; this is the whole decision.
pub fn resolve_base_dir(picture: Option<String>, home: Option<String>) -> (r: Result<
    String,
    RunError,
>)
    ensures
        match r {
            Ok(d) => match picture {
                Some(p) => d@ == p@,
                None => match home {
                    Some(h) => d@ == h@,
                    None => false,
                },
            },
            Err(e) => picture is None && home is None && e == RunError::DirectoryUnavailable,
        },
{
    match picture {
        Some(p) => Ok(p),
        None => match home {
            Some(h) => Ok(h),
            None => Err(RunError::DirectoryUnavailable),
        },
    }
}

/// The full path of the cache directory under the chosen base directory.
pub fn cache_dir_path(base: &str) -> (r: String)
    ensures
        r@ == spec_cache_dir_path(base@),
{
    let r = String::from_str(base).concat("/").concat("BingWallpapers");
    proof {
        assert(r@ =~= spec_cache_dir_path(base@));
    }
    r
}

} // verus!
