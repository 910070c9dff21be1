use vstd::prelude::*;

verus! {

/// The ways a run can fail. Every kind but the per-file delete errors of
/// pruning (which are swallowed where they arise and never reach this type)
/// is fatal: the caller reports the message and stops.
#[derive(Clone, Copy, Debug, PartialEq, Eq, Structural)]
pub enum RunError {
    /// No user picture or home directory could be determined.
    DirectoryUnavailable,
    /// The cache subdirectory could not be created.
    DirectoryCreateFailed,
    /// The image-metadata request failed.
    MetadataFetchFailed,
    /// The metadata response held no image descriptor.
    NoImageData,
    /// The image-byte request failed.
    DownloadFailed,
    /// The downloaded bytes could not be written to the target path.
    WriteFailed,
    /// The target path could not be represented as a string.
    PathEncodingFailed,
    /// The desktop refused the new wallpaper.
    WallpaperSetFailed,
}

/// The message that `RunError::message` returns for each kind.
pub open spec fn spec_message(e: RunError) -> Seq<char> {
    match e {
        RunError::DirectoryUnavailable => "no user picture or home directory found"@,
        RunError::DirectoryCreateFailed => "could not create the wallpaper directory"@,
        RunError::MetadataFetchFailed => "could not fetch the image metadata"@,
        RunError::NoImageData => "no image data in the metadata response"@,
        RunError::DownloadFailed => "could not download the image"@,
        RunError::WriteFailed => "could not write the image file"@,
        RunError::PathEncodingFailed => "could not encode the image path"@,
        RunError::WallpaperSetFailed => "could not set the wallpaper"@,
    }
}

impl RunError {
    /// A human-readable message for the fatal report at top level.
    pub fn message(&self) -> (r: &'static str)
        ensures
            r@ == spec_message(*self),
    {
        match self {
            RunError::DirectoryUnavailable => "no user picture or home directory found",
            RunError::DirectoryCreateFailed => "could not create the wallpaper directory",
            RunError::MetadataFetchFailed => "could not fetch the image metadata",
            RunError::NoImageData => "no image data in the metadata response",
            RunError::DownloadFailed => "could not download the image",
            RunError::WriteFailed => "could not write the image file",
            RunError::PathEncodingFailed => "could not encode the image path",
            RunError::WallpaperSetFailed => "could not set the wallpaper",
        }
    }
}

} // verus!
