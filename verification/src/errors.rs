use vstd::prelude::*;

verus! {

/// Every way one invocation can fail.  The first failure aborts all later
/// stages; nothing is retried.
#[derive(Clone, Copy, Debug, PartialEq, Eq, Structural)]
pub enum CloneError {
    /// No package was specified; reported before any network activity.
    MissingPackageName,
    /// The supplied version string is not a semantic version.
    InvalidVersion,
    /// No published version matches the requested name and version.
    PackageNotFound,
    /// A path- or version-control-based source was requested.
    UnsupportedSourceKind,
    /// Refreshing or querying the source's index failed.
    SourceUnavailable,
    /// Fetching or extracting the artifact failed.
    DownloadFailed,
    /// The destination directory already exists.
    DestinationExists,
    /// A filesystem operation failed while copying the artifact tree.
    CopyFailed,
}

impl CloneError {
    /// One human-readable line describing the failure.
    pub fn message(&self) -> (r: String)
        ensures
            *self is MissingPackageName ==> r@ == "specify which package to clone"@,
            *self is InvalidVersion ==> r@ == "invalid version string"@,
            *self is PackageNotFound ==> r@ == "package not found"@,
            *self is UnsupportedSourceKind ==> r@ == "only registry sources are supported"@,
            *self is SourceUnavailable ==> r@ == "could not reach the package source"@,
            *self is DownloadFailed ==> r@ == "could not download the package"@,
            *self is DestinationExists ==> r@ == "destination directory already exists"@,
            *self is CopyFailed ==> r@ == "could not copy the package sources"@,
    {
        match self {
            CloneError::MissingPackageName => "specify which package to clone".to_owned(),
            CloneError::InvalidVersion => "invalid version string".to_owned(),
            CloneError::PackageNotFound => "package not found".to_owned(),
            CloneError::UnsupportedSourceKind => "only registry sources are supported".to_owned(),
            CloneError::SourceUnavailable => "could not reach the package source".to_owned(),
            CloneError::DownloadFailed => "could not download the package".to_owned(),
            CloneError::DestinationExists => "destination directory already exists".to_owned(),
            CloneError::CopyFailed => "could not copy the package sources".to_owned(),
        }
    }
}

} // verus!
