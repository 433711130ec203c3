//! Error kinds of acquisition, each carrying a readable message.

use vstd::prelude::*;
use vstd::string::*;

verus! {

/// Why an acquisition step failed.
#[derive(Debug)]
pub enum ManifestError {
    /// The transport failed while fetching a resource.
    HttpError(String),
    /// Reading or writing the local disk failed.
    SerializationFilesystemError(String),
    /// Fetched bytes were not valid UTF-8.
    Utf8DeserializationError(String),
    /// A manifest could not be decoded.
    JsonSerializationError(String),
    /// The requested version, or a runtime for it, does not exist.
    VersionRetrievalError(String),
    /// An operation ran before the resource it needs was loaded.
    ResourceError(String),
    /// A freshly fetched primary artifact did not match its expected hash.
    InvalidFileDownload(String),
    /// Manifest or platform data broke a rule of the closed schema.
    ConfigurationError(String),
}

/// Why a single item of a download batch failed.
#[derive(Debug)]
pub enum DownloadError {
    /// The transport failed.
    RequestError(String),
    /// Writing the file failed.
    FileWriteError(String),
    /// The fetched bytes did not match the item's expected hash.
    InvalidFileHashError(String),
}

impl ManifestError {
    /// The message the error carries.
    pub fn text(&self) -> (r: &str)
        ensures
            match self {
                ManifestError::HttpError(m) => r@ == m@,
                ManifestError::SerializationFilesystemError(m) => r@ == m@,
                ManifestError::Utf8DeserializationError(m) => r@ == m@,
                ManifestError::JsonSerializationError(m) => r@ == m@,
                ManifestError::VersionRetrievalError(m) => r@ == m@,
                ManifestError::ResourceError(m) => r@ == m@,
                ManifestError::InvalidFileDownload(m) => r@ == m@,
                ManifestError::ConfigurationError(m) => r@ == m@,
            },
    {
        match self {
            ManifestError::HttpError(m) => m.as_str(),
            ManifestError::SerializationFilesystemError(m) => m.as_str(),
            ManifestError::Utf8DeserializationError(m) => m.as_str(),
            ManifestError::JsonSerializationError(m) => m.as_str(),
            ManifestError::VersionRetrievalError(m) => m.as_str(),
            ManifestError::ResourceError(m) => m.as_str(),
            ManifestError::InvalidFileDownload(m) => m.as_str(),
            ManifestError::ConfigurationError(m) => m.as_str(),
        }
    }
}

impl DownloadError {
    /// The message the error carries.
    pub fn text(&self) -> (r: &str)
        ensures
            match self {
                DownloadError::RequestError(m) => r@ == m@,
                DownloadError::FileWriteError(m) => r@ == m@,
                DownloadError::InvalidFileHashError(m) => r@ == m@,
            },
    {
        match self {
            DownloadError::RequestError(m) => m.as_str(),
            DownloadError::FileWriteError(m) => m.as_str(),
            DownloadError::InvalidFileHashError(m) => m.as_str(),
        }
    }
}

/// `prefix` followed by `detail`.
pub fn message(prefix: &str, detail: &str) -> (r: String)
    ensures
        r@ == prefix@ + detail@,
{
    let mut r = prefix.to_owned();
    r.append(detail);
    r
}

} // verus!
