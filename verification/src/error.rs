//! What can go wrong during an update, by class, so that a caller can tell
//! a failure of the network from one of the disk or of an archive.

use vstd::prelude::*;
use crate::version::VersionParseError;

verus! {

/// A failure of the network.
#[derive(Clone, Copy, Debug, PartialEq, Eq, Structural)]
pub enum NetworkError {
    /// The connection could not be made or broke.
    Connection,
    /// The remote side did not answer in time.
    Timeout,
    /// The remote side answered with a status other than success.
    Status(u16),
}

/// Whether a response status means success.
pub open spec fn spec_is_success(status: u16) -> bool {
    200 <= status && status < 300
}

/// Whether a response status means success: one of the 2xx codes.
#[verifier::when_used_as_spec(spec_is_success)]
pub fn is_success(status: u16) -> (b: bool)
    ensures
        b == spec_is_success(status),
{
    200 <= status && status < 300
}

/// Why a download failed.
#[derive(Clone, Copy, Debug, PartialEq, Eq, Structural)]
pub enum DownloadError {
    /// The network failed.
    Network(NetworkError),
    /// The size of the body was not advertised and the policy is strict.
    SizeUnknown,
    /// The destination could not be created or written.
    Io,
    /// More bytes arrived than there is room for: a chunk larger than was
    /// asked for, a body longer than was advertised, or a count past what
    /// can be counted.
    Overrun,
}

/// Why a run failed.
#[derive(Clone, Copy, Debug, PartialEq, Eq, Structural)]
pub enum UpdateError {
    /// The network failed.
    Network(NetworkError),
    /// The size of a download was not advertised and the policy is strict.
    SizeUnknown,
    /// The disk failed: a file or directory could not be created, written
    /// or removed.
    Io,
    /// An archive is corrupt or of an unsupported kind.
    Archive,
    /// The remote version marker is not a marker.
    VersionParse(VersionParseError),
    /// A download brought more bytes than there is room for: a chunk larger
    /// than was asked for, a body longer than was advertised, or a count
    /// past what can be counted.
    Overrun,
}

impl UpdateError {
    /// The class of a download's failure, as the failure of a run.
    pub open spec fn spec_from_download(cause: DownloadError) -> UpdateError {
        match cause {
            DownloadError::Network(e) => UpdateError::Network(e),
            DownloadError::SizeUnknown => UpdateError::SizeUnknown,
            DownloadError::Io => UpdateError::Io,
            DownloadError::Overrun => UpdateError::Overrun,
        }
    }

    /// The failure of a run that a failed download amounts to.
    #[verifier::when_used_as_spec(spec_from_download)]
    pub fn from_download(cause: DownloadError) -> (e: UpdateError)
        ensures
            e == UpdateError::spec_from_download(cause),
    {
        match cause {
            DownloadError::Network(e) => UpdateError::Network(e),
            DownloadError::SizeUnknown => UpdateError::SizeUnknown,
            DownloadError::Io => UpdateError::Io,
            DownloadError::Overrun => UpdateError::Overrun,
        }
    }

    /// Whether the failure is one of the network, the only class for which
    /// trying again without any other change can help.
    pub open spec fn spec_is_network(self) -> bool {
        self is Network
    }

    /// Whether the failure is one of the network.
    #[verifier::when_used_as_spec(spec_is_network)]
    pub fn is_network(self) -> (b: bool)
        ensures
            b == self.spec_is_network(),
    {
        matches!(self, UpdateError::Network(_))
    }
}

} // verus!
