//! Failures of the bootstrap workflow and their classes.
use vstd::prelude::*;

verus! {

/// The class of a failure.
#[derive(PartialEq, Eq, Structural, Clone, Copy, Debug)]
pub enum ErrorKind {
    /// Unknown chain or malformed override, found before any I/O.
    Configuration,
    /// An unreachable endpoint or a failed genesis fetch or decompression.
    Network,
    /// A non-empty data directory without the override to clear it.
    DataSafety,
    /// A failed write or delete.
    Filesystem,
    /// A failed container create, start, attach or delete.
    Container,
}

/// A failure of the bootstrap workflow.
#[derive(Debug)]
pub enum SetupError {
    /// No profile exists for this chain identifier.
    ChainNotSupported(String),
    /// The override patch is not a JSON document.
    MalformedPatch,
    /// Statesync was asked for, but no RPC endpoint is known.
    NoRpcServers,
    /// The snapshot interval is zero.
    ZeroSnapshotInterval,
    /// The snapshot height does not fit the block query's 32-bit height.
    SnapshotHeightTooLarge(u64),
    /// No genesis source is configured.
    NoGenesisUrl,
    /// The fetched genesis document could not be decompressed to text.
    GenesisNotDecodable,
    /// The data directory holds entries and clearing it was not requested.
    DataDirNotEmpty(String),
    /// A container runtime call failed.
    Container(String),
}

impl SetupError {
    pub open spec fn spec_kind(&self) -> ErrorKind {
        match self {
            SetupError::ChainNotSupported(_) => ErrorKind::Configuration,
            SetupError::MalformedPatch => ErrorKind::Configuration,
            SetupError::NoRpcServers => ErrorKind::Configuration,
            SetupError::ZeroSnapshotInterval => ErrorKind::Configuration,
            SetupError::SnapshotHeightTooLarge(_) => ErrorKind::Network,
            SetupError::NoGenesisUrl => ErrorKind::Configuration,
            SetupError::GenesisNotDecodable => ErrorKind::Network,
            SetupError::DataDirNotEmpty(_) => ErrorKind::DataSafety,
            SetupError::Container(_) => ErrorKind::Container,
        }
    }

    /// The class this failure belongs to.
    #[verifier::when_used_as_spec(spec_kind)]
    pub fn kind(&self) -> (r: ErrorKind)
        ensures
            r == self.spec_kind(),
    {
        match self {
            SetupError::ChainNotSupported(_) => ErrorKind::Configuration,
            SetupError::MalformedPatch => ErrorKind::Configuration,
            SetupError::NoRpcServers => ErrorKind::Configuration,
            SetupError::ZeroSnapshotInterval => ErrorKind::Configuration,
            SetupError::SnapshotHeightTooLarge(_) => ErrorKind::Network,
            SetupError::NoGenesisUrl => ErrorKind::Configuration,
            SetupError::GenesisNotDecodable => ErrorKind::Network,
            SetupError::DataDirNotEmpty(_) => ErrorKind::DataSafety,
            SetupError::Container(_) => ErrorKind::Container,
        }
    }
}

} // verus!
