//! The closed set of failures that the engine reports.

use vstd::prelude::*;

verus! {

/// Why a transfer run ended in failure.
#[derive(Clone, Copy, Debug, PartialEq, Eq, Structural)]
pub enum TransferError {
    /// The connection could not be made or broke while the body was read.
    Connection,
    /// The server answered with a status outside the success range.
    Status(u16),
    /// The response does not begin at the byte position that the run
    /// continues from: a ranged request was not confirmed with partial
    /// content starting at the requested offset.
    ResumeMismatch { offset: u64 },
    /// Writing or flushing the destination file failed.
    Write,
    /// The byte count of the transfer does not fit in 64 bits.
    Overflow,
    /// The locator or the destination given at creation is unusable.
    InvalidTarget,
}

/// Why a transfer task could not be awaited cleanly.
#[derive(Clone, Copy, Debug, PartialEq, Eq, Structural)]
pub enum JoinFailure {
    /// The task panicked.
    Panicked,
    /// The task was aborted from outside.
    Aborted,
}

/// Failures of manager operations.
#[derive(Clone, Copy, Debug, PartialEq, Eq, Structural)]
pub enum Error {
    /// The operation named an identifier that is not registered.
    NotFound,
    /// The download already has a running task.
    AlreadyRunning,
    /// The download has no running task.
    DownloadNotRunning,
    /// The download is not paused, so there is nothing to resume.
    NotPaused,
    /// The transfer itself failed.
    TransferError(TransferError),
    /// The task of the download could not be awaited cleanly.
    TaskJoinError(JoinFailure),
    /// Reserved for a bounded wait on the registry lock; never produced
    /// while lock acquisition is unbounded.
    LockAcquisitionError,
}

impl TransferError {
    /// The stable numeric code of this failure.
    pub open spec fn code_spec(self) -> u16 {
        match self {
            TransferError::Connection => 501,
            TransferError::Status(_) => 502,
            TransferError::ResumeMismatch { .. } => 503,
            TransferError::Write => 504,
            TransferError::Overflow => 505,
            TransferError::InvalidTarget => 506,
        }
    }

    /// The human-readable description of this failure.
    pub open spec fn message_spec(self) -> Seq<char> {
        match self {
            TransferError::Connection => "connection to the server failed"@,
            TransferError::Status(_) => "server answered with a non-success status"@,
            TransferError::ResumeMismatch { .. } =>
                "server did not confirm the resume offset"@,
            TransferError::Write => "writing the destination file failed"@,
            TransferError::Overflow => "byte count exceeds 64 bits"@,
            TransferError::InvalidTarget => "locator or destination is unusable"@,
        }
    }

    /// Returns the stable numeric code of this failure.
    pub fn code(&self) -> (c: u16)
        ensures
            c == self.code_spec(),
    {
        match self {
            TransferError::Connection => 501,
            TransferError::Status(_) => 502,
            TransferError::ResumeMismatch { .. } => 503,
            TransferError::Write => 504,
            TransferError::Overflow => 505,
            TransferError::InvalidTarget => 506,
        }
    }

    /// Returns the human-readable description of this failure.
    pub fn message(&self) -> (m: String)
        ensures
            m@ == self.message_spec(),
    {
        match self {
            TransferError::Connection => "connection to the server failed".to_owned(),
            TransferError::Status(_) => "server answered with a non-success status".to_owned(),
            TransferError::ResumeMismatch { .. } =>
                "server did not confirm the resume offset".to_owned(),
            TransferError::Write => "writing the destination file failed".to_owned(),
            TransferError::Overflow => "byte count exceeds 64 bits".to_owned(),
            TransferError::InvalidTarget => "locator or destination is unusable".to_owned(),
        }
    }
}

impl Error {
    /// The stable numeric code of this error.
    pub open spec fn code_spec(self) -> u16 {
        match self {
            Error::NotFound => 404,
            Error::AlreadyRunning => 409,
            Error::DownloadNotRunning => 410,
            Error::NotPaused => 411,
            Error::TransferError(e) => e.code_spec(),
            Error::TaskJoinError(JoinFailure::Panicked) => 520,
            Error::TaskJoinError(JoinFailure::Aborted) => 521,
            Error::LockAcquisitionError => 530,
        }
    }

    /// The human-readable description of this error.
    pub open spec fn message_spec(self) -> Seq<char> {
        match self {
            Error::NotFound => "download is not registered"@,
            Error::AlreadyRunning => "download is already running"@,
            Error::DownloadNotRunning => "download is not running"@,
            Error::NotPaused => "download is not paused"@,
            Error::TransferError(e) => e.message_spec(),
            Error::TaskJoinError(JoinFailure::Panicked) => "download task panicked"@,
            Error::TaskJoinError(JoinFailure::Aborted) => "download task was aborted"@,
            Error::LockAcquisitionError => "could not acquire the registry lock"@,
        }
    }

    /// Returns the stable numeric code of this error.
    pub fn code(&self) -> (c: u16)
        ensures
            c == self.code_spec(),
    {
        match self {
            Error::NotFound => 404,
            Error::AlreadyRunning => 409,
            Error::DownloadNotRunning => 410,
            Error::NotPaused => 411,
            Error::TransferError(e) => e.code(),
            Error::TaskJoinError(JoinFailure::Panicked) => 520,
            Error::TaskJoinError(JoinFailure::Aborted) => 521,
            Error::LockAcquisitionError => 530,
        }
    }

    /// Returns the human-readable description of this error.
    pub fn message(&self) -> (m: String)
        ensures
            m@ == self.message_spec(),
    {
        match self {
            Error::NotFound => "download is not registered".to_owned(),
            Error::AlreadyRunning => "download is already running".to_owned(),
            Error::DownloadNotRunning => "download is not running".to_owned(),
            Error::NotPaused => "download is not paused".to_owned(),
            Error::TransferError(e) => e.message(),
            Error::TaskJoinError(JoinFailure::Panicked) => "download task panicked".to_owned(),
            Error::TaskJoinError(JoinFailure::Aborted) => "download task was aborted".to_owned(),
            Error::LockAcquisitionError => "could not acquire the registry lock".to_owned(),
        }
    }
}

/// Two errors of different kinds never share a code, so a code alone tells
/// a caller which kind of failure occurred.
pub proof fn lemma_codes_distinguish_kinds(a: Error, b: Error)
    requires
        a.code_spec() == b.code_spec(),
    ensures
        a is NotFound <==> b is NotFound,
        a is AlreadyRunning <==> b is AlreadyRunning,
        a is DownloadNotRunning <==> b is DownloadNotRunning,
        a is NotPaused <==> b is NotPaused,
        a is TransferError <==> b is TransferError,
        a is TaskJoinError <==> b is TaskJoinError,
        a is LockAcquisitionError <==> b is LockAcquisitionError,
{
}

} // verus!
