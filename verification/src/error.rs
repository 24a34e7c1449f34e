//! What a request can fail with, and how each failure is reported.

use vstd::prelude::*;

verus! {

/// The classes of failure that callers tell apart.
#[derive(Debug, Clone, Copy, PartialEq, Eq, Structural)]
pub enum ErrorKind {
    /// The request is malformed or lacks a required value.
    Validation,
    /// The request names a job or node that the store does not hold.
    NotFound,
    /// The job is not in the status that the operation requires.
    Conflict,
    /// No node can take the job right now; the caller may try again.
    Unavailable,
    /// Storage or the ledger failed.
    Infrastructure,
}

/// Why the stored node record could not be had.
#[derive(Debug, Clone, Copy, PartialEq, Eq, Structural)]
pub enum StorageFailure {
    /// The record could not be read.
    Unreadable,
    /// The record was read and does not parse.
    Malformed,
}

/// A failed request.
#[derive(Debug, Clone, Copy, PartialEq, Eq, Structural)]
pub enum SchedulerError {
    /// No settlement address was given, or an empty one.
    WalletRequired,
    /// The settlement address does not parse.
    InvalidWallet,
    /// No job has the requested id.
    JobNotFound,
    /// No node has the requested id.
    NodeNotFound,
    /// The job has left the pending status.
    JobNotPending,
    /// No active idle node offers the capability that the job requires.
    NoEligibleNode,
    /// The ledger call could not be prepared.
    CallPreparationFailed,
    /// The ledger refused the assignment when it was submitted.
    AssignmentFailed,
    /// The ledger did not confirm the submitted assignment.
    ConfirmationFailed,
    /// The stored node record could not be read.
    StorageReadFailed,
    /// The stored node record could not be parsed.
    StorageParseFailed,
}

impl SchedulerError {
    /// The failure that reports a storage failure.
    pub open spec fn spec_from_storage(failure: StorageFailure) -> SchedulerError {
        match failure {
            StorageFailure::Unreadable => SchedulerError::StorageReadFailed,
            StorageFailure::Malformed => SchedulerError::StorageParseFailed,
        }
    }

    /// The failure that reports a storage failure.
    #[verifier::when_used_as_spec(spec_from_storage)]
    pub fn from_storage(failure: StorageFailure) -> (r: SchedulerError)
        ensures
            r == SchedulerError::spec_from_storage(failure),
            r.spec_kind() == ErrorKind::Infrastructure,
    {
        match failure {
            StorageFailure::Unreadable => SchedulerError::StorageReadFailed,
            StorageFailure::Malformed => SchedulerError::StorageParseFailed,
        }
    }

    /// The class of a failure.
    pub open spec fn spec_kind(self) -> ErrorKind {
        match self {
            SchedulerError::WalletRequired | SchedulerError::InvalidWallet => ErrorKind::Validation,
            SchedulerError::JobNotFound | SchedulerError::NodeNotFound => ErrorKind::NotFound,
            SchedulerError::JobNotPending => ErrorKind::Conflict,
            SchedulerError::NoEligibleNode => ErrorKind::Unavailable,
            SchedulerError::CallPreparationFailed
            | SchedulerError::AssignmentFailed
            | SchedulerError::ConfirmationFailed
            | SchedulerError::StorageReadFailed
            | SchedulerError::StorageParseFailed => ErrorKind::Infrastructure,
        }
    }

    /// The HTTP status that reports a failure of the given class.
    pub open spec fn spec_status_code(self) -> u16 {
        match self.spec_kind() {
            ErrorKind::Validation | ErrorKind::Conflict => 400,
            ErrorKind::NotFound => 404,
            ErrorKind::Unavailable => 503,
            ErrorKind::Infrastructure => 500,
        }
    }

    /// The text that reports a failure.
    pub open spec fn spec_message(self) -> Seq<char> {
        match self {
            SchedulerError::WalletRequired => "Wallet address required"@,
            SchedulerError::InvalidWallet => "Invalid wallet address"@,
            SchedulerError::JobNotFound => "Job not found"@,
            SchedulerError::NodeNotFound => "Node not found or inactive"@,
            SchedulerError::JobNotPending => "Job not pending"@,
            SchedulerError::NoEligibleNode => "No eligible nodes available"@,
            SchedulerError::CallPreparationFailed => "Contract call preparation failed"@,
            SchedulerError::AssignmentFailed => "Blockchain assignment failed"@,
            SchedulerError::ConfirmationFailed => "Transaction failed to confirm"@,
            SchedulerError::StorageReadFailed => "Failed to read nodes file"@,
            SchedulerError::StorageParseFailed => "Failed to parse nodes file"@,
        }
    }

    /// The class of this failure.
    #[verifier::when_used_as_spec(spec_kind)]
    pub fn kind(self) -> (r: ErrorKind)
        ensures
            r == self.spec_kind(),
    {
        match self {
            SchedulerError::WalletRequired | SchedulerError::InvalidWallet => ErrorKind::Validation,
            SchedulerError::JobNotFound | SchedulerError::NodeNotFound => ErrorKind::NotFound,
            SchedulerError::JobNotPending => ErrorKind::Conflict,
            SchedulerError::NoEligibleNode => ErrorKind::Unavailable,
            SchedulerError::CallPreparationFailed
            | SchedulerError::AssignmentFailed
            | SchedulerError::ConfirmationFailed
            | SchedulerError::StorageReadFailed
            | SchedulerError::StorageParseFailed => ErrorKind::Infrastructure,
        }
    }

    /// The HTTP status that reports this failure: 400 for a malformed request
    /// or a job in the wrong status, 404 for an unknown id, 503 when no node
    /// is free, 500 when storage or the ledger failed.
    #[verifier::when_used_as_spec(spec_status_code)]
    pub fn status_code(self) -> (r: u16)
        ensures
            r == self.spec_status_code(),
    {
        match self.kind() {
            ErrorKind::Validation | ErrorKind::Conflict => 400,
            ErrorKind::NotFound => 404,
            ErrorKind::Unavailable => 503,
            ErrorKind::Infrastructure => 500,
        }
    }

    /// Only a lack of free nodes is worth trying again unchanged.
    pub fn is_retryable(self) -> (r: bool)
        ensures
            r == (self.spec_kind() == ErrorKind::Unavailable),
    {
        match self {
            SchedulerError::NoEligibleNode => true,
            _ => false,
        }
    }

    /// The text that reports this failure.
    pub fn message(self) -> (r: String)
        ensures
            r@ == self.spec_message(),
    {
        match self {
            SchedulerError::WalletRequired => "Wallet address required".to_owned(),
            SchedulerError::InvalidWallet => "Invalid wallet address".to_owned(),
            SchedulerError::JobNotFound => "Job not found".to_owned(),
            SchedulerError::NodeNotFound => "Node not found or inactive".to_owned(),
            SchedulerError::JobNotPending => "Job not pending".to_owned(),
            SchedulerError::NoEligibleNode => "No eligible nodes available".to_owned(),
            SchedulerError::CallPreparationFailed => "Contract call preparation failed".to_owned(),
            SchedulerError::AssignmentFailed => "Blockchain assignment failed".to_owned(),
            SchedulerError::ConfirmationFailed => "Transaction failed to confirm".to_owned(),
            SchedulerError::StorageReadFailed => "Failed to read nodes file".to_owned(),
            SchedulerError::StorageParseFailed => "Failed to parse nodes file".to_owned(),
        }
    }
}

} // verus!
