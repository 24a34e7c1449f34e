//! The decisions taken around the settlement ledger.
//!
//! The ledger offers three operations: record an assignment, record a result,
//! release the payment of a job. Each is prepared, submitted and then awaited
//! until the ledger confirms it. The program that owns the connection makes
//! the calls and reports how each one ended; this module decides what
//! follows.

use vstd::prelude::*;
use std::str::FromStr;
use ethers::types::H256;
use crate::error::SchedulerError;

verus! {

/// How a ledger call ended short of a confirmation.
#[derive(Debug, Clone, Copy, PartialEq, Eq, Structural)]
pub enum LedgerFailure {
    /// The call could not be prepared.
    PreparationFailed,
    /// The ledger refused the call when it was submitted.
    SendFailed,
    /// The call was submitted and no receipt came back for it.
    ReceiptMissing,
    /// Waiting for the confirmation failed.
    ConfirmationFailed,
}

/// Why a settlement stopped.
#[derive(Debug, Clone, Copy, PartialEq, Eq, Structural)]
pub enum SettlementError {
    /// The result hash does not parse; the ledger was never called.
    InvalidResultHash,
    /// Recording the result failed; the release was never attempted.
    SubmitResult(LedgerFailure),
    /// The result was recorded and the release failed.
    Release(LedgerFailure),
}

/// Where a settlement stands: the ledger call to make next, or how it ended.
#[derive(Debug, PartialEq, Eq)]
pub enum SettlementStep {
    /// Record the result hash of the job.
    SubmitResult { job_id: String, result_hash: [u8; 32] },
    /// Release the payment of the job.
    Release { job_id: String },
    /// Both calls were confirmed.
    Settled,
    /// The settlement stopped.
    Failed(SettlementError),
}

/// Mathematical model of a [`SettlementStep`].
pub enum SettlementStepView {
    SubmitResult { job_id: Seq<char>, result_hash: Seq<u8> },
    Release { job_id: Seq<char> },
    Settled,
    Failed(SettlementError),
}

impl View for SettlementStep {
    type V = SettlementStepView;

    open spec fn view(&self) -> SettlementStepView {
        match *self {
            SettlementStep::SubmitResult { job_id, result_hash } => SettlementStepView::SubmitResult {
                job_id: job_id@,
                result_hash: result_hash@,
            },
            SettlementStep::Release { job_id } => SettlementStepView::Release { job_id: job_id@ },
            SettlementStep::Settled => SettlementStepView::Settled,
            SettlementStep::Failed(e) => SettlementStepView::Failed(e),
        }
    }
}

impl SettlementStepView {
    /// No ledger call follows this step.
    pub open spec fn is_final(self) -> bool {
        self is Settled || self is Failed
    }
}

/// The thirty-two bytes that `ethers::types::H256::from_str` reads from a
/// text, or `None` where it rejects the text.
pub uninterp spec fn hash_from_text(text: Seq<char>) -> Option<Seq<u8>>;

/// The first step of a settlement, given what parsing the result hash gave:
/// with a hash, record it; without one, stop before any ledger call.
pub open spec fn first_step(job_id: Seq<char>, parsed: Option<Seq<u8>>) -> SettlementStepView {
    match parsed {
        Some(result_hash) => SettlementStepView::SubmitResult { job_id, result_hash },
        None => SettlementStepView::Failed(SettlementError::InvalidResultHash),
    }
}

/// The step that follows `step` once the ledger call it asked for has ended
/// with `reply`. The release follows a confirmed result and nothing else; a
/// failed call stops the settlement; a final step stays as it is.
pub open spec fn next_step(step: SettlementStepView, reply: Result<(), LedgerFailure>)
    -> SettlementStepView {
    match step {
        SettlementStepView::SubmitResult { job_id, result_hash } => match reply {
            Ok(_) => SettlementStepView::Release { job_id },
            Err(failure) => SettlementStepView::Failed(SettlementError::SubmitResult(failure)),
        },
        SettlementStepView::Release { job_id } => match reply {
            Ok(_) => SettlementStepView::Settled,
            Err(failure) => SettlementStepView::Failed(SettlementError::Release(failure)),
        },
        SettlementStepView::Settled => SettlementStepView::Settled,
        SettlementStepView::Failed(e) => SettlementStepView::Failed(e),
    }
}

/// What a failed assignment call is reported as. A missing receipt counts as
/// a failed confirmation: only a confirmed call lets an assignment through.
pub open spec fn assignment_error(failure: LedgerFailure) -> SchedulerError {
    match failure {
        LedgerFailure::PreparationFailed => SchedulerError::CallPreparationFailed,
        LedgerFailure::SendFailed => SchedulerError::AssignmentFailed,
        LedgerFailure::ReceiptMissing => SchedulerError::ConfirmationFailed,
        LedgerFailure::ConfirmationFailed => SchedulerError::ConfirmationFailed,
    }
}

/// Calls `ethers::types::H256::from_str` and hands out the bytes of the hash
/// it returns. Claimed: the outcome depends on the text alone, and is the one
/// that [`hash_from_text`] names.
#[verifier::external_body]
fn parse_result_hash(text: &str) -> (r: Option<[u8; 32]>)
    ensures
        match r {
            Some(bytes) => hash_from_text(text@) == Some(bytes@),
            None => hash_from_text(text@) is None,
        },
{
    match H256::from_str(text) {
        Ok(hash) => Some(hash.0),
        Err(_) => None,
    }
}

/// Opens the settlement of a job once its result hash has been parsed.
pub fn settlement_start(job_id: &str, parsed: Option<[u8; 32]>) -> (r: SettlementStep)
    ensures
        r@ == first_step(
            job_id@,
            match parsed {
                Some(bytes) => Some(bytes@),
                None => None,
            },
        ),
{
    match parsed {
        Some(result_hash) => SettlementStep::SubmitResult { job_id: job_id.to_owned(), result_hash },
        None => SettlementStep::Failed(SettlementError::InvalidResultHash),
    }
}

/// Opens the settlement of a completed job: parses the result hash and asks
/// for it to be recorded, or stops where the hash does not parse.
///
/// The job and its node have been updated and stored by the time a
/// settlement opens, and a settlement that fails takes nothing of that back:
/// until it ends in `Settled`, the store and the ledger may disagree.
pub fn submit_result_to_blockchain(job_id: &str, result_hash: &str) -> (r: SettlementStep)
    ensures
        r@ == first_step(job_id@, hash_from_text(result_hash@)),
{
    settlement_start(job_id, parse_result_hash(result_hash))
}

/// Moves a settlement on by the outcome of the ledger call that `step` asked
/// for.
pub fn settlement_next(step: SettlementStep, reply: Result<(), LedgerFailure>) -> (r:
    SettlementStep)
    ensures
        r@ == next_step(step@, reply),
{
    match step {
        SettlementStep::SubmitResult { job_id, result_hash } => match reply {
            Ok(_) => SettlementStep::Release { job_id },
            Err(failure) => SettlementStep::Failed(SettlementError::SubmitResult(failure)),
        },
        SettlementStep::Release { job_id } => match reply {
            Ok(_) => SettlementStep::Settled,
            Err(failure) => SettlementStep::Failed(SettlementError::Release(failure)),
        },
        SettlementStep::Settled => SettlementStep::Settled,
        SettlementStep::Failed(e) => SettlementStep::Failed(e),
    }
}

/// Judges the outcome of the ledger call that records an assignment: `Ok`
/// for a confirmed call, else the failure to report.
pub fn assign_on_chain(reply: Result<(), LedgerFailure>) -> (r: Result<(), SchedulerError>)
    ensures
        r == match reply {
            Ok(_) => Ok::<(), SchedulerError>(()),
            Err(failure) => Err(assignment_error(failure)),
        },
        r is Err ==> r->Err_0.spec_status_code() == 500,
{
    match reply {
        Ok(_) => Ok(()),
        Err(LedgerFailure::PreparationFailed) => Err(SchedulerError::CallPreparationFailed),
        Err(LedgerFailure::SendFailed) => Err(SchedulerError::AssignmentFailed),
        Err(LedgerFailure::ReceiptMissing) => Err(SchedulerError::ConfirmationFailed),
        Err(LedgerFailure::ConfirmationFailed) => Err(SchedulerError::ConfirmationFailed),
    }
}

/// The release of a payment is asked for only after the result of the same
/// job was recorded and confirmed.
pub proof fn lemma_release_follows_confirmed_result(
    step: SettlementStepView,
    reply: Result<(), LedgerFailure>,
)
    requires
        next_step(step, reply) is Release,
    ensures
        step is SubmitResult,
        reply is Ok,
        step->SubmitResult_job_id == next_step(step, reply)->Release_job_id,
{
}

/// A settlement ends after at most two ledger calls, and ends in `Settled`
/// exactly when the hash parsed and both calls were confirmed.
pub proof fn lemma_settlement_ends(
    job_id: Seq<char>,
    parsed: Option<Seq<u8>>,
    first: Result<(), LedgerFailure>,
    second: Result<(), LedgerFailure>,
)
    ensures
        next_step(next_step(first_step(job_id, parsed), first), second).is_final(),
        next_step(next_step(first_step(job_id, parsed), first), second) is Settled <==> parsed is Some
            && first is Ok && second is Ok,
        parsed is None ==> first_step(job_id, parsed).is_final(),
        first is Err ==> next_step(first_step(job_id, parsed), first).is_final(),
{
}

/// A final step absorbs every further reply.
pub proof fn lemma_final_step_stays(step: SettlementStepView, reply: Result<(), LedgerFailure>)
    requires
        step.is_final(),
    ensures
        next_step(step, reply) == step,
{
}

} // verus!
