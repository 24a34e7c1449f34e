use scheduler::error::{ErrorKind, SchedulerError};
use scheduler::ledger::{
    assign_on_chain, settlement_next, settlement_start, submit_result_to_blockchain, LedgerFailure,
    SettlementError, SettlementStep,
};
use scheduler::nodes::{validate_wallet, AssignRequest};
use scheduler::wallet::{checked_wallet, WalletAddress};

const HASH: &str = "0x000102030405060708090a0b0c0d0e0f101112131415161718191a1b1c1d1e1f";

fn hash_bytes() -> [u8; 32] {
    let mut b = [0u8; 32];
    for (i, x) in b.iter_mut().enumerate() {
        *x = i as u8;
    }
    b
}

fn request(address: Option<&str>) -> AssignRequest {
    AssignRequest { job_id: "J1".to_string(), address: address.map(|a| a.to_string()) }
}

#[test]
fn wallet_parses_to_its_bytes() {
    let text = "0x000102030405060708090a0b0c0d0e0f10111213";
    let wallet = validate_wallet(&request(Some(text))).unwrap();
    let mut bytes = [0u8; 20];
    for (i, x) in bytes.iter_mut().enumerate() {
        *x = i as u8;
    }
    assert_eq!(wallet, WalletAddress { text: text.to_string(), bytes });
    assert_eq!(wallet.clone(), wallet);
}

#[test]
fn wallet_keeps_the_text_as_sent() {
    let text = "ABCDEFabcdef0123456789ABCDEFabcdef012345";
    let wallet = validate_wallet(&request(Some(text))).unwrap();
    assert_eq!(wallet.text, text);
    assert_eq!(
        wallet.bytes,
        [
            0xab, 0xcd, 0xef, 0xab, 0xcd, 0xef, 0x01, 0x23, 0x45, 0x67, 0x89, 0xab, 0xcd, 0xef, 0xab,
            0xcd, 0xef, 0x01, 0x23, 0x45
        ]
    );
}

#[test]
fn wallet_is_required() {
    assert_eq!(validate_wallet(&request(None)), Err(SchedulerError::WalletRequired));
    assert_eq!(validate_wallet(&request(Some(""))), Err(SchedulerError::WalletRequired));
}

#[test]
fn wallet_must_parse() {
    for text in ["0x", "0x1234", "hello", "0x000102030405060708090a0b0c0d0e0f1011121g", "0x000102030405060708090a0b0c0d0e0f1011121314"] {
        assert_eq!(validate_wallet(&request(Some(text))), Err(SchedulerError::InvalidWallet), "{}", text);
    }
}

#[test]
fn checked_wallet_decides_by_what_parsing_gave() {
    let text = "anything".to_string();
    assert_eq!(
        checked_wallet(&text, Some([7u8; 20])),
        Ok(WalletAddress { text: "anything".to_string(), bytes: [7u8; 20] })
    );
    assert_eq!(checked_wallet(&text, None), Err(SchedulerError::InvalidWallet));
    assert_eq!(checked_wallet(&String::new(), Some([7u8; 20])), Err(SchedulerError::WalletRequired));
    assert_eq!(checked_wallet(&String::new(), None), Err(SchedulerError::WalletRequired));
}

#[test]
fn settlement_opens_with_the_parsed_hash() {
    assert_eq!(
        submit_result_to_blockchain("J1", HASH),
        SettlementStep::SubmitResult { job_id: "J1".to_string(), result_hash: hash_bytes() }
    );
}

#[test]
fn settlement_stops_on_a_bad_hash() {
    for text in ["", "0xfeed", "QmHash", "zz0102030405060708090a0b0c0d0e0f101112131415161718191a1b1c1d1e1f"] {
        assert_eq!(
            submit_result_to_blockchain("J1", text),
            SettlementStep::Failed(SettlementError::InvalidResultHash),
            "{}",
            text
        );
    }
    assert_eq!(settlement_start("J1", None), SettlementStep::Failed(SettlementError::InvalidResultHash));
    assert_eq!(
        settlement_start("J1", Some([9u8; 32])),
        SettlementStep::SubmitResult { job_id: "J1".to_string(), result_hash: [9u8; 32] }
    );
}

#[test]
fn settlement_runs_submit_then_release() {
    let step = submit_result_to_blockchain("J1", HASH);
    let step = settlement_next(step, Ok(()));
    assert_eq!(step, SettlementStep::Release { job_id: "J1".to_string() });
    let step = settlement_next(step, Ok(()));
    assert_eq!(step, SettlementStep::Settled);
    assert_eq!(settlement_next(step, Ok(())), SettlementStep::Settled);
    assert_eq!(settlement_next(SettlementStep::Settled, Err(LedgerFailure::SendFailed)), SettlementStep::Settled);
}

#[test]
fn failed_submit_never_releases() {
    for failure in [
        LedgerFailure::PreparationFailed,
        LedgerFailure::SendFailed,
        LedgerFailure::ReceiptMissing,
        LedgerFailure::ConfirmationFailed,
    ] {
        let step = settlement_next(submit_result_to_blockchain("J1", HASH), Err(failure));
        assert_eq!(step, SettlementStep::Failed(SettlementError::SubmitResult(failure)));
        assert_eq!(settlement_next(step, Ok(())), SettlementStep::Failed(SettlementError::SubmitResult(failure)));
    }
}

#[test]
fn failed_release_is_reported_as_such() {
    for failure in [
        LedgerFailure::PreparationFailed,
        LedgerFailure::SendFailed,
        LedgerFailure::ReceiptMissing,
        LedgerFailure::ConfirmationFailed,
    ] {
        let step = settlement_next(submit_result_to_blockchain("J1", HASH), Ok(()));
        let step = settlement_next(step, Err(failure));
        assert_eq!(step, SettlementStep::Failed(SettlementError::Release(failure)));
    }
}

#[test]
fn assignment_verdicts() {
    assert_eq!(assign_on_chain(Ok(())), Ok(()));
    assert_eq!(assign_on_chain(Err(LedgerFailure::PreparationFailed)), Err(SchedulerError::CallPreparationFailed));
    assert_eq!(assign_on_chain(Err(LedgerFailure::SendFailed)), Err(SchedulerError::AssignmentFailed));
    assert_eq!(assign_on_chain(Err(LedgerFailure::ReceiptMissing)), Err(SchedulerError::ConfirmationFailed));
    assert_eq!(assign_on_chain(Err(LedgerFailure::ConfirmationFailed)), Err(SchedulerError::ConfirmationFailed));
}

#[test]
fn errors_report_kind_status_and_message() {
    let table = [
        (SchedulerError::WalletRequired, ErrorKind::Validation, 400, "Wallet address required"),
        (SchedulerError::InvalidWallet, ErrorKind::Validation, 400, "Invalid wallet address"),
        (SchedulerError::JobNotFound, ErrorKind::NotFound, 404, "Job not found"),
        (SchedulerError::NodeNotFound, ErrorKind::NotFound, 404, "Node not found or inactive"),
        (SchedulerError::JobNotPending, ErrorKind::Conflict, 400, "Job not pending"),
        (SchedulerError::NoEligibleNode, ErrorKind::Unavailable, 503, "No eligible nodes available"),
        (SchedulerError::CallPreparationFailed, ErrorKind::Infrastructure, 500, "Contract call preparation failed"),
        (SchedulerError::AssignmentFailed, ErrorKind::Infrastructure, 500, "Blockchain assignment failed"),
        (SchedulerError::ConfirmationFailed, ErrorKind::Infrastructure, 500, "Transaction failed to confirm"),
        (SchedulerError::StorageReadFailed, ErrorKind::Infrastructure, 500, "Failed to read nodes file"),
        (SchedulerError::StorageParseFailed, ErrorKind::Infrastructure, 500, "Failed to parse nodes file"),
    ];
    for (error, kind, status, message) in table {
        assert_eq!(error.kind(), kind);
        assert_eq!(error.status_code(), status);
        assert_eq!(error.message(), message);
        assert_eq!(error.is_retryable(), status == 503);
    }
}
