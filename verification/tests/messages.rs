use preconf_api::error::{BlockSimError, PreconfApiError};

fn s(x: &str) -> String {
    x.to_string()
}

#[test]
fn messages_of_nested_errors() {
    assert_eq!(PreconfApiError::HyperError(s("x")).to_string(), "hyper error: x");
    assert_eq!(PreconfApiError::AxumError(s("x")).to_string(), "axum error: x");
    assert_eq!(PreconfApiError::SerdeDecodeError(s("x")).to_string(), "serde decode error: x");
    assert_eq!(PreconfApiError::IOError(s("x")).to_string(), "IO error: x");
    assert_eq!(PreconfApiError::SszDeserializeError(s("x")).to_string(), "ssz deserialize error: x");
    assert_eq!(PreconfApiError::AuctioneerError(s("x")).to_string(), "datastore error: x");
}

#[test]
fn messages_with_numbers() {
    assert_eq!(
        PreconfApiError::PayloadTooLarge { max_size: 1, size: 20 }.to_string(),
        "payload too large. max size: 1, size: 20"
    );
    assert_eq!(
        PreconfApiError::SubmissionForPastSlot { current_slot: 5, submission_slot: 4 }.to_string(),
        "submission for past slot. current slot: 5, submission slot: 4"
    );
    assert_eq!(
        PreconfApiError::IncorrectTimestamp { got: 3, expected: 30 }.to_string(),
        "incorrect timestamp. got: 3, expected: 30"
    );
    assert_eq!(
        PreconfApiError::PayloadSlotMismatchWithPayloadAttributes { got: 1, expected: 2 }.to_string(),
        "payload slot mismatches with current payload attributes slot. got: 1, expected: 2"
    );
    assert_eq!(PreconfApiError::SlotMismatch { got: 0, expected: 100 }.to_string(), "slot mismatch. got: 0, expected: 100");
}

#[test]
fn messages_with_debug_values() {
    assert_eq!(PreconfApiError::BuilderBlacklisted { pubkey: s("0x01") }.to_string(), "builder blacklisted. pubkey: 0x01");
    assert_eq!(
        PreconfApiError::BlockHashMismatch { message: s("0x01"), payload: s("0x02") }.to_string(),
        "block hash mismatch. message: 0x01, payload: 0x02"
    );
    assert_eq!(
        PreconfApiError::ParentHashMismatch { message: s("0x01"), payload: s("0x02") }.to_string(),
        "parent hash mismatch. message: 0x01, payload: 0x02"
    );
    assert_eq!(
        PreconfApiError::FeeRecipientMismatch { got: s("0x01"), expected: s("0x02") }.to_string(),
        "fee recipient mismatch. got: 0x01, expected: 0x02"
    );
    assert_eq!(
        PreconfApiError::ProposerPublicKeyMismatch { got: s("0x01"), expected: s("0x02") }.to_string(),
        "proposer public key mismatch. got: 0x01, expected: 0x02"
    );
    assert_eq!(
        PreconfApiError::WithdrawalsRootMismatch { got: s("0x01"), expected: s("0x02") }.to_string(),
        "withdrawls root mismatch. got: 0x01, expected: 0x02"
    );
    assert_eq!(
        PreconfApiError::PrevRandaoMismatch { got: s("0x01"), expected: s("0x02") }.to_string(),
        "incorrect prev_randao - got: 0x01, expected: 0x02"
    );
    assert_eq!(PreconfApiError::DuplicateBlockHash { block_hash: s("0x03") }.to_string(), "block already received: 0x03");
    assert_eq!(
        PreconfApiError::BuilderNotOptimistic { builder_pub_key: s("0x04") }.to_string(),
        "builder is not optimistic. builder_pub_key: 0x04"
    );
}

#[test]
fn messages_without_values() {
    let cases = [
        (PreconfApiError::FailedToDecodeHeaderSubmission, "failed to decode header-submission"),
        (PreconfApiError::ProposerDutyNotFound, "could not find proposer duty for slot"),
        (PreconfApiError::InvalidApiKey, "invalid api key"),
        (PreconfApiError::PayloadAttributesNotYetKnown, "payload attributes not yet known"),
        (PreconfApiError::ZeroValueBlock, "zero value block"),
        (PreconfApiError::MissingWithdrawls, "missing withdrawls"),
        (PreconfApiError::InvalidWithdrawlsRoot, "invalid withdrawls root"),
        (PreconfApiError::MissingWithdrawlsRoot, "missing withdrawls root"),
        (PreconfApiError::SignatureVerificationFailed, "signature verification failed"),
        (PreconfApiError::PayloadAlreadyDelivered, "payload already delivered"),
        (PreconfApiError::AlreadyProcessingNewerPayload, "already processing newer payload"),
        (PreconfApiError::BidBelowFloor, "accepted bid below floor, skipped validation"),
        (PreconfApiError::InternalError, "internal error"),
        (
            PreconfApiError::V2SubmissionsInvalidIfProposerRequiresRegionalFiltering,
            "V2 submissions invalid if proposer requires regional filtering",
        ),
    ];
    for (e, msg) in cases {
        assert_eq!(e.to_string(), msg);
    }
}

#[test]
fn block_validation_message_uses_the_debug_form() {
    assert_eq!(
        PreconfApiError::BlockValidationError(BlockSimError::Timeout).to_string(),
        "block validation error: Timeout"
    );
    let failed = BlockSimError::Failed { message: s("rpc error: down"), debug: s("RpcError(\"down\")") };
    assert_eq!(
        PreconfApiError::BlockValidationError(failed).to_string(),
        "block validation error: RpcError(\"down\")"
    );
}
