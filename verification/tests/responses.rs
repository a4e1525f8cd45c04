use preconf_api::error::{BlockSimError, PreconfApiError};
use preconf_api::status::ResponseStatus;

fn answer(e: PreconfApiError) -> (u16, String) {
    let r = e.into_response();
    (r.status.code(), r.body)
}

fn s(x: &str) -> String {
    x.to_string()
}

#[test]
fn nested_errors_are_bad_requests_with_their_text() {
    assert_eq!(answer(PreconfApiError::SerdeDecodeError(s("EOF while parsing"))), (400, s("Serde decode error: EOF while parsing")));
    assert_eq!(answer(PreconfApiError::IOError(s("broken pipe"))), (400, s("IO error: broken pipe")));
    assert_eq!(answer(PreconfApiError::SszDeserializeError(s("bad offset"))), (400, s("SSZ deserialize error: bad offset")));
    assert_eq!(answer(PreconfApiError::HyperError(s("connection closed"))), (400, s("Hyper error: connection closed")));
    assert_eq!(answer(PreconfApiError::AxumError(s("length limit exceeded"))), (400, s("Axum error: length limit exceeded")));
}

#[test]
fn numbers_are_printed_in_decimal() {
    assert_eq!(
        answer(PreconfApiError::PayloadTooLarge { max_size: 10485760, size: 10485761 }),
        (400, s("Payload too large. max size: 10485760, size: 10485761"))
    );
    assert_eq!(
        answer(PreconfApiError::SubmissionForPastSlot { current_slot: 9000001, submission_slot: 0 }),
        (400, s("Submission for past slot. current slot: 9000001, submission slot: 0"))
    );
    assert_eq!(
        answer(PreconfApiError::IncorrectTimestamp { got: 1700000012, expected: 1700000000 }),
        (400, s("Incorrect timestamp. got: 1700000012, expected: 1700000000"))
    );
    assert_eq!(
        answer(PreconfApiError::PayloadSlotMismatchWithPayloadAttributes { got: 10, expected: 9 }),
        (400, s("payload slot mismatches with current payload attributes slot. got: 10, expected: 9"))
    );
    assert_eq!(
        answer(PreconfApiError::SlotMismatch { got: u64::MAX, expected: 7 }),
        (400, s("Slot mismatch. got: 18446744073709551615, expected: 7"))
    );
}

#[test]
fn numbers_match_the_standard_decimal_form() {
    for n in [0u64, 1, 9, 10, 99, 100, 101, 4096, 1234567890, u64::MAX - 1, u64::MAX] {
        let mut out = String::from("n=");
        preconf_api::text::push_decimal(&mut out, n);
        assert_eq!(out, format!("n={}", n));
    }
}

#[test]
fn hash_and_key_mismatches_show_both_values() {
    let a = s("0x0101010101010101010101010101010101010101010101010101010101010101");
    let b = s("0x0202020202020202020202020202020202020202020202020202020202020202");
    assert_eq!(
        answer(PreconfApiError::BlockHashMismatch { message: a.clone(), payload: b.clone() }),
        (400, format!("Block hash mismatch. message: {a}, payload: {b}"))
    );
    assert_eq!(
        answer(PreconfApiError::ParentHashMismatch { message: a.clone(), payload: b.clone() }),
        (400, format!("Parent hash mismatch. message: {a}, payload: {b}"))
    );
    assert_eq!(
        answer(PreconfApiError::ProposerPublicKeyMismatch { got: a.clone(), expected: b.clone() }),
        (400, format!("Proposer public key mismatch. got: {a}, expected: {b}"))
    );
    assert_eq!(
        answer(PreconfApiError::FeeRecipientMismatch { got: a.clone(), expected: b.clone() }),
        (400, format!("Fee recipient mismatch. got: {a}, expected: {b}"))
    );
    assert_eq!(
        answer(PreconfApiError::WithdrawalsRootMismatch { got: a.clone(), expected: b.clone() }),
        (400, format!("Withdrawals root mismatch. got: {a}, expected: {b}"))
    );
    assert_eq!(
        answer(PreconfApiError::PrevRandaoMismatch { got: a.clone(), expected: b.clone() }),
        (400, format!("Prev randao mismatch. got: {a}, expected: {b}"))
    );
    assert_eq!(
        answer(PreconfApiError::DuplicateBlockHash { block_hash: a.clone() }),
        (400, format!("block already received: {a}"))
    );
    assert_eq!(
        answer(PreconfApiError::BuilderBlacklisted { pubkey: b.clone() }),
        (400, format!("Builder blacklisted. pubkey: {b}"))
    );
    assert_eq!(
        answer(PreconfApiError::BuilderNotOptimistic { builder_pub_key: b.clone() }),
        (400, format!("builder is not optimistic. builder_pub_key: {b}"))
    );
}

#[test]
fn plain_bad_requests() {
    let cases = [
        (PreconfApiError::FailedToDecodeHeaderSubmission, "Failed to decode header submission"),
        (PreconfApiError::ProposerDutyNotFound, "Could not find proposer duty for slot"),
        (PreconfApiError::ZeroValueBlock, "Zero value block"),
        (PreconfApiError::SignatureVerificationFailed, "Signature verification failed"),
        (PreconfApiError::PayloadAlreadyDelivered, "Payload already delivered"),
        (PreconfApiError::AlreadyProcessingNewerPayload, "Already processing newer payload"),
        (PreconfApiError::MissingWithdrawls, "missing withdrawals"),
        (PreconfApiError::InvalidWithdrawlsRoot, "invalid withdrawals root"),
        (PreconfApiError::MissingWithdrawlsRoot, "missing withdrawals root"),
        (PreconfApiError::PayloadAttributesNotYetKnown, "payload attributes not yet known"),
        (
            PreconfApiError::V2SubmissionsInvalidIfProposerRequiresRegionalFiltering,
            "V2 submissions invalid if proposer requires regional filtering",
        ),
    ];
    for (e, body) in cases {
        assert_eq!(answer(e), (400, s(body)));
    }
}

#[test]
fn statuses_other_than_bad_request() {
    assert_eq!(answer(PreconfApiError::BidBelowFloor), (202, s("Bid below floor, skipped validation")));
    assert_eq!(answer(PreconfApiError::InvalidApiKey), (401, s("Invalid api key")));
    assert_eq!(answer(PreconfApiError::InternalError), (500, s("Internal error")));
    assert_eq!(
        answer(PreconfApiError::AuctioneerError(s("redis connection refused"))),
        (500, s("Auctioneer error: redis connection refused"))
    );
}

#[test]
fn block_validation_timeout_is_a_gateway_timeout() {
    assert_eq!(
        answer(PreconfApiError::BlockValidationError(BlockSimError::Timeout)),
        (504, s("Block validation timeout"))
    );
    let failed = BlockSimError::Failed { message: s("invalid state root"), debug: s("BlockValidationFailed(\"invalid state root\")") };
    assert_eq!(
        answer(PreconfApiError::BlockValidationError(failed)),
        (400, s("Block validation error: invalid state root"))
    );
}

#[test]
fn collateral_shortfall_keeps_its_layout() {
    let e = PreconfApiError::NotEnoughOptimisticCollateral {
        builder_pub_key: s("0xaa"),
        collateral: s("100"),
        collateral_required: s("200"),
        is_optimistic: true,
    };
    assert_eq!(
        e.clone().into_response().body,
        "not enough optimistic collateral. builder_pub_key: 0xaa. \n                    collateral: 100, collateral required: 200. is_optimistic: true"
    );
    assert_eq!(
        e.to_string(),
        "not enough optimistic collateral. builder_pub_key: 0xaa. \n        collateral: 100, collateral required: 200"
    );
    let f = PreconfApiError::NotEnoughOptimisticCollateral {
        builder_pub_key: s("0xbb"),
        collateral: s("0"),
        collateral_required: s("1"),
        is_optimistic: false,
    };
    assert!(f.into_response().body.ends_with(". is_optimistic: false"));
}

#[test]
fn trusted_list_is_printed_as_a_list() {
    let builders = vec![s("alpha"), s("be\"ta"), s("line\nbreak")];
    let e = PreconfApiError::BuilderNotInProposersTrustedList { proposer_trusted_builders: builders.clone() };
    assert_eq!(e.to_string(), format!("builder not in proposer's trusted list: {:?}", builders));
    assert_eq!(
        answer(e),
        (400, s("builder not in proposer's trusted list: [\"alpha\", \"be\\\"ta\", \"line\\nbreak\"]"))
    );
    let empty = PreconfApiError::BuilderNotInProposersTrustedList { proposer_trusted_builders: vec![] };
    assert_eq!(answer(empty), (400, s("builder not in proposer's trusted list: []")));
    let one = PreconfApiError::BuilderNotInProposersTrustedList { proposer_trusted_builders: vec![s("x")] };
    assert_eq!(answer(one), (400, s("builder not in proposer's trusted list: [\"x\"]")));
}

#[test]
fn status_codes() {
    assert_eq!(ResponseStatus::Accepted.code(), 202);
    assert_eq!(ResponseStatus::BadRequest.code(), 400);
    assert_eq!(ResponseStatus::Unauthorized.code(), 401);
    assert_eq!(ResponseStatus::InternalServerError.code(), 500);
    assert_eq!(ResponseStatus::GatewayTimeout.code(), 504);
    assert_eq!(PreconfApiError::BidBelowFloor.status(), ResponseStatus::Accepted);
}
