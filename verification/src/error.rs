//! The errors of the preconfirmation API, the message each of them reads as,
//! and the HTTP response each of them is answered with.
//!
//! Where an error carries a value of another library (a transport, decoding
//! or datastore error, a hash, a public key, an amount), the error holds the
//! text that the value prints as: its `Display` text for a nested error, its
//! `Debug` text for a hash, key or amount. Those texts are all that the
//! messages and responses read of such a value.

use vstd::prelude::*;
use vstd::string::*;

use crate::status::ResponseStatus;
use crate::text::{
    bool_text, decimal, debug_list, push_bool, push_debug_list, push_decimal, string_views,
};

verus! {

/// Why the block simulator rejected a block, as far as the API reads it.
#[derive(Clone, Debug)]
pub enum BlockSimError {
    /// The simulation did not answer in time.
    Timeout,
    /// Any other simulation failure.
    Failed {
        /// What the failure prints as with `Display`.
        message: String,
        /// What the failure prints as with `Debug`.
        debug: String,
    },
}

impl BlockSimError {
    /// What the simulation error prints as with `Debug`; a timeout prints as
    /// its variant's name.
    pub open spec fn spec_debug(&self) -> Seq<char> {
        match self {
            BlockSimError::Timeout => "Timeout"@,
            BlockSimError::Failed { debug, .. } => debug@,
        }
    }
}

/// An error of the preconfirmation API.
#[derive(Clone, Debug)]
pub enum PreconfApiError {
    /// The HTTP transport failed; holds the transport error's text.
    HyperError(String),
    /// The web framework failed; holds the framework error's text.
    AxumError(String),
    /// A JSON body did not decode; holds the decoder's error text.
    SerdeDecodeError(String),
    /// An I/O operation failed; holds the I/O error's text.
    IOError(String),
    /// An SSZ body did not decode; holds the decoder's error text.
    SszDeserializeError(String),
    FailedToDecodeHeaderSubmission,
    PayloadTooLarge { max_size: usize, size: usize },
    SubmissionForPastSlot { current_slot: u64, submission_slot: u64 },
    /// `pubkey` is the builder's public key in its `Debug` form.
    BuilderBlacklisted { pubkey: String },
    IncorrectTimestamp { got: u64, expected: u64 },
    ProposerDutyNotFound,
    InvalidApiKey,
    PayloadAttributesNotYetKnown,
    PayloadSlotMismatchWithPayloadAttributes { got: u64, expected: u64 },
    /// Both hashes in their `Debug` form.
    BlockHashMismatch { message: String, payload: String },
    /// Both hashes in their `Debug` form.
    ParentHashMismatch { message: String, payload: String },
    /// Both addresses in their `Debug` form.
    FeeRecipientMismatch { got: String, expected: String },
    /// Both public keys in their `Debug` form.
    ProposerPublicKeyMismatch { got: String, expected: String },
    SlotMismatch { got: u64, expected: u64 },
    ZeroValueBlock,
    MissingWithdrawls,
    InvalidWithdrawlsRoot,
    MissingWithdrawlsRoot,
    /// Both roots in their `Debug` form.
    WithdrawalsRootMismatch { got: String, expected: String },
    SignatureVerificationFailed,
    PayloadAlreadyDelivered,
    AlreadyProcessingNewerPayload,
    BidBelowFloor,
    BlockValidationError(BlockSimError),
    InternalError,
    /// The datastore failed; holds the datastore error's text.
    AuctioneerError(String),
    /// Both values in their `Debug` form.
    PrevRandaoMismatch { got: String, expected: String },
    /// The hash in its `Debug` form.
    DuplicateBlockHash { block_hash: String },
    /// The key and both amounts in their `Debug` form.
    NotEnoughOptimisticCollateral {
        builder_pub_key: String,
        collateral: String,
        collateral_required: String,
        is_optimistic: bool,
    },
    /// The key in its `Debug` form.
    BuilderNotOptimistic { builder_pub_key: String },
    BuilderNotInProposersTrustedList { proposer_trusted_builders: Vec<String> },
    V2SubmissionsInvalidIfProposerRequiresRegionalFiltering,
}

/// The HTTP response that an error is answered with.
pub struct ErrorResponse {
    pub status: ResponseStatus,
    pub body: String,
}

impl PreconfApiError {
    /// The status of the response that the error is answered with: a bid
    /// below the floor is accepted, a bad API key is unauthorized, internal
    /// and datastore failures are server errors, a simulation timeout is a
    /// gateway timeout, and every other error is a bad request.
    pub open spec fn spec_status(&self) -> ResponseStatus {
        match self {
            PreconfApiError::BidBelowFloor => ResponseStatus::Accepted,
            PreconfApiError::InvalidApiKey => ResponseStatus::Unauthorized,
            PreconfApiError::InternalError => ResponseStatus::InternalServerError,
            PreconfApiError::AuctioneerError(_) => ResponseStatus::InternalServerError,
            PreconfApiError::BlockValidationError(BlockSimError::Timeout) => ResponseStatus::GatewayTimeout,
            _ => ResponseStatus::BadRequest,
        }
    }

    /// The body of the response that the error is answered with.
    pub open spec fn spec_body(&self) -> Seq<char> {
        match self {
            PreconfApiError::SerdeDecodeError(err) => "Serde decode error: "@ + err@,
            PreconfApiError::IOError(err) => "IO error: "@ + err@,
            PreconfApiError::SszDeserializeError(err) => "SSZ deserialize error: "@ + err@,
            PreconfApiError::FailedToDecodeHeaderSubmission => "Failed to decode header submission"@,
            PreconfApiError::HyperError(err) => "Hyper error: "@ + err@,
            PreconfApiError::AxumError(err) => "Axum error: "@ + err@,
            PreconfApiError::PayloadTooLarge { max_size, size } =>
                "Payload too large. max size: "@ + decimal(*max_size as nat) + ", size: "@
                    + decimal(*size as nat),
            PreconfApiError::SubmissionForPastSlot { current_slot, submission_slot } =>
                "Submission for past slot. current slot: "@ + decimal(*current_slot as nat)
                    + ", submission slot: "@ + decimal(*submission_slot as nat),
            PreconfApiError::BuilderBlacklisted { pubkey } => "Builder blacklisted. pubkey: "@ + pubkey@,
            PreconfApiError::IncorrectTimestamp { got, expected } =>
                "Incorrect timestamp. got: "@ + decimal(*got as nat) + ", expected: "@
                    + decimal(*expected as nat),
            PreconfApiError::ProposerDutyNotFound => "Could not find proposer duty for slot"@,
            PreconfApiError::PayloadSlotMismatchWithPayloadAttributes { got, expected } =>
                "payload slot mismatches with current payload attributes slot. got: "@
                    + decimal(*got as nat) + ", expected: "@ + decimal(*expected as nat),
            PreconfApiError::BlockHashMismatch { message, payload } =>
                "Block hash mismatch. message: "@ + message@ + ", payload: "@ + payload@,
            PreconfApiError::ParentHashMismatch { message, payload } =>
                "Parent hash mismatch. message: "@ + message@ + ", payload: "@ + payload@,
            PreconfApiError::ProposerPublicKeyMismatch { got, expected } =>
                "Proposer public key mismatch. got: "@ + got@ + ", expected: "@ + expected@,
            PreconfApiError::ZeroValueBlock => "Zero value block"@,
            PreconfApiError::SignatureVerificationFailed => "Signature verification failed"@,
            PreconfApiError::PayloadAlreadyDelivered => "Payload already delivered"@,
            PreconfApiError::BidBelowFloor => "Bid below floor, skipped validation"@,
            PreconfApiError::InvalidApiKey => "Invalid api key"@,
            PreconfApiError::InternalError => "Internal error"@,
            PreconfApiError::BlockValidationError(err) => match err {
                BlockSimError::Timeout => "Block validation timeout"@,
                BlockSimError::Failed { message, .. } => "Block validation error: "@ + message@,
            },
            PreconfApiError::AlreadyProcessingNewerPayload => "Already processing newer payload"@,
            PreconfApiError::AuctioneerError(err) => "Auctioneer error: "@ + err@,
            PreconfApiError::FeeRecipientMismatch { got, expected } =>
                "Fee recipient mismatch. got: "@ + got@ + ", expected: "@ + expected@,
            PreconfApiError::SlotMismatch { got, expected } =>
                "Slot mismatch. got: "@ + decimal(*got as nat) + ", expected: "@
                    + decimal(*expected as nat),
            PreconfApiError::MissingWithdrawls => "missing withdrawals"@,
            PreconfApiError::InvalidWithdrawlsRoot => "invalid withdrawals root"@,
            PreconfApiError::MissingWithdrawlsRoot => "missing withdrawals root"@,
            PreconfApiError::WithdrawalsRootMismatch { got, expected } =>
                "Withdrawals root mismatch. got: "@ + got@ + ", expected: "@ + expected@,
            PreconfApiError::PayloadAttributesNotYetKnown => "payload attributes not yet known"@,
            PreconfApiError::PrevRandaoMismatch { got, expected } =>
                "Prev randao mismatch. got: "@ + got@ + ", expected: "@ + expected@,
            PreconfApiError::DuplicateBlockHash { block_hash } =>
                "block already received: "@ + block_hash@,
            PreconfApiError::NotEnoughOptimisticCollateral {
                builder_pub_key,
                collateral,
                collateral_required,
                is_optimistic,
            } =>
                "not enough optimistic collateral. builder_pub_key: "@ + builder_pub_key@
                    + ". \n                    collateral: "@ + collateral@
                    + ", collateral required: "@ + collateral_required@
                    + ". is_optimistic: "@ + bool_text(*is_optimistic),
            PreconfApiError::BuilderNotOptimistic { builder_pub_key } =>
                "builder is not optimistic. builder_pub_key: "@ + builder_pub_key@,
            PreconfApiError::BuilderNotInProposersTrustedList { proposer_trusted_builders } =>
                "builder not in proposer's trusted list: "@
                    + debug_list(string_views(proposer_trusted_builders@)),
            PreconfApiError::V2SubmissionsInvalidIfProposerRequiresRegionalFiltering =>
                "V2 submissions invalid if proposer requires regional filtering"@,
        }
    }
}

impl PreconfApiError {
    /// Returns the status of the response that the error is answered with.
    pub fn status(&self) -> (s: ResponseStatus)
        ensures
            s == self.spec_status(),
    {
        match self {
            PreconfApiError::BidBelowFloor => ResponseStatus::Accepted,
            PreconfApiError::InvalidApiKey => ResponseStatus::Unauthorized,
            PreconfApiError::InternalError => ResponseStatus::InternalServerError,
            PreconfApiError::AuctioneerError(_) => ResponseStatus::InternalServerError,
            PreconfApiError::BlockValidationError(BlockSimError::Timeout) => ResponseStatus::GatewayTimeout,
            _ => ResponseStatus::BadRequest,
        }
    }

    /// Answers the error: the response's status is `spec_status` and its
    /// body is `spec_body`.
    pub fn into_response(self) -> (r: ErrorResponse)
        ensures
            r.status == self.spec_status(),
            r.body@ == self.spec_body(),
    {
        let status = self.status();
        let mut out = String::new();
        match &self {
            PreconfApiError::SerdeDecodeError(err) => {
                out.append("Serde decode error: ");
                out.append(err.as_str());
            },
            PreconfApiError::IOError(err) => {
                out.append("IO error: ");
                out.append(err.as_str());
            },
            PreconfApiError::SszDeserializeError(err) => {
                out.append("SSZ deserialize error: ");
                out.append(err.as_str());
            },
            PreconfApiError::FailedToDecodeHeaderSubmission => {
                out.append("Failed to decode header submission");
            },
            PreconfApiError::HyperError(err) => {
                out.append("Hyper error: ");
                out.append(err.as_str());
            },
            PreconfApiError::AxumError(err) => {
                out.append("Axum error: ");
                out.append(err.as_str());
            },
            PreconfApiError::PayloadTooLarge { max_size, size } => {
                out.append("Payload too large. max size: ");
                push_decimal(&mut out, *max_size as u64);
                out.append(", size: ");
                push_decimal(&mut out, *size as u64);
            },
            PreconfApiError::SubmissionForPastSlot { current_slot, submission_slot } => {
                out.append("Submission for past slot. current slot: ");
                push_decimal(&mut out, *current_slot);
                out.append(", submission slot: ");
                push_decimal(&mut out, *submission_slot);
            },
            PreconfApiError::BuilderBlacklisted { pubkey } => {
                out.append("Builder blacklisted. pubkey: ");
                out.append(pubkey.as_str());
            },
            PreconfApiError::IncorrectTimestamp { got, expected } => {
                out.append("Incorrect timestamp. got: ");
                push_decimal(&mut out, *got);
                out.append(", expected: ");
                push_decimal(&mut out, *expected);
            },
            PreconfApiError::ProposerDutyNotFound => {
                out.append("Could not find proposer duty for slot");
            },
            PreconfApiError::PayloadSlotMismatchWithPayloadAttributes { got, expected } => {
                out.append("payload slot mismatches with current payload attributes slot. got: ");
                push_decimal(&mut out, *got);
                out.append(", expected: ");
                push_decimal(&mut out, *expected);
            },
            PreconfApiError::BlockHashMismatch { message, payload } => {
                out.append("Block hash mismatch. message: ");
                out.append(message.as_str());
                out.append(", payload: ");
                out.append(payload.as_str());
            },
            PreconfApiError::ParentHashMismatch { message, payload } => {
                out.append("Parent hash mismatch. message: ");
                out.append(message.as_str());
                out.append(", payload: ");
                out.append(payload.as_str());
            },
            PreconfApiError::ProposerPublicKeyMismatch { got, expected } => {
                out.append("Proposer public key mismatch. got: ");
                out.append(got.as_str());
                out.append(", expected: ");
                out.append(expected.as_str());
            },
            PreconfApiError::ZeroValueBlock => {
                out.append("Zero value block");
            },
            PreconfApiError::SignatureVerificationFailed => {
                out.append("Signature verification failed");
            },
            PreconfApiError::PayloadAlreadyDelivered => {
                out.append("Payload already delivered");
            },
            PreconfApiError::BidBelowFloor => {
                out.append("Bid below floor, skipped validation");
            },
            PreconfApiError::InvalidApiKey => {
                out.append("Invalid api key");
            },
            PreconfApiError::InternalError => {
                out.append("Internal error");
            },
            PreconfApiError::BlockValidationError(err) => match err {
                BlockSimError::Timeout => {
                    out.append("Block validation timeout");
                },
                BlockSimError::Failed { message, .. } => {
                    out.append("Block validation error: ");
                    out.append(message.as_str());
                },
            },
            PreconfApiError::AlreadyProcessingNewerPayload => {
                out.append("Already processing newer payload");
            },
            PreconfApiError::AuctioneerError(err) => {
                out.append("Auctioneer error: ");
                out.append(err.as_str());
            },
            PreconfApiError::FeeRecipientMismatch { got, expected } => {
                out.append("Fee recipient mismatch. got: ");
                out.append(got.as_str());
                out.append(", expected: ");
                out.append(expected.as_str());
            },
            PreconfApiError::SlotMismatch { got, expected } => {
                out.append("Slot mismatch. got: ");
                push_decimal(&mut out, *got);
                out.append(", expected: ");
                push_decimal(&mut out, *expected);
            },
            PreconfApiError::MissingWithdrawls => {
                out.append("missing withdrawals");
            },
            PreconfApiError::InvalidWithdrawlsRoot => {
                out.append("invalid withdrawals root");
            },
            PreconfApiError::MissingWithdrawlsRoot => {
                out.append("missing withdrawals root");
            },
            PreconfApiError::WithdrawalsRootMismatch { got, expected } => {
                out.append("Withdrawals root mismatch. got: ");
                out.append(got.as_str());
                out.append(", expected: ");
                out.append(expected.as_str());
            },
            PreconfApiError::PayloadAttributesNotYetKnown => {
                out.append("payload attributes not yet known");
            },
            PreconfApiError::PrevRandaoMismatch { got, expected } => {
                out.append("Prev randao mismatch. got: ");
                out.append(got.as_str());
                out.append(", expected: ");
                out.append(expected.as_str());
            },
            PreconfApiError::DuplicateBlockHash { block_hash } => {
                out.append("block already received: ");
                out.append(block_hash.as_str());
            },
            PreconfApiError::NotEnoughOptimisticCollateral {
                builder_pub_key,
                collateral,
                collateral_required,
                is_optimistic,
            } => {
                out.append("not enough optimistic collateral. builder_pub_key: ");
                out.append(builder_pub_key.as_str());
                out.append(". \n                    collateral: ");
                out.append(collateral.as_str());
                out.append(", collateral required: ");
                out.append(collateral_required.as_str());
                out.append(". is_optimistic: ");
                push_bool(&mut out, *is_optimistic);
            },
            PreconfApiError::BuilderNotOptimistic { builder_pub_key } => {
                out.append("builder is not optimistic. builder_pub_key: ");
                out.append(builder_pub_key.as_str());
            },
            PreconfApiError::BuilderNotInProposersTrustedList { proposer_trusted_builders } => {
                out.append("builder not in proposer's trusted list: ");
                push_debug_list(&mut out, proposer_trusted_builders);
            },
            PreconfApiError::V2SubmissionsInvalidIfProposerRequiresRegionalFiltering => {
                out.append("V2 submissions invalid if proposer requires regional filtering");
            },
        }
        ErrorResponse { status, body: out }
    }
}

impl PreconfApiError {
    /// The message that the error reads as (its `Display` text).
    pub open spec fn spec_message(&self) -> Seq<char> {
        match self {
            PreconfApiError::HyperError(err) => "hyper error: "@ + err@,
            PreconfApiError::AxumError(err) => "axum error: "@ + err@,
            PreconfApiError::SerdeDecodeError(err) => "serde decode error: "@ + err@,
            PreconfApiError::IOError(err) => "IO error: "@ + err@,
            PreconfApiError::SszDeserializeError(err) => "ssz deserialize error: "@ + err@,
            PreconfApiError::FailedToDecodeHeaderSubmission => "failed to decode header-submission"@,
            PreconfApiError::PayloadTooLarge { max_size, size } =>
                "payload too large. max size: "@ + decimal(*max_size as nat) + ", size: "@
                    + decimal(*size as nat),
            PreconfApiError::SubmissionForPastSlot { current_slot, submission_slot } =>
                "submission for past slot. current slot: "@ + decimal(*current_slot as nat)
                    + ", submission slot: "@ + decimal(*submission_slot as nat),
            PreconfApiError::BuilderBlacklisted { pubkey } => "builder blacklisted. pubkey: "@ + pubkey@,
            PreconfApiError::IncorrectTimestamp { got, expected } =>
                "incorrect timestamp. got: "@ + decimal(*got as nat) + ", expected: "@
                    + decimal(*expected as nat),
            PreconfApiError::ProposerDutyNotFound => "could not find proposer duty for slot"@,
            PreconfApiError::InvalidApiKey => "invalid api key"@,
            PreconfApiError::PayloadAttributesNotYetKnown => "payload attributes not yet known"@,
            PreconfApiError::PayloadSlotMismatchWithPayloadAttributes { got, expected } =>
                "payload slot mismatches with current payload attributes slot. got: "@
                    + decimal(*got as nat) + ", expected: "@ + decimal(*expected as nat),
            PreconfApiError::BlockHashMismatch { message, payload } =>
                "block hash mismatch. message: "@ + message@ + ", payload: "@ + payload@,
            PreconfApiError::ParentHashMismatch { message, payload } =>
                "parent hash mismatch. message: "@ + message@ + ", payload: "@ + payload@,
            PreconfApiError::FeeRecipientMismatch { got, expected } =>
                "fee recipient mismatch. got: "@ + got@ + ", expected: "@ + expected@,
            PreconfApiError::ProposerPublicKeyMismatch { got, expected } =>
                "proposer public key mismatch. got: "@ + got@ + ", expected: "@ + expected@,
            PreconfApiError::SlotMismatch { got, expected } =>
                "slot mismatch. got: "@ + decimal(*got as nat) + ", expected: "@
                    + decimal(*expected as nat),
            PreconfApiError::ZeroValueBlock => "zero value block"@,
            PreconfApiError::MissingWithdrawls => "missing withdrawls"@,
            PreconfApiError::InvalidWithdrawlsRoot => "invalid withdrawls root"@,
            PreconfApiError::MissingWithdrawlsRoot => "missing withdrawls root"@,
            PreconfApiError::WithdrawalsRootMismatch { got, expected } =>
                "withdrawls root mismatch. got: "@ + got@ + ", expected: "@ + expected@,
            PreconfApiError::SignatureVerificationFailed => "signature verification failed"@,
            PreconfApiError::PayloadAlreadyDelivered => "payload already delivered"@,
            PreconfApiError::AlreadyProcessingNewerPayload => "already processing newer payload"@,
            PreconfApiError::BidBelowFloor => "accepted bid below floor, skipped validation"@,
            PreconfApiError::BlockValidationError(err) => "block validation error: "@ + err.spec_debug(),
            PreconfApiError::InternalError => "internal error"@,
            PreconfApiError::AuctioneerError(err) => "datastore error: "@ + err@,
            PreconfApiError::PrevRandaoMismatch { got, expected } =>
                "incorrect prev_randao - got: "@ + got@ + ", expected: "@ + expected@,
            PreconfApiError::DuplicateBlockHash { block_hash } =>
                "block already received: "@ + block_hash@,
            PreconfApiError::NotEnoughOptimisticCollateral {
                builder_pub_key,
                collateral,
                collateral_required,
                ..
            } =>
                "not enough optimistic collateral. builder_pub_key: "@ + builder_pub_key@
                    + ". \n        collateral: "@ + collateral@
                    + ", collateral required: "@ + collateral_required@,
            PreconfApiError::BuilderNotOptimistic { builder_pub_key } =>
                "builder is not optimistic. builder_pub_key: "@ + builder_pub_key@,
            PreconfApiError::BuilderNotInProposersTrustedList { proposer_trusted_builders } =>
                "builder not in proposer's trusted list: "@
                    + debug_list(string_views(proposer_trusted_builders@)),
            PreconfApiError::V2SubmissionsInvalidIfProposerRequiresRegionalFiltering =>
                "V2 submissions invalid if proposer requires regional filtering"@,
        }
    }

    /// Returns the message that the error reads as: `spec_message`.
    pub fn to_string(&self) -> (s: String)
        ensures
            s@ == self.spec_message(),
    {
        let mut out = String::new();
        match self {
            PreconfApiError::HyperError(err) => {
                out.append("hyper error: ");
                out.append(err.as_str());
            },
            PreconfApiError::AxumError(err) => {
                out.append("axum error: ");
                out.append(err.as_str());
            },
            PreconfApiError::SerdeDecodeError(err) => {
                out.append("serde decode error: ");
                out.append(err.as_str());
            },
            PreconfApiError::IOError(err) => {
                out.append("IO error: ");
                out.append(err.as_str());
            },
            PreconfApiError::SszDeserializeError(err) => {
                out.append("ssz deserialize error: ");
                out.append(err.as_str());
            },
            PreconfApiError::FailedToDecodeHeaderSubmission => {
                out.append("failed to decode header-submission");
            },
            PreconfApiError::PayloadTooLarge { max_size, size } => {
                out.append("payload too large. max size: ");
                push_decimal(&mut out, *max_size as u64);
                out.append(", size: ");
                push_decimal(&mut out, *size as u64);
            },
            PreconfApiError::SubmissionForPastSlot { current_slot, submission_slot } => {
                out.append("submission for past slot. current slot: ");
                push_decimal(&mut out, *current_slot);
                out.append(", submission slot: ");
                push_decimal(&mut out, *submission_slot);
            },
            PreconfApiError::BuilderBlacklisted { pubkey } => {
                out.append("builder blacklisted. pubkey: ");
                out.append(pubkey.as_str());
            },
            PreconfApiError::IncorrectTimestamp { got, expected } => {
                out.append("incorrect timestamp. got: ");
                push_decimal(&mut out, *got);
                out.append(", expected: ");
                push_decimal(&mut out, *expected);
            },
            PreconfApiError::ProposerDutyNotFound => {
                out.append("could not find proposer duty for slot");
            },
            PreconfApiError::InvalidApiKey => {
                out.append("invalid api key");
            },
            PreconfApiError::PayloadAttributesNotYetKnown => {
                out.append("payload attributes not yet known");
            },
            PreconfApiError::PayloadSlotMismatchWithPayloadAttributes { got, expected } => {
                out.append("payload slot mismatches with current payload attributes slot. got: ");
                push_decimal(&mut out, *got);
                out.append(", expected: ");
                push_decimal(&mut out, *expected);
            },
            PreconfApiError::BlockHashMismatch { message, payload } => {
                out.append("block hash mismatch. message: ");
                out.append(message.as_str());
                out.append(", payload: ");
                out.append(payload.as_str());
            },
            PreconfApiError::ParentHashMismatch { message, payload } => {
                out.append("parent hash mismatch. message: ");
                out.append(message.as_str());
                out.append(", payload: ");
                out.append(payload.as_str());
            },
            PreconfApiError::FeeRecipientMismatch { got, expected } => {
                out.append("fee recipient mismatch. got: ");
                out.append(got.as_str());
                out.append(", expected: ");
                out.append(expected.as_str());
            },
            PreconfApiError::ProposerPublicKeyMismatch { got, expected } => {
                out.append("proposer public key mismatch. got: ");
                out.append(got.as_str());
                out.append(", expected: ");
                out.append(expected.as_str());
            },
            PreconfApiError::SlotMismatch { got, expected } => {
                out.append("slot mismatch. got: ");
                push_decimal(&mut out, *got);
                out.append(", expected: ");
                push_decimal(&mut out, *expected);
            },
            PreconfApiError::ZeroValueBlock => {
                out.append("zero value block");
            },
            PreconfApiError::MissingWithdrawls => {
                out.append("missing withdrawls");
            },
            PreconfApiError::InvalidWithdrawlsRoot => {
                out.append("invalid withdrawls root");
            },
            PreconfApiError::MissingWithdrawlsRoot => {
                out.append("missing withdrawls root");
            },
            PreconfApiError::WithdrawalsRootMismatch { got, expected } => {
                out.append("withdrawls root mismatch. got: ");
                out.append(got.as_str());
                out.append(", expected: ");
                out.append(expected.as_str());
            },
            PreconfApiError::SignatureVerificationFailed => {
                out.append("signature verification failed");
            },
            PreconfApiError::PayloadAlreadyDelivered => {
                out.append("payload already delivered");
            },
            PreconfApiError::AlreadyProcessingNewerPayload => {
                out.append("already processing newer payload");
            },
            PreconfApiError::BidBelowFloor => {
                out.append("accepted bid below floor, skipped validation");
            },
            PreconfApiError::BlockValidationError(err) => {
                out.append("block validation error: ");
                match err {
                    BlockSimError::Timeout => {
                        out.append("Timeout");
                    },
                    BlockSimError::Failed { debug, .. } => {
                        out.append(debug.as_str());
                    },
                }
            },
            PreconfApiError::InternalError => {
                out.append("internal error");
            },
            PreconfApiError::AuctioneerError(err) => {
                out.append("datastore error: ");
                out.append(err.as_str());
            },
            PreconfApiError::PrevRandaoMismatch { got, expected } => {
                out.append("incorrect prev_randao - got: ");
                out.append(got.as_str());
                out.append(", expected: ");
                out.append(expected.as_str());
            },
            PreconfApiError::DuplicateBlockHash { block_hash } => {
                out.append("block already received: ");
                out.append(block_hash.as_str());
            },
            PreconfApiError::NotEnoughOptimisticCollateral {
                builder_pub_key,
                collateral,
                collateral_required,
                ..
            } => {
                out.append("not enough optimistic collateral. builder_pub_key: ");
                out.append(builder_pub_key.as_str());
                out.append(". \n        collateral: ");
                out.append(collateral.as_str());
                out.append(", collateral required: ");
                out.append(collateral_required.as_str());
            },
            PreconfApiError::BuilderNotOptimistic { builder_pub_key } => {
                out.append("builder is not optimistic. builder_pub_key: ");
                out.append(builder_pub_key.as_str());
            },
            PreconfApiError::BuilderNotInProposersTrustedList { proposer_trusted_builders } => {
                out.append("builder not in proposer's trusted list: ");
                push_debug_list(&mut out, proposer_trusted_builders);
            },
            PreconfApiError::V2SubmissionsInvalidIfProposerRequiresRegionalFiltering => {
                out.append("V2 submissions invalid if proposer requires regional filtering");
            },
        }
        out
    }
}

/// Every error but a bid below the floor is answered with an error status,
/// and a bid below the floor is answered with `202 Accepted`.
pub proof fn lemma_only_low_bids_are_accepted(e: PreconfApiError)
    ensures
        e.spec_status().spec_code() < 400 <==> e is BidBelowFloor,
        e is BidBelowFloor ==> e.spec_status().spec_code() == 202,
{
}

/// The fault is put on the server (a `5xx` status) exactly for an internal
/// failure, a datastore failure and a block simulation that timed out;
/// every other error but a bid below the floor puts it on the client.
pub proof fn lemma_server_faults(e: PreconfApiError)
    ensures
        e.spec_status().is_server_error() <==> (e is InternalError || e is AuctioneerError
            || e == PreconfApiError::BlockValidationError(BlockSimError::Timeout)),
        e.spec_status().is_client_error() <==> !(e is InternalError || e is AuctioneerError
            || e == PreconfApiError::BlockValidationError(BlockSimError::Timeout)
            || e is BidBelowFloor),
{
}

/// Every error is answered with a body that says something.
pub proof fn lemma_body_nonempty(e: PreconfApiError)
    ensures
        e.spec_body().len() > 0,
{
    reveal_strlit(", collateral required: ");
    reveal_strlit(", expected: ");
    reveal_strlit(", payload: ");
    reveal_strlit(", size: ");
    reveal_strlit(", submission slot: ");
    reveal_strlit(". \n                    collateral: ");
    reveal_strlit(". is_optimistic: ");
    reveal_strlit("Already processing newer payload");
    reveal_strlit("Auctioneer error: ");
    reveal_strlit("Axum error: ");
    reveal_strlit("Bid below floor, skipped validation");
    reveal_strlit("Block hash mismatch. message: ");
    reveal_strlit("Block validation error: ");
    reveal_strlit("Block validation timeout");
    reveal_strlit("Builder blacklisted. pubkey: ");
    reveal_strlit("Could not find proposer duty for slot");
    reveal_strlit("Failed to decode header submission");
    reveal_strlit("Fee recipient mismatch. got: ");
    reveal_strlit("Hyper error: ");
    reveal_strlit("IO error: ");
    reveal_strlit("Incorrect timestamp. got: ");
    reveal_strlit("Internal error");
    reveal_strlit("Invalid api key");
    reveal_strlit("Parent hash mismatch. message: ");
    reveal_strlit("Payload already delivered");
    reveal_strlit("Payload too large. max size: ");
    reveal_strlit("Prev randao mismatch. got: ");
    reveal_strlit("Proposer public key mismatch. got: ");
    reveal_strlit("SSZ deserialize error: ");
    reveal_strlit("Serde decode error: ");
    reveal_strlit("Signature verification failed");
    reveal_strlit("Slot mismatch. got: ");
    reveal_strlit("Submission for past slot. current slot: ");
    reveal_strlit("V2 submissions invalid if proposer requires regional filtering");
    reveal_strlit("Withdrawals root mismatch. got: ");
    reveal_strlit("Zero value block");
    reveal_strlit("block already received: ");
    reveal_strlit("builder is not optimistic. builder_pub_key: ");
    reveal_strlit("builder not in proposer's trusted list: ");
    reveal_strlit("invalid withdrawals root");
    reveal_strlit("missing withdrawals");
    reveal_strlit("missing withdrawals root");
    reveal_strlit("not enough optimistic collateral. builder_pub_key: ");
    reveal_strlit("payload attributes not yet known");
    reveal_strlit("payload slot mismatches with current payload attributes slot. got: ");
}

} // verus!
