use preconf_api::error::{BlockSimError, PreconfApiError};
use preconf_api::status::ResponseStatus;

fn samples() -> Vec<PreconfApiError> {
    vec![
        PreconfApiError::HyperError("h".to_string()),
        PreconfApiError::BidBelowFloor,
        PreconfApiError::InvalidApiKey,
        PreconfApiError::InternalError,
        PreconfApiError::AuctioneerError("a".to_string()),
        PreconfApiError::BlockValidationError(BlockSimError::Timeout),
        PreconfApiError::BlockValidationError(BlockSimError::Failed { message: "m".to_string(), debug: "d".to_string() }),
        PreconfApiError::ZeroValueBlock,
        PreconfApiError::BuilderNotInProposersTrustedList { proposer_trusted_builders: vec![] },
    ]
}

#[test]
fn only_a_low_bid_is_accepted() {
    for e in samples() {
        let low = matches!(e, PreconfApiError::BidBelowFloor);
        let code = e.into_response().status.code();
        assert_eq!(code < 400, low);
    }
}

#[test]
fn server_faults_are_internal_datastore_and_timeout() {
    for e in samples() {
        let server = matches!(
            e,
            PreconfApiError::InternalError
                | PreconfApiError::AuctioneerError(_)
                | PreconfApiError::BlockValidationError(BlockSimError::Timeout)
        );
        let status = e.into_response().status;
        assert_eq!(status.code() >= 500, server);
        assert_eq!(
            status == ResponseStatus::InternalServerError || status == ResponseStatus::GatewayTimeout,
            server
        );
    }
}

#[test]
fn every_body_says_something() {
    for e in samples() {
        assert!(!e.into_response().body.is_empty());
    }
}

#[test]
fn decimal_reads_back() {
    for n in [0u64, 7, 10, 305, 999999, u64::MAX] {
        let mut out = String::new();
        preconf_api::text::push_decimal(&mut out, n);
        assert!(out.chars().all(|c| c.is_ascii_digit()));
        assert!(n == 0 || !out.starts_with('0'));
        assert_eq!(out.parse::<u64>().unwrap(), n);
    }
}
