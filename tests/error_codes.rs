use anchor_client_ext::{
    classify_code, describe_error, format_error_code, framework_error_from_code, ClientError, ClientErrorKind,
    ClientFailure, ErrorDomain, InstructionError, RpcResponseErrorData, TransactionError,
    ERROR_CODE_OFFSET,
};

fn preflight_failure(code: u32) -> ClientError {
    ClientError {
        failure: ClientFailure::SolanaClientError(ClientErrorKind::RpcResponseError(
            RpcResponseErrorData::SendTransactionPreflightFailure {
                err: Some(TransactionError::InstructionError(
                    0,
                    InstructionError::Custom(code),
                )),
            },
        )),
        description: "RPC response error -32002: Transaction simulation failed".to_string(),
    }
}

#[test]
fn token_code_is_token_domain() {
    assert_eq!(classify_code(5, false), ErrorDomain::Token);
    assert_eq!(format_error_code(5, None), "SPL Error: Fixed supply");
}

#[test]
fn token_range_edges() {
    assert_eq!(
        format_error_code(0, None),
        "SPL Error: Lamport balance below rent-exempt threshold"
    );
    assert_eq!(
        format_error_code(19, Some("ignored".to_string())),
        "SPL Error: Instruction does not support non-native tokens"
    );
    assert_eq!(classify_code(20, false), ErrorDomain::Unknown);
    assert_eq!(format_error_code(20, None), "Unknown code: 20");
}

#[test]
fn framework_code_is_framework_domain() {
    assert_eq!(ERROR_CODE_OFFSET, 6000);
    assert_eq!(ERROR_CODE_OFFSET, anchor_lang::error::ERROR_CODE_OFFSET);
    assert_eq!(classify_code(101, false), ErrorDomain::Framework);
    assert_eq!(
        format_error_code(101, None),
        "Anchor Error: Fallback functions are not supported"
    );
    assert_eq!(
        format_error_code(5000, None),
        "Anchor Error: The API being used is deprecated and should no longer be used"
    );
    assert_eq!(
        format_error_code(3002, None),
        "Anchor Error: 8 byte discriminator did not match what was expected"
    );
}

#[test]
fn framework_gap_falls_through() {
    assert!(framework_error_from_code(150).is_none());
    assert!(framework_error_from_code(99).is_none());
    assert!(matches!(
        framework_error_from_code(2019),
        Some(anchor_lang::error::ErrorCode::ConstraintSpace)
    ));
    assert_eq!(classify_code(150, true), ErrorDomain::Application);
    assert_eq!(format_error_code(150, None), "Unknown code: 150");
    assert_eq!(
        format_error_code(150, Some("Slippage exceeded".to_string())),
        "GFX Error: Slippage exceeded"
    );
}

#[test]
fn application_code_is_application_domain() {
    assert_eq!(classify_code(6000, true), ErrorDomain::Application);
    assert_eq!(
        format_error_code(6000, Some("Pool is paused".to_string())),
        "GFX Error: Pool is paused"
    );
}

#[test]
fn unmatched_code_is_unknown() {
    assert_eq!(classify_code(7777, false), ErrorDomain::Unknown);
    assert_eq!(format_error_code(7777, None), "Unknown code: 7777");
    assert_eq!(format_error_code(u32::MAX, None), "Unknown code: 4294967295");
    assert_eq!(format_error_code(6000, None), "Unknown code: 6000");
}

#[test]
fn every_code_gets_one_of_four_texts() {
    let mut code: u32 = 0;
    while code < 7000 {
        let text = format_error_code(code, None);
        let domain = classify_code(code, false);
        match domain {
            ErrorDomain::Token => assert!(code < 20 && text.starts_with("SPL Error: ")),
            ErrorDomain::Framework => {
                assert!((100..6000).contains(&code) && text.starts_with("Anchor Error: "))
            }
            ErrorDomain::Application => panic!("no application message was given"),
            ErrorDomain::Unknown => assert_eq!(text, format!("Unknown code: {}", code)),
        }
        code += 1;
    }
}

#[test]
fn custom_code_is_extracted() {
    let e = preflight_failure(6001);
    assert_eq!(e.code(), Some(6001));
    assert_eq!(
        e.canonicalize(Some("Invalid fee".to_string())),
        "GFX Error: Invalid fee"
    );
    assert_eq!(preflight_failure(17).canonicalize(None), "SPL Error: Account is frozen");
}

#[test]
fn transport_failure_keeps_its_description() {
    let e = ClientError {
        failure: ClientFailure::SolanaClientError(ClientErrorKind::Other),
        description: "error sending request: Connection refused (os error 111)".to_string(),
    };
    assert_eq!(e.code(), None);
    assert_eq!(
        e.canonicalize(Some("never used".to_string())),
        "error sending request: Connection refused (os error 111)"
    );
}

#[test]
fn other_shapes_carry_no_code() {
    let not_custom = ClientError {
        failure: ClientFailure::SolanaClientError(ClientErrorKind::RpcResponseError(
            RpcResponseErrorData::SendTransactionPreflightFailure {
                err: Some(TransactionError::InstructionError(1, InstructionError::Other)),
            },
        )),
        description: "instruction failed".to_string(),
    };
    assert_eq!(not_custom.code(), None);
    assert_eq!(not_custom.canonicalize(None), "instruction failed");
    let no_err = ClientError {
        failure: ClientFailure::SolanaClientError(ClientErrorKind::RpcResponseError(
            RpcResponseErrorData::SendTransactionPreflightFailure { err: None },
        )),
        description: "preflight failed".to_string(),
    };
    assert_eq!(no_err.code(), None);
    let other_tx = ClientError {
        failure: ClientFailure::SolanaClientError(ClientErrorKind::RpcResponseError(
            RpcResponseErrorData::SendTransactionPreflightFailure {
                err: Some(TransactionError::Other),
            },
        )),
        description: "blockhash not found".to_string(),
    };
    assert_eq!(other_tx.code(), None);
    let outside = ClientError {
        failure: ClientFailure::Other,
        description: "account does not exist".to_string(),
    };
    assert_eq!(outside.canonicalize(None), "account does not exist");
}

#[test]
fn description_by_domain() {
    assert_eq!(describe_error(ErrorDomain::Token, 5, "Fixed supply"), "SPL Error: Fixed supply");
    assert_eq!(
        describe_error(ErrorDomain::Framework, 100, "8 byte instruction identifier not provided"),
        "Anchor Error: 8 byte instruction identifier not provided"
    );
    assert_eq!(describe_error(ErrorDomain::Application, 6003, "Bad fee"), "GFX Error: Bad fee");
    assert_eq!(describe_error(ErrorDomain::Unknown, 0, "ignored"), "Unknown code: 0");
    assert_eq!(describe_error(ErrorDomain::Unknown, 1000000, ""), "Unknown code: 1000000");
}
