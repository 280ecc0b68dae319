use crate::decimal::{decimal_text, push_decimal};
use anchor_lang::error::ErrorCode;
use spl_token::error::TokenError;
use vstd::prelude::*;

verus! {

/// spl_token's `TokenError`: a fieldless enum, one variant per error of the
/// token program.
#[verifier::external_type_specification]
pub struct ExTokenError(TokenError);

/// anchor_lang's `ErrorCode`: a fieldless enum, one variant per error of the
/// framework itself.
#[verifier::external_type_specification]
pub struct ExErrorCode(ErrorCode);

/// The first code that the framework leaves to programs built on it.
pub const ERROR_CODE_OFFSET: u32 = 6000;

/// End of the range of codes that the token program's errors take.
pub const TOKEN_ERROR_END: u32 = 20;

/// Start of the range of codes that the framework's own errors take.
pub const FRAMEWORK_ERROR_START: u32 = 100;

/// The token program's error that `code` names, if any.
pub open spec fn token_error_variant(code: u32) -> Option<TokenError> {
    match code {
        0 => Some(TokenError::NotRentExempt),
        1 => Some(TokenError::InsufficientFunds),
        2 => Some(TokenError::InvalidMint),
        3 => Some(TokenError::MintMismatch),
        4 => Some(TokenError::OwnerMismatch),
        5 => Some(TokenError::FixedSupply),
        6 => Some(TokenError::AlreadyInUse),
        7 => Some(TokenError::InvalidNumberOfProvidedSigners),
        8 => Some(TokenError::InvalidNumberOfRequiredSigners),
        9 => Some(TokenError::UninitializedState),
        10 => Some(TokenError::NativeNotSupported),
        11 => Some(TokenError::NonNativeHasBalance),
        12 => Some(TokenError::InvalidInstruction),
        13 => Some(TokenError::InvalidState),
        14 => Some(TokenError::Overflow),
        15 => Some(TokenError::AuthorityTypeNotSupported),
        16 => Some(TokenError::MintCannotFreeze),
        17 => Some(TokenError::AccountFrozen),
        18 => Some(TokenError::MintDecimalsMismatch),
        19 => Some(TokenError::NonNativeNotSupported),
        _ => None,
    }
}

/// The framework's error that `code` names, if any.
pub open spec fn framework_error_variant(code: u32) -> Option<ErrorCode> {
    match code {
        100 => Some(ErrorCode::InstructionMissing),
        101 => Some(ErrorCode::InstructionFallbackNotFound),
        102 => Some(ErrorCode::InstructionDidNotDeserialize),
        103 => Some(ErrorCode::InstructionDidNotSerialize),
        1000 => Some(ErrorCode::IdlInstructionStub),
        1001 => Some(ErrorCode::IdlInstructionInvalidProgram),
        2000 => Some(ErrorCode::ConstraintMut),
        2001 => Some(ErrorCode::ConstraintHasOne),
        2002 => Some(ErrorCode::ConstraintSigner),
        2003 => Some(ErrorCode::ConstraintRaw),
        2004 => Some(ErrorCode::ConstraintOwner),
        2005 => Some(ErrorCode::ConstraintRentExempt),
        2006 => Some(ErrorCode::ConstraintSeeds),
        2007 => Some(ErrorCode::ConstraintExecutable),
        2008 => Some(ErrorCode::ConstraintState),
        2009 => Some(ErrorCode::ConstraintAssociated),
        2010 => Some(ErrorCode::ConstraintAssociatedInit),
        2011 => Some(ErrorCode::ConstraintClose),
        2012 => Some(ErrorCode::ConstraintAddress),
        2013 => Some(ErrorCode::ConstraintZero),
        2014 => Some(ErrorCode::ConstraintTokenMint),
        2015 => Some(ErrorCode::ConstraintTokenOwner),
        2016 => Some(ErrorCode::ConstraintMintMintAuthority),
        2017 => Some(ErrorCode::ConstraintMintFreezeAuthority),
        2018 => Some(ErrorCode::ConstraintMintDecimals),
        2019 => Some(ErrorCode::ConstraintSpace),
        2500 => Some(ErrorCode::RequireViolated),
        2501 => Some(ErrorCode::RequireEqViolated),
        2502 => Some(ErrorCode::RequireKeysEqViolated),
        2503 => Some(ErrorCode::RequireNeqViolated),
        2504 => Some(ErrorCode::RequireKeysNeqViolated),
        2505 => Some(ErrorCode::RequireGtViolated),
        2506 => Some(ErrorCode::RequireGteViolated),
        3000 => Some(ErrorCode::AccountDiscriminatorAlreadySet),
        3001 => Some(ErrorCode::AccountDiscriminatorNotFound),
        3002 => Some(ErrorCode::AccountDiscriminatorMismatch),
        3003 => Some(ErrorCode::AccountDidNotDeserialize),
        3004 => Some(ErrorCode::AccountDidNotSerialize),
        3005 => Some(ErrorCode::AccountNotEnoughKeys),
        3006 => Some(ErrorCode::AccountNotMutable),
        3007 => Some(ErrorCode::AccountOwnedByWrongProgram),
        3008 => Some(ErrorCode::InvalidProgramId),
        3009 => Some(ErrorCode::InvalidProgramExecutable),
        3010 => Some(ErrorCode::AccountNotSigner),
        3011 => Some(ErrorCode::AccountNotSystemOwned),
        3012 => Some(ErrorCode::AccountNotInitialized),
        3013 => Some(ErrorCode::AccountNotProgramData),
        3014 => Some(ErrorCode::AccountNotAssociatedTokenAccount),
        3015 => Some(ErrorCode::AccountSysvarMismatch),
        4000 => Some(ErrorCode::StateInvalidAddress),
        4100 => Some(ErrorCode::DeclaredProgramIdMismatch),
        5000 => Some(ErrorCode::Deprecated),
        _ => None,
    }
}

/// The message of the token program's error with code `code`.
pub uninterp spec fn token_error_text(code: u32) -> Seq<char>;

/// The message of the framework's error with code `code`.
pub uninterp spec fn framework_error_text(code: u32) -> Seq<char>;

/// Relies on `FromPrimitive::from_u32` as `num_derive` writes it for
/// `TokenError`: the variant whose discriminant is `code`, if one is.
#[verifier::external_body]
fn token_error_from_code(code: u32) -> (r: Option<TokenError>)
    ensures
        r == token_error_variant(code),
{
    <TokenError as num_traits::FromPrimitive>::from_u32(code)
}

/// Relies on the `Display` impl that `thiserror` writes for `TokenError`:
/// each variant's `#[error]` message.
#[verifier::external_body]
fn token_error_message(e: &TokenError) -> (r: String)
    ensures
        forall|c: u32| token_error_variant(c) == Some(*e) ==> r@ == token_error_text(c),
{
    e.to_string()
}

/// Relies on the `Display` impl that anchor's `error_code` attribute writes
/// for `ErrorCode`: each variant's `#[msg]` message.
#[verifier::external_body]
fn framework_error_message(e: &ErrorCode) -> (r: String)
    ensures
        forall|c: u32| framework_error_variant(c) == Some(*e) ==> r@ == framework_error_text(c),
{
    e.to_string()
}

/// The framework's error that `code` names, if any: a checked conversion
/// that refuses the codes between and after the framework's own.
pub fn framework_error_from_code(code: u32) -> (r: Option<ErrorCode>)
    ensures
        r == framework_error_variant(code),
{
    match code {
        100 => Some(ErrorCode::InstructionMissing),
        101 => Some(ErrorCode::InstructionFallbackNotFound),
        102 => Some(ErrorCode::InstructionDidNotDeserialize),
        103 => Some(ErrorCode::InstructionDidNotSerialize),
        1000 => Some(ErrorCode::IdlInstructionStub),
        1001 => Some(ErrorCode::IdlInstructionInvalidProgram),
        2000 => Some(ErrorCode::ConstraintMut),
        2001 => Some(ErrorCode::ConstraintHasOne),
        2002 => Some(ErrorCode::ConstraintSigner),
        2003 => Some(ErrorCode::ConstraintRaw),
        2004 => Some(ErrorCode::ConstraintOwner),
        2005 => Some(ErrorCode::ConstraintRentExempt),
        2006 => Some(ErrorCode::ConstraintSeeds),
        2007 => Some(ErrorCode::ConstraintExecutable),
        2008 => Some(ErrorCode::ConstraintState),
        2009 => Some(ErrorCode::ConstraintAssociated),
        2010 => Some(ErrorCode::ConstraintAssociatedInit),
        2011 => Some(ErrorCode::ConstraintClose),
        2012 => Some(ErrorCode::ConstraintAddress),
        2013 => Some(ErrorCode::ConstraintZero),
        2014 => Some(ErrorCode::ConstraintTokenMint),
        2015 => Some(ErrorCode::ConstraintTokenOwner),
        2016 => Some(ErrorCode::ConstraintMintMintAuthority),
        2017 => Some(ErrorCode::ConstraintMintFreezeAuthority),
        2018 => Some(ErrorCode::ConstraintMintDecimals),
        2019 => Some(ErrorCode::ConstraintSpace),
        2500 => Some(ErrorCode::RequireViolated),
        2501 => Some(ErrorCode::RequireEqViolated),
        2502 => Some(ErrorCode::RequireKeysEqViolated),
        2503 => Some(ErrorCode::RequireNeqViolated),
        2504 => Some(ErrorCode::RequireKeysNeqViolated),
        2505 => Some(ErrorCode::RequireGtViolated),
        2506 => Some(ErrorCode::RequireGteViolated),
        3000 => Some(ErrorCode::AccountDiscriminatorAlreadySet),
        3001 => Some(ErrorCode::AccountDiscriminatorNotFound),
        3002 => Some(ErrorCode::AccountDiscriminatorMismatch),
        3003 => Some(ErrorCode::AccountDidNotDeserialize),
        3004 => Some(ErrorCode::AccountDidNotSerialize),
        3005 => Some(ErrorCode::AccountNotEnoughKeys),
        3006 => Some(ErrorCode::AccountNotMutable),
        3007 => Some(ErrorCode::AccountOwnedByWrongProgram),
        3008 => Some(ErrorCode::InvalidProgramId),
        3009 => Some(ErrorCode::InvalidProgramExecutable),
        3010 => Some(ErrorCode::AccountNotSigner),
        3011 => Some(ErrorCode::AccountNotSystemOwned),
        3012 => Some(ErrorCode::AccountNotInitialized),
        3013 => Some(ErrorCode::AccountNotProgramData),
        3014 => Some(ErrorCode::AccountNotAssociatedTokenAccount),
        3015 => Some(ErrorCode::AccountSysvarMismatch),
        4000 => Some(ErrorCode::StateInvalidAddress),
        4100 => Some(ErrorCode::DeclaredProgramIdMismatch),
        5000 => Some(ErrorCode::Deprecated),
        _ => None,
    }
}

/// The domain that a custom error code is classified under.
#[derive(Clone, Copy, Debug, PartialEq, Eq, Structural)]
pub enum ErrorDomain {
    /// One of the token program's errors.
    Token,
    /// One of the framework's own errors.
    Framework,
    /// An error of the calling application.
    Application,
    /// A code that none of the above names.
    Unknown,
}

/// The ranges in order, first match wins: the token program's codes below 20,
/// then the framework's codes from 100 up to the offset, then the calling
/// application where it knows the code. A code in a range that names no
/// error there falls through to the next step.
pub open spec fn classify_spec(code: u32, application_knows: bool) -> ErrorDomain {
    if code < TOKEN_ERROR_END && token_error_variant(code) is Some {
        ErrorDomain::Token
    } else if FRAMEWORK_ERROR_START <= code < ERROR_CODE_OFFSET && framework_error_variant(
        code,
    ) is Some {
        ErrorDomain::Framework
    } else if application_knows {
        ErrorDomain::Application
    } else {
        ErrorDomain::Unknown
    }
}

/// The description of `code` in `domain`, given the message that the domain
/// has for it; an unknown code is described by its decimal digits.
pub open spec fn domain_text(domain: ErrorDomain, code: u32, message: Seq<char>) -> Seq<char> {
    match domain {
        ErrorDomain::Token => "SPL Error: "@ + message,
        ErrorDomain::Framework => "Anchor Error: "@ + message,
        ErrorDomain::Application => "GFX Error: "@ + message,
        ErrorDomain::Unknown => "Unknown code: "@ + decimal_text(code as nat),
    }
}

/// The text that describes `code`, given the calling application's message
/// for it, if it has one.
pub open spec fn error_code_text(code: u32, application: Option<Seq<char>>) -> Seq<char> {
    let domain = classify_spec(code, application is Some);
    match domain {
        ErrorDomain::Token => domain_text(domain, code, token_error_text(code)),
        ErrorDomain::Framework => domain_text(domain, code, framework_error_text(code)),
        ErrorDomain::Application => domain_text(domain, code, application->Some_0),
        ErrorDomain::Unknown => domain_text(domain, code, Seq::empty()),
    }
}

/// The text of an optional message.
pub open spec fn text_of(s: Option<String>) -> Option<Seq<char>> {
    match s {
        Some(t) => Some(t@),
        None => None,
    }
}

/// Classifies a custom error code; `application_knows` says whether the
/// calling application has an error with this code.
pub fn classify_code(code: u32, application_knows: bool) -> (r: ErrorDomain)
    ensures
        r == classify_spec(code, application_knows),
{
    if code < TOKEN_ERROR_END && token_error_from_code(code).is_some() {
        ErrorDomain::Token
    } else if FRAMEWORK_ERROR_START <= code && code < ERROR_CODE_OFFSET
        && framework_error_from_code(code).is_some() {
        ErrorDomain::Framework
    } else if application_knows {
        ErrorDomain::Application
    } else {
        ErrorDomain::Unknown
    }
}

/// Writes the description of `code` in `domain`, given the message that the
/// domain has for it (unused for an unknown code).
pub fn describe_error(domain: ErrorDomain, code: u32, message: &str) -> (r: String)
    ensures
        r@ == domain_text(domain, code, message@),
{
    match domain {
        ErrorDomain::Token => String::from_str("SPL Error: ").concat(message),
        ErrorDomain::Framework => String::from_str("Anchor Error: ").concat(message),
        ErrorDomain::Application => String::from_str("GFX Error: ").concat(message),
        ErrorDomain::Unknown => {
            let mut s = String::from_str("Unknown code: ");
            push_decimal(&mut s, code);
            s
        },
    }
}

/// Describes a custom error code. `application` is the calling application's
/// message for the code, where it has an error with that code.
pub fn format_error_code(code: u32, application: Option<String>) -> (r: String)
    ensures
        r@ == error_code_text(code, text_of(application)),
{
    if code < TOKEN_ERROR_END {
        if let Some(e) = token_error_from_code(code) {
            let message = token_error_message(&e);
            return describe_error(ErrorDomain::Token, code, message.as_str());
        }
    }
    if FRAMEWORK_ERROR_START <= code && code < ERROR_CODE_OFFSET {
        if let Some(e) = framework_error_from_code(code) {
            let message = framework_error_message(&e);
            return describe_error(ErrorDomain::Framework, code, message.as_str());
        }
    }
    match application {
        Some(message) => describe_error(ErrorDomain::Application, code, message.as_str()),
        None => describe_error(ErrorDomain::Unknown, code, ""),
    }
}

/// Classification is total: every code lands in exactly one domain. The token
/// domain takes exactly the codes below 20, the framework domain only codes
/// from 100 below the offset, the application domain only codes that neither
/// takes and the application knows; the rest are unknown. The text names the
/// domain it belongs to.
pub proof fn lemma_classification_total(code: u32, application: Option<Seq<char>>)
    ensures
        classify_spec(code, application is Some) == ErrorDomain::Token <==> code < TOKEN_ERROR_END,
        classify_spec(code, application is Some) == ErrorDomain::Framework ==> FRAMEWORK_ERROR_START
            <= code < ERROR_CODE_OFFSET,
        classify_spec(code, application is Some) == ErrorDomain::Application ==> application is Some,
        classify_spec(code, application is Some) == ErrorDomain::Unknown ==> application is None,
        error_code_text(code, application) == "SPL Error: "@ + token_error_text(code)
            || error_code_text(code, application) == "Anchor Error: "@ + framework_error_text(code)
            || error_code_text(code, application) == "GFX Error: "@ + application->Some_0
            || error_code_text(code, application) == "Unknown code: "@ + decimal_text(code as nat),
{
    if code < TOKEN_ERROR_END {
        assert(token_error_variant(code) is Some);
    }
}

} // verus!
