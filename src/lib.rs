//! Typed access to program-owned accounts and classification of the custom
//! error codes that failed transactions report.

pub mod address;
pub mod client_error;
pub mod decimal;
pub mod decode;
pub mod error_code;
pub mod filters;

pub use address::{sort_token_pair, Address, PairError};
pub use client_error::{
    ClientError, ClientErrorKind, ClientFailure, InstructionError, RpcResponseErrorData,
    TransactionError,
};
pub use decode::{collect_decoded, fixed_payload, strip_discriminator, DecodeError, TAG_LEN};
pub use error_code::{
    classify_code, describe_error, format_error_code, framework_error_from_code, ErrorDomain, ERROR_CODE_OFFSET,
};
pub use filters::{
    account_filters, FilterError, Memcmp, MemcmpEncodedBytes, MemcmpEncoding, RpcFilterType,
};
