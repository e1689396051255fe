//! A phantom-token authentication filter.
//!
//! The library validates an inbound bearer token against a remote
//! introspection authority and, on success, substitutes a downstream-facing
//! "phantom" credential for the caller's original token. Everything that
//! decides — request assembly, response normalisation, JWT payload decoding,
//! the ordered claim checks, the error taxonomy and its mapping to protocol
//! responses — lives here and is verified. The host runtime performs the
//! actual I/O (token extraction, the introspection POST, header edits) and
//! feeds the results back in as plain values.

use vstd::prelude::*;

pub mod codec;
pub mod config;
pub mod filter;
pub mod introspect;
pub mod jwt;
pub mod respond;
pub mod strutil;
pub mod validate;

verus! {

/// Every way the filter can refuse a request. Each variant is terminal for
/// the request being handled; nothing is retried.
#[derive(Clone, Copy, Debug, PartialEq, Eq, Structural)]
pub enum FilterError {
    /// An internal fault, such as a clock or encoding failure.
    Unexpected,
    /// No usable credential could be extracted from the request.
    NoToken,
    /// The introspection authority reported the token as not active.
    InactiveToken,
    /// The token's expiry time lies in the past.
    ExpiredToken,
    /// The token's not-before time lies in the future.
    NotYetActive,
    /// The introspection endpoint could not be reached.
    ClientError,
    /// The introspection body did not match the expected contract.
    NonParsableIntrospectionBody,
    /// A required scope is absent from the token's scope set.
    MissingScope,
    /// Reserved for malformed-token detection.
    InvalidToken,
    /// A JWT could not be decoded.
    ParseJwt,
    /// The audience claim does not match the required audience.
    WrongAud,
    /// The issuer claim does not match the required issuer.
    WrongIss,
}

} // verus!
