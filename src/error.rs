use vstd::prelude::*;

verus! {

/// Why a store could not be configured.
#[derive(Clone, Copy, Debug, PartialEq, Eq, Structural)]
pub enum ConfigurationError {
    /// No node configuration was supplied.
    NoNodes,
    /// The cluster flag is set but only one node was supplied.
    ClusterWithOneNode,
    /// The cluster flag is clear but more than one node was supplied.
    StandaloneWithManyNodes,
    /// The node address could not be parsed as a URL.
    InvalidAddress,
    /// The username could not be set on the node URL.
    InvalidUsername,
    /// The password could not be set on the node URL.
    InvalidPassword,
    /// The port could not be set on the node URL.
    InvalidPort,
}

/// Every failure this library reports.
#[derive(Clone, Copy, Debug, PartialEq, Eq, Structural)]
pub enum SessionError {
    Configuration(ConfigurationError),
    /// Pool exhaustion, network or protocol failure.
    Connection,
    /// No record is stored under the requested id.
    NotFound,
    /// Stored bytes do not have the expected shape.
    DecodeError,
    /// The bearer header holds bytes that are not visible ASCII.
    InvalidHeader,
    /// The token's signature does not match.
    InvalidSignature,
    /// The token's `exp` lies in the past.
    Expired,
    /// The token's `nbf` lies in the future.
    NotYetValid,
    /// The token's audience is not an expected one.
    AudienceMismatch,
    /// The token or its claims do not have the expected shape.
    MalformedClaims,
    /// The key material cannot be used for the requested algorithm.
    InvalidKey,
}

} // verus!
