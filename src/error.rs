use vstd::prelude::*;

verus! {

/// A configuration mistake: no retry can repair it.
#[derive(PartialEq, Eq, Structural, Clone, Copy, Debug)]
pub enum ConfigError {
    /// The connection string lacks one of its three fields.
    MalformedConnectionString,
    /// The trust-anchor file does not exist.
    MissingTrustAnchor,
    /// The shared access key is not valid base64.
    MalformedKey,
    /// The credential's expiry instant does not fit in a `u64`.
    ExpiryOutOfRange,
}

/// Restoring the inbound subscriptions failed on a fresh connection.
#[derive(PartialEq, Eq, Structural, Clone, Copy, Debug)]
pub enum SubscribeError {
    Rejected,
}

/// An inbound payload that should be text is not valid UTF-8.
#[derive(PartialEq, Eq, Structural, Clone, Copy, Debug)]
pub enum PayloadDecodeError {
    NotText,
}

/// Every error that ends the session, each surfaced to the driving loop.
#[derive(PartialEq, Eq, Structural, Clone, Copy, Debug)]
pub enum FatalError {
    Config(ConfigError),
    Subscribe(SubscribeError),
    Publish,
    PayloadDecode(PayloadDecodeError),
}

/// The process exit status for a fatal error.
pub open spec fn exit_status(e: FatalError) -> i32 {
    4
}

impl FatalError {
    /// The process exit status that reports this error: every fatal path
    /// ends the process with the same non-zero status.
    pub fn exit_code(&self) -> (r: i32)
        ensures
            r == exit_status(*self),
            r != 0,
    {
        4
    }
}

} // verus!
