use vstd::prelude::*;

verus! {

/// The failure kinds the provider reports to its host. Every failure is
/// returned synchronously as an error result; nothing is retried or swallowed.
#[derive(Clone, Copy, Debug, PartialEq, Eq, Structural)]
pub enum ProviderError {
    /// A write or query named a caller identity that holds no configured client.
    NotConfigured,
    /// The endpoint URL handed over at bind time could not be parsed.
    InvalidEndpoint,
    /// The backing store rejected or failed a command.
    Store,
    /// An inbound payload could not be decoded into the expected record shape.
    Decode,
    /// The operation name is not recognised for the calling identity.
    BadDispatch,
}

impl ProviderError {
    /// The text of each error kind, as the host sees it.
    pub open spec fn spec_message(self) -> Seq<char> {
        match self {
            ProviderError::NotConfigured => "No client for this actor. Did the host configure it?"@,
            ProviderError::InvalidEndpoint => "Failed to connect to redis: invalid endpoint URL"@,
            ProviderError::Store => "Redis stream command failed"@,
            ProviderError::Decode => "Failed to de-serialize"@,
            ProviderError::BadDispatch => "bad dispatch"@,
        }
    }

    /// A short text for the host's error report.
    pub fn message(&self) -> (r: &'static str)
        ensures
            r@ == self.spec_message(),
    {
        match self {
            ProviderError::NotConfigured => "No client for this actor. Did the host configure it?",
            ProviderError::InvalidEndpoint => "Failed to connect to redis: invalid endpoint URL",
            ProviderError::Store => "Redis stream command failed",
            ProviderError::Decode => "Failed to de-serialize",
            ProviderError::BadDispatch => "bad dispatch",
        }
    }
}

} // verus!
