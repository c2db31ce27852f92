use vstd::prelude::*;
use crate::errors::ProviderError;
use crate::messages::CapabilityConfiguration;

verus! {

/// Declares redis' Client (re-exported by redis_streams) to the verifier:
/// an opaque connection descriptor that the registry stores and the
/// host-facing shell draws connections from.
#[verifier::external_type_specification]
#[verifier::external_body]
pub struct ExClient(redis_streams::Client);

/// Whether the store accepts a connection URL: the outcome of parsing it,
/// which depends on the URL text alone.
pub uninterp spec fn url_accepted(url: Seq<char>) -> bool;

/// The client descriptor that parsing an accepted connection URL yields.
/// Opening a client performs no network work, so the result is a function
/// of the URL text alone.
pub uninterp spec fn parsed_client(url: Seq<char>) -> redis_streams::Client;

/// The configuration option that overrides the connection URL.
pub open spec fn spec_url_key() -> Seq<char> {
    "URL"@
}

/// The default local endpoint, used when no URL option is supplied.
pub open spec fn spec_default_url() -> Seq<char> {
    "redis://0.0.0.0:6379/"@
}

/// The endpoint a configuration selects: its URL option when present, the
/// default local endpoint otherwise.
pub open spec fn endpoint_url(config: CapabilityConfiguration) -> Seq<char> {
    if config.values.contains_key(spec_url_key()) {
        config.values.value_of(spec_url_key())
    } else {
        spec_default_url()
    }
}

/// Relies on redis' Client::open (re-exported by redis_streams): it parses
/// the URL without touching the network, so success and the returned
/// client descriptor depend on the URL text alone.
#[verifier::external_body]
fn open_client(url: &str) -> (r: Option<redis_streams::Client>)
    ensures
        r is Some <==> url_accepted(url@),
        r matches Some(c) ==> c == parsed_client(url@),
{
    redis_streams::Client::open(url).ok()
}

/// The endpoint URL a configuration selects, as an owned string.
pub fn endpoint_string(config: &CapabilityConfiguration) -> (r: String)
    requires
        config.values.wf(),
    ensures
        r@ == endpoint_url(*config),
{
    match config.values.get("URL") {
        Some(v) => v.clone(),
        None => "redis://0.0.0.0:6379/".to_owned(),
    }
}

/// Opens a store client for the endpoint a configuration selects. The
/// client is a descriptor only; no connection is established yet.
pub fn initialize_client(config: &CapabilityConfiguration) -> (r: Result<
    redis_streams::Client,
    ProviderError,
>)
    requires
        config.values.wf(),
    ensures
        r is Ok <==> url_accepted(endpoint_url(*config)),
        r matches Ok(c) ==> c == parsed_client(endpoint_url(*config)),
        r matches Err(e) ==> e == ProviderError::InvalidEndpoint,
{
    let url = endpoint_string(config);
    match open_client(url.as_str()) {
        Some(c) => Ok(c),
        None => Err(ProviderError::InvalidEndpoint),
    }
}

} // verus!
