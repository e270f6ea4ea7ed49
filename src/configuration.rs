use vstd::prelude::*;

verus! {

/// Connection settings of the cache client.
#[derive(Clone, Copy, Debug, PartialEq, Eq, Structural)]
pub struct ProtosocketClientConfiguration {
    pub timeout_millis: usize,
    pub connection_count: usize,
}

/// Builds a configuration from its two settings.
pub fn new_protosocket_client_configuration(timeout_millis: usize, connection_count: usize) -> (r:
    ProtosocketClientConfiguration)
    ensures
        r.timeout_millis == timeout_millis,
        r.connection_count == connection_count,
{
    ProtosocketClientConfiguration { timeout_millis, connection_count }
}

impl ProtosocketClientConfiguration {
    /// The request timeout in milliseconds, as the client's builder takes it.
    pub fn timeout_millis_u64(&self) -> (r: u64)
        ensures
            r == self.timeout_millis,
    {
        self.timeout_millis as u64
    }

    /// The connection count as the client's builder takes it: the setting
    /// narrowed to 32 bits, keeping its low 32 bits.
    pub fn connection_count_u32(&self) -> (r: u32)
        ensures
            r == self.connection_count as u32,
    {
        self.connection_count as u32
    }
}

/// The credential the cache client authenticates with.
#[derive(Clone)]
pub struct ProtosocketCredentialProvider {
    pub api_key: String,
}

/// Builds a credential provider holding its own copy of `api_key`.
pub fn new_protosocket_credential_provider(api_key: &str) -> (r: ProtosocketCredentialProvider)
    ensures
        r.api_key@ == api_key@,
{
    ProtosocketCredentialProvider { api_key: api_key.to_owned() }
}

impl ProtosocketCredentialProvider {
    /// A description of the provider that never shows the key.
    pub fn redacted_description(&self) -> (r: &'static str)
        ensures
            r@ == "ProtosocketCredentialProvider { api_key: \"<redacted>\" }"@,
    {
        "ProtosocketCredentialProvider { api_key: \"<redacted>\" }"
    }
}

} // verus!
