use vstd::prelude::*;

use tendermint_rpc::Url;

verus! {

#[verifier::external_type_specification]
#[verifier::external_body]
pub struct ExRpcUrl(tendermint_rpc::Url);

#[verifier::external_type_specification]
#[verifier::external_body]
pub struct ExRpcError(tendermint_rpc::Error);

/// Whether the RPC client accepts a text as the address of a node.
pub uninterp spec fn rpc_url_accepts(s: Seq<char>) -> bool;

/// Relies on tendermint_rpc::Url::from_str: it parses the text as a URL with a
/// host, a known port and one of the client's schemes, and whether it
/// succeeds depends on the text alone.
#[verifier::external_body]
fn parse_rpc_url(s: &str) -> (r: Result<Url, tendermint_rpc::Error>)
    ensures
        r is Ok <==> rpc_url_accepts(s@),
{
    <Url as std::str::FromStr>::from_str(s)
}

/// Why the upstream node cannot be configured.
#[derive(Clone, Debug, PartialEq, Eq)]
pub enum ConfigError {
    /// No address of the upstream node was given.
    MissingRpc,
    /// The address given is not one the client accepts.
    InvalidRpc { value: String },
}

/// Decides the configuration from the setting and, where it was parsed, the
/// outcome of parsing it.
pub fn endpoint_from_parse(value: String, parsed: Result<Url, tendermint_rpc::Error>) -> (r: Result<
    Url,
    ConfigError,
>)
    ensures
        parsed is Ok <==> r is Ok,
        parsed is Ok ==> r == Ok::<Url, ConfigError>(parsed->Ok_0),
        r matches Err(ConfigError::InvalidRpc { value: v }) ==> v@ == value@,
        !(r matches Err(ConfigError::MissingRpc)),
{
    match parsed {
        Ok(u) => Ok(u),
        Err(_) => Err(ConfigError::InvalidRpc { value }),
    }
}

/// The upstream node's address from its setting: missing when there is no
/// setting, invalid when the client does not accept it.
pub fn rpc_endpoint(setting: Option<String>) -> (r: Result<Url, ConfigError>)
    ensures
        setting is None ==> r == Err::<Url, ConfigError>(ConfigError::MissingRpc),
        setting is Some ==> (r is Ok <==> rpc_url_accepts(setting->Some_0@)),
        setting is Some ==> (r matches Err(ConfigError::InvalidRpc { value: v })
            ==> v@ == setting->Some_0@),
        setting is Some ==> !(r matches Err(ConfigError::MissingRpc)),
{
    match setting {
        None => Err(ConfigError::MissingRpc),
        Some(s) => {
            let parsed = parse_rpc_url(s.as_str());
            endpoint_from_parse(s, parsed)
        },
    }
}

} // verus!
