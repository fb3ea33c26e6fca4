use vstd::prelude::*;

verus! {

/// What the environment holds for the collector's address.
pub enum MetricsVar {
    /// The variable is not set.
    Unset,
    /// The variable is set to this text.
    Text(String),
    /// The variable is set to a value that is not valid text.
    NotText,
}

/// A configuration error: fatal, found before any plugin starts.
#[derive(PartialEq, Eq, Structural, Clone, Copy, Debug)]
pub enum ConfigError {
    /// The collector's address is set but is not valid text.
    AddressNotText,
}

/// The name of the environment variable that holds the collector's address.
pub open spec fn address_var_spec() -> Seq<char> {
    "METRICS"@
}

/// The collector's address when none is configured.
pub open spec fn default_address_spec() -> Seq<char> {
    "tcp://127.0.0.1:1337"@
}

/// The address the sink connects to, for what the environment holds.
pub open spec fn sink_address_spec(var: MetricsVar) -> Result<Seq<char>, ConfigError> {
    match var {
        MetricsVar::Unset => Ok(default_address_spec()),
        MetricsVar::Text(s) => Ok(s@),
        MetricsVar::NotText => Err(ConfigError::AddressNotText),
    }
}

/// The name of the environment variable that holds the collector's address.
pub fn address_var() -> (r: String)
    ensures
        r@ == address_var_spec(),
{
    "METRICS".to_owned()
}

/// The collector's address when none is configured.
pub fn default_address() -> (r: String)
    ensures
        r@ == default_address_spec(),
{
    "tcp://127.0.0.1:1337".to_owned()
}

/// The address the sink connects to: the configured text as it is, the default
/// when nothing is configured, an error when the value is not text.
pub fn sink_address(var: MetricsVar) -> (r: Result<String, ConfigError>)
    ensures
        match (r, sink_address_spec(var)) {
            (Ok(a), Ok(b)) => a@ == b,
            (Err(e), Err(f)) => e == f,
            _ => false,
        },
{
    match var {
        MetricsVar::Unset => Ok(default_address()),
        MetricsVar::Text(s) => Ok(s),
        MetricsVar::NotText => Err(ConfigError::AddressNotText),
    }
}

} // verus!
