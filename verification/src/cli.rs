//! Command-line arguments of the agent, and the address the metrics server
//! listens on.

use vstd::prelude::*;

use crate::text::{chars_of, decimal_text, push_decimal, string_from_chars};

verus! {

/// Command-line arguments for bpfagent.
pub struct BpfAgentArgs {
    /// Run in daemon mode (background, no stdout output)
    pub daemon: bool,
    /// Metrics server IP address
    pub metrics_ip: String,
    /// Metrics server port
    pub metrics_port: u16,
    /// Enable verbose output (overrides daemon mode for interactive debugging)
    pub verbose: bool,
    /// Path to config file (overrides default config file paths)
    pub config_file: Option<String>,
}

/// Default metrics server IP address.
pub fn default_metrics_ip() -> (ip: String)
    ensures
        ip@ == "0.0.0.0"@,
{
    "0.0.0.0".to_owned()
}

/// Default metrics server port.
pub const DEFAULT_METRICS_PORT: u16 = 9101;

/// The `ip:port` address the metrics server binds to.
pub fn metrics_addr(args: &BpfAgentArgs) -> (addr: String)
    ensures
        addr@ == args.metrics_ip@ + seq![':'] + decimal_text(args.metrics_port as nat),
{
    let mut text = chars_of(args.metrics_ip.as_str());
    text.push(':');
    push_decimal(&mut text, args.metrics_port as u64);
    string_from_chars(&text)
}

} // verus!
