//! The argument vector handed to the launch callback: the controller's own
//! executable path, the fixed agent-mode flag, and the bound port.

use vstd::prelude::*;

use crate::numeric::decimal;
use crate::numeric::decimal_string;

verus! {

/// The fixed literal that tells the re-invoked executable to run as the
/// terminal agent.
pub open spec fn agent_mode_flag() -> Seq<char> {
    "terminal-agent"@
}

/// The port argument for a given port: `--port=` followed by the port's
/// decimal digits.
pub open spec fn port_arg(port: u16) -> Seq<char> {
    "--port="@ + decimal(port as nat)
}

/// Builds the port argument `--port=<N>`.
pub fn make_port_arg(port: u16) -> (r: String)
    ensures
        r@ == port_arg(port),
{
    let mut r = String::from_str("--port=");
    let digits = decimal_string(port);
    r.append(digits.as_str());
    r
}

/// Builds the argument vector for the terminal agent: the path of the
/// currently running executable, the agent-mode flag, and the bound port.
/// The launch callback receives exactly this vector.
pub fn agent_args(executable: &str, port: u16) -> (v: Vec<String>)
    ensures
        v@.len() == 3,
        v@[0]@ == executable@,
        v@[1]@ == agent_mode_flag(),
        v@[2]@ == port_arg(port),
{
    let mut v: Vec<String> = Vec::new();
    v.push(executable.to_owned());
    v.push(String::from_str("terminal-agent"));
    v.push(make_port_arg(port));
    v
}

} // verus!
