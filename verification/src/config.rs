//! Startup configuration: the first admin account and the address to serve
//! on.

use vstd::prelude::*;
use vstd::string::StringExecFns;
use crate::types::Username;

verus! {

/// Everything the program is configured with at startup.
pub struct Config {
    pub admin: Admin,
    pub server: Server,
}

/// The admin account that is created at startup.
pub struct Admin {
    pub username: Username,
    pub password: String,
}

/// Where the server listens.
pub struct Server {
    pub address: String,
    pub port: u16,
}

/// The decimal digit for a number below ten.
pub open spec fn digit(d: nat) -> char {
    if d == 0 {
        '0'
    } else if d == 1 {
        '1'
    } else if d == 2 {
        '2'
    } else if d == 3 {
        '3'
    } else if d == 4 {
        '4'
    } else if d == 5 {
        '5'
    } else if d == 6 {
        '6'
    } else if d == 7 {
        '7'
    } else if d == 8 {
        '8'
    } else {
        '9'
    }
}

/// The decimal numeral of a number, without leading zeros.
pub open spec fn decimal(n: nat) -> Seq<char>
    decreases n,
{
    if n < 10 {
        seq![digit(n)]
    } else {
        decimal(n / 10).push(digit(n % 10))
    }
}

/// The socket address made of a host and a port: host, colon, port in
/// decimal.
pub open spec fn socket_addr_text(address: Seq<char>, port: u16) -> Seq<char> {
    address + seq![':'] + decimal(port as nat)
}

/// The one-character string of a decimal digit.
fn digit_str(d: u16) -> (s: &'static str)
    requires
        d < 10,
    ensures
        s@ == seq![digit(d as nat)],
{
    proof {
        reveal_strlit("0");
        reveal_strlit("1");
        reveal_strlit("2");
        reveal_strlit("3");
        reveal_strlit("4");
        reveal_strlit("5");
        reveal_strlit("6");
        reveal_strlit("7");
        reveal_strlit("8");
        reveal_strlit("9");
    }
    let s = if d == 0 {
        "0"
    } else if d == 1 {
        "1"
    } else if d == 2 {
        "2"
    } else if d == 3 {
        "3"
    } else if d == 4 {
        "4"
    } else if d == 5 {
        "5"
    } else if d == 6 {
        "6"
    } else if d == 7 {
        "7"
    } else if d == 8 {
        "8"
    } else {
        "9"
    };
    assert(s@ =~= seq![digit(d as nat)]);
    s
}

/// Writes a port number in decimal.
pub fn port_text(port: u16) -> (text: String)
    ensures
        text@ == decimal(port as nat),
    decreases port,
{
    if port < 10 {
        digit_str(port).to_owned()
    } else {
        let text = port_text(port / 10).concat(digit_str(port % 10));
        assert(text@ =~= decimal(port as nat));
        text
    }
}

/// The address that a server listens on unless configured otherwise: every
/// interface.
pub fn default_address() -> (address: String)
    ensures
        address@ == "0.0.0.0"@,
{
    "0.0.0.0".to_owned()
}

/// The port that a server listens on unless configured otherwise.
pub fn default_port() -> (port: u16)
    ensures
        port == 8000,
{
    8000
}

impl Default for Server {
    fn default() -> (server: Self)
        ensures
            server.address@ == "0.0.0.0"@,
            server.port == 8000,
    {
        Server { address: default_address(), port: default_port() }
    }
}

impl Server {
    /// The full socket address, such as `0.0.0.0:8000`.
    pub fn socket_addr(&self) -> (addr: String)
        ensures
            addr@ == socket_addr_text(self.address@, self.port),
    {
        proof {
            reveal_strlit(":");
        }
        let addr = self.address.clone().concat(":").concat(port_text(self.port).as_str());
        assert(addr@ =~= socket_addr_text(self.address@, self.port));
        addr
    }
}

} // verus!
