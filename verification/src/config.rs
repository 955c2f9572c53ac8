//! Settings that the service is started with.

use vstd::prelude::*;
use vstd::string::StringExecFns;

verus! {

/// Where the HTTP server listens and which origins may call it.
#[derive(Debug, Clone)]
pub struct ServerSettings {
    pub host: String,
    pub port: u16,
    pub allowed_origins: Vec<String>,
}

/// The authorization server that issues the bearer tokens.
#[derive(Debug, Clone)]
pub struct OauthSettings {
    pub issuer: String,
    pub audience: String,
    pub jwks_url: String,
    pub userinfo_url: String,
}

/// Where the cache store is reached.
#[derive(Debug, Clone)]
pub struct RedisSettings {
    pub host: String,
    pub port: u16,
}

/// How long a request waits for a database connection before it fails, in seconds.
pub const ACQUIRE_TIMEOUT_SECONDS: u64 = 2;

/// The character that stands for a digit below ten.
pub open spec fn digit(value: nat) -> char
    recommends
        value < 10,
{
    if value == 0 {
        '0'
    } else if value == 1 {
        '1'
    } else if value == 2 {
        '2'
    } else if value == 3 {
        '3'
    } else if value == 4 {
        '4'
    } else if value == 5 {
        '5'
    } else if value == 6 {
        '6'
    } else if value == 7 {
        '7'
    } else if value == 8 {
        '8'
    } else {
        '9'
    }
}

/// A number in decimal, without leading zeros.
pub open spec fn decimal(value: nat) -> Seq<char>
    decreases value,
{
    if value < 10 {
        seq![digit(value)]
    } else {
        decimal(value / 10) + seq![digit(value % 10)]
    }
}

fn digit_text(value: u16) -> (text: &'static str)
    requires
        value < 10,
    ensures
        text@ == seq![digit(value as nat)],
{
    proof {
        reveal_strlit("0");
        reveal_strlit("1");
        reveal_strlit("2");
        reveal_strlit("3");
        reveal_strlit("4");
        reveal_strlit("5");
        reveal_strlit("6");
        reveal_strlit("7");
        reveal_strlit("8");
        reveal_strlit("9");
    }
    if value == 0 {
        "0"
    } else if value == 1 {
        "1"
    } else if value == 2 {
        "2"
    } else if value == 3 {
        "3"
    } else if value == 4 {
        "4"
    } else if value == 5 {
        "5"
    } else if value == 6 {
        "6"
    } else if value == 7 {
        "7"
    } else if value == 8 {
        "8"
    } else {
        "9"
    }
}

fn decimal_text(value: u16) -> (text: String)
    ensures
        text@ == decimal(value as nat),
    decreases value,
{
    if value < 10 {
        digit_text(value).to_string()
    } else {
        decimal_text(value / 10).concat(digit_text(value % 10))
    }
}

/// Host and port as one address: the host, a colon, the port in decimal.
pub open spec fn host_and_port(host: Seq<char>, port: u16) -> Seq<char> {
    host + ":"@ + decimal(port as nat)
}

fn join_host_and_port(host: &str, port: u16) -> (address: String)
    ensures
        address@ == host_and_port(host@, port),
{
    host.to_string().concat(":").concat(decimal_text(port).as_str())
}

impl ServerSettings {
    /// The address that the server binds to.
    pub fn address(&self) -> (address: String)
        ensures
            address@ == host_and_port(self.host@, self.port),
    {
        join_host_and_port(self.host.as_str(), self.port)
    }
}

impl RedisSettings {
    /// The URL under which the cache store is reached.
    pub fn url(&self) -> (url: String)
        ensures
            url@ == "redis://"@ + host_and_port(self.host@, self.port),
    {
        let address = join_host_and_port(self.host.as_str(), self.port);
        "redis://".to_string().concat(address.as_str())
    }
}

/// The name of the file that holds the settings of one environment.
pub fn environment_file(environment: &str) -> (name: String)
    ensures
        name@ == environment@ + ".yml"@,
{
    environment.to_string().concat(".yml")
}

} // verus!
