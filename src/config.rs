//! Process configuration: deployment environment, port and archive credentials.

use vstd::prelude::*;

verus! {

/// The deployment environment the service runs in.
#[derive(Clone, Copy, Debug, PartialEq, Eq, Structural)]
pub enum Environment {
    Production,
    Development,
}

/// Verbosity of the process log.
#[derive(Clone, Copy, Debug, PartialEq, Eq, Structural)]
pub enum LogLevel {
    Info,
    Debug,
}

/// Settings read once at process start.
#[derive(Clone, Debug)]
pub struct Configuration {
    pub env: Environment,
    pub port: u16,
    pub cf_access_key_id: String,
    pub cf_secret_access_key: String,
    pub cf_account_id: String,
    pub cf_bucket_name: String,
}

/// The port used when none is configured.
pub const DEFAULT_PORT: u16 = 8080;

/// Port used when the configuration names none.
pub fn default_port() -> (r: u16)
    ensures
        r == DEFAULT_PORT,
{
    DEFAULT_PORT
}

/// Environment used when the configuration names none.
pub fn default_env() -> (r: Environment)
    ensures
        r == Environment::Development,
{
    Environment::Development
}

/// The address the service binds to in each environment: every interface in
/// production, loopback only in development.
pub open spec fn bind_address(env: Environment) -> Seq<u8> {
    match env {
        Environment::Production => seq![0u8, 0u8, 0u8, 0u8],
        Environment::Development => seq![127u8, 0u8, 0u8, 1u8],
    }
}

impl Configuration {
    /// IPv4 address octets to listen on.
    pub fn socket_addr(&self) -> (r: [u8; 4])
        ensures
            r@ == bind_address(self.env),
    {
        match self.env {
            Environment::Production => {
                let socket: [u8; 4] = [0, 0, 0, 0];
                assert(socket@ =~= bind_address(self.env));
                socket
            },
            Environment::Development => {
                let socket: [u8; 4] = [127, 0, 0, 1];
                assert(socket@ =~= bind_address(self.env));
                socket
            },
        }
    }

    /// Log verbosity: informational in production, debug in development.
    pub fn log_level(&self) -> (r: LogLevel)
        ensures
            r == (match self.env {
                Environment::Production => LogLevel::Info,
                Environment::Development => LogLevel::Debug,
            }),
    {
        match self.env {
            Environment::Production => LogLevel::Info,
            Environment::Development => LogLevel::Debug,
        }
    }
}

} // verus!
