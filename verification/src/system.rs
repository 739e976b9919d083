//! The environment of the running process: user, host, distribution and
//! architecture names, read once through the `whoami` crate.

use vstd::prelude::*;

verus! {

/// Relies on whoami::username: the name of the user running the process.
/// The value depends on the environment, so nothing is promised of it.
#[verifier::external_body]
fn read_username() -> (r: String) {
    whoami::username()
}

/// Relies on whoami::hostname: the machine's hostname, lowercased; a
/// fallback name when none can be read. Environment-dependent, so nothing
/// is promised of it.
#[verifier::external_body]
#[allow(deprecated)]
fn read_hostname() -> (r: String) {
    whoami::hostname()
}

/// Relies on whoami::distro: the operating-system distribution label.
/// Environment-dependent, so nothing is promised of it.
#[verifier::external_body]
fn read_distro() -> (r: String) {
    whoami::distro()
}

/// Relies on whoami::arch: the name of the machine's architecture.
/// Machine-dependent, so nothing is promised of it.
#[verifier::external_body]
fn read_arch() -> (r: String) {
    whoami::arch().to_string()
}

/// A one-time snapshot of the process environment. Fact resolution and the
/// banner are pure functions of this value.
pub struct EnvInfo {
    /// The name of the user running the process.
    pub username: String,
    /// The machine's hostname.
    pub hostname: String,
    /// The operating-system distribution label.
    pub distro: String,
    /// The machine architecture's name.
    pub arch: String,
}

impl EnvInfo {
    /// Queries the environment once. The values are whatever the machine
    /// reports; every later step is a function of them.
    pub fn read() -> (r: EnvInfo) {
        EnvInfo {
            username: read_username(),
            hostname: read_hostname(),
            distro: read_distro(),
            arch: read_arch(),
        }
    }
}

/// The three banner parts: the displayed user (the configured stand-in when
/// non-empty, otherwise the real one), the hostname symbol, and the host.
pub fn userhost(env: &EnvInfo, hostname_symbol: &String, fake_user: &String) -> (r: (
    String,
    String,
    String,
))
    ensures
        r.0@ == if fake_user@.len() == 0 {
            env.username@
        } else {
            fake_user@
        },
        r.1@ == hostname_symbol@,
        r.2@ == env.hostname@,
{
    let user = if fake_user.as_str().is_empty() {
        env.username.clone()
    } else {
        fake_user.clone()
    };
    (user, hostname_symbol.clone(), env.hostname.clone())
}

} // verus!
