use vstd::prelude::*;

verus! {

/// Caller-supplied tunnel configuration, immutable for the tunnel's
/// lifetime: where the SSH server is, how to authenticate against it, and
/// which remote endpoint the tunnel forwards to.
#[derive(Debug, Clone)]
pub struct TunnelConfig {
    pub ssh_host: String,
    pub ssh_port: u16,
    pub ssh_username: String,
    pub auth_method: String,
    pub password: Option<String>,
    pub key_path: Option<String>,
    pub key_passphrase: Option<String>,
    pub remote_host: String,
    pub remote_port: u16,
}

/// The configuration selects password authentication.
pub open spec fn is_password_method(c: TunnelConfig) -> bool {
    c.auth_method@ == "password"@
}

/// The configuration selects public-key authentication.
pub open spec fn is_key_method(c: TunnelConfig) -> bool {
    c.auth_method@ == "key"@
}

/// A non-empty password is present.
pub open spec fn has_password(c: TunnelConfig) -> bool {
    c.password matches Some(p) && p@.len() > 0
}

/// A key file path is present.
pub open spec fn has_key_path(c: TunnelConfig) -> bool {
    c.key_path is Some
}

/// The configured method is known and its credential is populated; only such
/// configurations ever reach the network.
pub open spec fn credentials_ok(c: TunnelConfig) -> bool {
    ||| (is_password_method(c) && has_password(c))
    ||| (is_key_method(c) && has_key_path(c))
}

/// The views of an optional string, for relating copies of optional fields.
pub open spec fn opt_view(o: Option<String>) -> Option<Seq<char>> {
    match o {
        Some(s) => Some(s@),
        None => None,
    }
}

} // verus!
