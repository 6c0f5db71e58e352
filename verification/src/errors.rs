use vstd::prelude::*;
use vstd::string::StringExecFns;

verus! {

/// A tunnel operation error: a stable machine-readable code together with a
/// human-readable message.
///
/// The codes form the error taxonomy of the tunnel system:
/// `TIMEOUT` and `CONNECTION_ERROR` for connection establishment,
/// `AUTH_ERROR` for a malformed local credential or an unknown method,
/// `AUTH_FAILED` for credentials the server rejected,
/// `KEY_NOT_FOUND` and `KEY_LOAD_ERROR` for private-key problems,
/// `BIND_ERROR` for local port allocation, and `TUNNEL_NOT_FOUND` for an
/// unknown tunnel identifier.
#[derive(Debug)]
pub struct TunnelError {
    pub message: String,
    pub code: String,
}

impl TunnelError {
    /// Renders the error as `"<code>: <message>"`.
    pub fn display_string(&self) -> (r: String)
        ensures
            r@ == self.code@ + ": "@ + self.message@,
    {
        let mut s = self.code.clone();
        s.append(": ");
        s.append(self.message.as_str());
        s
    }

    /// The SSH connection did not complete within the deadline.
    pub fn timeout() -> (e: TunnelError)
        ensures
            e.code@ == "TIMEOUT"@,
            e.message@ == "Connection timed out"@,
    {
        TunnelError {
            message: "Connection timed out".to_owned(),
            code: "TIMEOUT".to_owned(),
        }
    }

    /// The SSH server refused the connection or was unreachable.
    pub fn connection_error(detail: &str) -> (e: TunnelError)
        ensures
            e.code@ == "CONNECTION_ERROR"@,
            e.message@ == "Failed to connect to SSH server: "@ + detail@,
    {
        let mut m = "Failed to connect to SSH server: ".to_owned();
        m.append(detail);
        TunnelError { message: m, code: "CONNECTION_ERROR".to_owned() }
    }

    /// Password authentication was requested without a usable password.
    pub fn missing_password() -> (e: TunnelError)
        ensures
            e.code@ == "AUTH_ERROR"@,
            e.message@ == "Password required for password authentication"@,
    {
        TunnelError {
            message: "Password required for password authentication".to_owned(),
            code: "AUTH_ERROR".to_owned(),
        }
    }

    /// Key authentication was requested without a key file path.
    pub fn missing_key_path() -> (e: TunnelError)
        ensures
            e.code@ == "AUTH_ERROR"@,
            e.message@ == "Key path required for key authentication"@,
    {
        TunnelError {
            message: "Key path required for key authentication".to_owned(),
            code: "AUTH_ERROR".to_owned(),
        }
    }

    /// The configured authentication method is neither `password` nor `key`.
    pub fn invalid_auth_method(method: &str) -> (e: TunnelError)
        ensures
            e.code@ == "INVALID_AUTH_METHOD"@,
            e.message@ == "Unknown auth method: "@ + method@,
    {
        let mut m = "Unknown auth method: ".to_owned();
        m.append(method);
        TunnelError { message: m, code: "INVALID_AUTH_METHOD".to_owned() }
    }

    /// The private key file does not exist.
    pub fn key_not_found(key_path: &str) -> (e: TunnelError)
        ensures
            e.code@ == "KEY_NOT_FOUND"@,
            e.message@ == "SSH key file not found: "@ + key_path@,
    {
        let mut m = "SSH key file not found: ".to_owned();
        m.append(key_path);
        TunnelError { message: m, code: "KEY_NOT_FOUND".to_owned() }
    }

    /// The private key file exists but could not be parsed or decrypted.
    pub fn key_load_error(detail: &str) -> (e: TunnelError)
        ensures
            e.code@ == "KEY_LOAD_ERROR"@,
            e.message@ == "Failed to load SSH key: "@ + detail@,
    {
        let mut m = "Failed to load SSH key: ".to_owned();
        m.append(detail);
        TunnelError { message: m, code: "KEY_LOAD_ERROR".to_owned() }
    }

    /// The server rejected the submitted credentials.
    pub fn auth_rejected() -> (e: TunnelError)
        ensures
            e.code@ == "AUTH_FAILED"@,
            e.message@ == "Authentication failed"@,
    {
        TunnelError {
            message: "Authentication failed".to_owned(),
            code: "AUTH_FAILED".to_owned(),
        }
    }

    /// The password authentication exchange itself failed.
    pub fn password_auth_failed(detail: &str) -> (e: TunnelError)
        ensures
            e.code@ == "AUTH_FAILED"@,
            e.message@ == "Password authentication failed: "@ + detail@,
    {
        let mut m = "Password authentication failed: ".to_owned();
        m.append(detail);
        TunnelError { message: m, code: "AUTH_FAILED".to_owned() }
    }

    /// The public-key authentication exchange itself failed.
    pub fn key_auth_failed(detail: &str) -> (e: TunnelError)
        ensures
            e.code@ == "AUTH_FAILED"@,
            e.message@ == "Key authentication failed: "@ + detail@,
    {
        let mut m = "Key authentication failed: ".to_owned();
        m.append(detail);
        TunnelError { message: m, code: "AUTH_FAILED".to_owned() }
    }

    /// The local ephemeral port could not be allocated.
    pub fn bind_error(detail: &str) -> (e: TunnelError)
        ensures
            e.code@ == "BIND_ERROR"@,
            e.message@ == "Failed to bind local port: "@ + detail@,
    {
        let mut m = "Failed to bind local port: ".to_owned();
        m.append(detail);
        TunnelError { message: m, code: "BIND_ERROR".to_owned() }
    }

    /// No registered tunnel carries the given identifier.
    pub fn tunnel_not_found(tunnel_id: &str) -> (e: TunnelError)
        ensures
            e.code@ == "TUNNEL_NOT_FOUND"@,
            e.message@ == "Tunnel not found: "@ + tunnel_id@,
    {
        let mut m = "Tunnel not found: ".to_owned();
        m.append(tunnel_id);
        TunnelError { message: m, code: "TUNNEL_NOT_FOUND".to_owned() }
    }
}

} // verus!
