use vstd::prelude::*;

use crate::config::{
    TunnelConfig, credentials_ok, has_key_path, has_password, is_key_method, is_password_method,
    opt_view,
};
use crate::errors::TunnelError;

verus! {

/// How the session will authenticate once the connection is up.
#[derive(Debug)]
pub enum AuthPlan {
    UsePassword { username: String, password: String },
    UseKey { username: String, key_path: String, passphrase: Option<String> },
}

/// Where session establishment stands.
#[derive(Debug, Clone, Copy, PartialEq, Eq, Structural)]
pub enum EstablishPhase {
    AwaitingConnect,
    AwaitingKey,
    AwaitingAuth,
    AwaitingBind,
    Succeeded(u16),
    Failed,
}

/// What the network driver reports back to the state machine.
#[derive(Debug)]
pub enum EstablishEvent {
    Connected,
    ConnectTimedOut,
    ConnectFailed(String),
    KeyLoaded,
    KeyMissing,
    KeyUnreadable(String),
    AuthAccepted,
    AuthRejected,
    AuthTransportFailed(String),
    Bound(u16),
    BindFailed(String),
}

/// What the network driver must do next.
#[derive(Debug)]
pub enum EstablishAction {
    LoadKey { key_path: String, passphrase: Option<String> },
    AuthenticateWithPassword { username: String, password: String },
    AuthenticateWithKey { username: String },
    BindLocalPort,
    Succeed { local_port: u16 },
    Fail(TunnelError),
}

/// The plan carries exactly the credential the configuration supplied.
pub open spec fn plan_matches(p: AuthPlan, c: TunnelConfig) -> bool {
    if is_password_method(c) {
        p matches AuthPlan::UsePassword { username, password } && username@ == c.ssh_username@
            && (c.password matches Some(cp) && password@ == cp@)
    } else {
        p matches AuthPlan::UseKey { username, key_path, passphrase } && username@
            == c.ssh_username@ && (c.key_path matches Some(kp) && key_path@ == kp@) && opt_view(
            passphrase,
        ) == opt_view(c.key_passphrase)
    }
}

/// The session-establishment state machine.
///
/// It owns every decision of establishment — which credential to submit,
/// which error each failure maps to, and in which order the steps may run —
/// while the driver performs the network work and reports each outcome as an
/// [`EstablishEvent`].  A configuration whose credential is missing or whose
/// method is unknown is rejected by [`Establisher::begin`], before any
/// connection attempt exists.
#[derive(Debug)]
pub struct Establisher {
    pub plan: AuthPlan,
    pub phase: EstablishPhase,
}

impl Establisher {
    /// The key-loading phase is only ever reached under a key plan.
    pub open spec fn wf(self) -> bool {
        self.phase == EstablishPhase::AwaitingKey ==> self.plan matches AuthPlan::UseKey { .. }
    }

    /// Which events can answer the current phase.
    pub open spec fn step_fits(self, ev: EstablishEvent) -> bool {
        match self.phase {
            EstablishPhase::AwaitingConnect => {
                ||| ev matches EstablishEvent::Connected
                ||| ev matches EstablishEvent::ConnectTimedOut
                ||| ev matches EstablishEvent::ConnectFailed(_)
            },
            EstablishPhase::AwaitingKey => {
                ||| ev matches EstablishEvent::KeyLoaded
                ||| ev matches EstablishEvent::KeyMissing
                ||| ev matches EstablishEvent::KeyUnreadable(_)
            },
            EstablishPhase::AwaitingAuth => {
                ||| ev matches EstablishEvent::AuthAccepted
                ||| ev matches EstablishEvent::AuthRejected
                ||| ev matches EstablishEvent::AuthTransportFailed(_)
            },
            EstablishPhase::AwaitingBind => {
                ||| ev matches EstablishEvent::Bound(_)
                ||| ev matches EstablishEvent::BindFailed(_)
            },
            EstablishPhase::Succeeded(_) => false,
            EstablishPhase::Failed => false,
        }
    }

    /// Validates the configured method and credential.  This runs before
    /// anything touches the network: a password configuration without a
    /// usable password, a key configuration without a key path, and an
    /// unknown method all fail here, and no connection is attempted for such
    /// a configuration.
    pub fn begin(config: &TunnelConfig) -> (r: Result<Establisher, TunnelError>)
        ensures
            r is Ok <==> credentials_ok(*config),
            (r matches Ok(est) ==> est.wf() && est.phase == EstablishPhase::AwaitingConnect
                && plan_matches(est.plan, *config)),
            (is_password_method(*config) ==> (r matches Err(e) ==> e.code@ == "AUTH_ERROR"@
                && e.message@ == "Password required for password authentication"@)),
            (is_key_method(*config) && !is_password_method(*config) ==> (r matches Err(e)
                ==> e.code@ == "AUTH_ERROR"@ && e.message@
                == "Key path required for key authentication"@)),
            (!is_password_method(*config) && !is_key_method(*config) ==> (r matches Err(e)
                ==> e.code@ == "INVALID_AUTH_METHOD"@ && e.message@ == "Unknown auth method: "@
                + config.auth_method@)),
    {
        proof {
            reveal_strlit("password");
            reveal_strlit("key");
            assert("password"@.len() != "key"@.len());
        }
        let pw_lit: String = "password".to_owned();
        let key_lit: String = "key".to_owned();
        if config.auth_method == pw_lit {
            match &config.password {
                Some(p) => {
                    if p.as_str().is_empty() {
                        Err(TunnelError::missing_password())
                    } else {
                        Ok(
                            Establisher {
                                plan: AuthPlan::UsePassword {
                                    username: config.ssh_username.clone(),
                                    password: p.clone(),
                                },
                                phase: EstablishPhase::AwaitingConnect,
                            },
                        )
                    }
                },
                None => Err(TunnelError::missing_password()),
            }
        } else if config.auth_method == key_lit {
            match &config.key_path {
                Some(kp) => Ok(
                    Establisher {
                        plan: AuthPlan::UseKey {
                            username: config.ssh_username.clone(),
                            key_path: kp.clone(),
                            passphrase: match &config.key_passphrase {
                                Some(pp) => Some(pp.clone()),
                                None => None,
                            },
                        },
                        phase: EstablishPhase::AwaitingConnect,
                    },
                ),
                None => Err(TunnelError::missing_key_path()),
            }
        } else {
            Err(TunnelError::invalid_auth_method(config.auth_method.as_str()))
        }
    }

    /// Advances the machine by one reported outcome and says what to do
    /// next.  Every failure event maps to its place in the error taxonomy;
    /// the credential submitted for authentication is exactly the one the
    /// plan carries; a terminal phase is never stepped again.
    pub fn step(&mut self, ev: EstablishEvent) -> (a: EstablishAction)
        requires
            old(self).wf(),
            old(self).step_fits(ev),
        ensures
            final(self).wf(),
            final(self).plan == old(self).plan,
            (a matches EstablishAction::Fail(_) <==> final(self).phase == EstablishPhase::Failed),
            (a matches EstablishAction::Succeed { .. } <==> final(self).phase matches
                EstablishPhase::Succeeded(_)),
            // connecting
            (old(self).phase == EstablishPhase::AwaitingConnect ==> (ev matches
                EstablishEvent::Connected ==> (old(self).plan matches AuthPlan::UsePassword {
                username,
                password,
            } ==> a == (EstablishAction::AuthenticateWithPassword { username, password })
                && final(self).phase == EstablishPhase::AwaitingAuth))),
            (old(self).phase == EstablishPhase::AwaitingConnect ==> (ev matches
                EstablishEvent::Connected ==> (old(self).plan matches AuthPlan::UseKey {
                username,
                key_path,
                passphrase,
            } ==> a == (EstablishAction::LoadKey { key_path, passphrase }) && final(self).phase
                == EstablishPhase::AwaitingKey))),
            (old(self).phase == EstablishPhase::AwaitingConnect ==> (ev matches
                EstablishEvent::ConnectTimedOut ==> (a matches EstablishAction::Fail(e) && e.code@
                == "TIMEOUT"@ && e.message@ == "Connection timed out"@))),
            (old(self).phase == EstablishPhase::AwaitingConnect ==> (ev matches
                EstablishEvent::ConnectFailed(d) ==> (a matches EstablishAction::Fail(e)
                && e.code@ == "CONNECTION_ERROR"@ && e.message@
                == "Failed to connect to SSH server: "@ + d@))),
            // loading the key
            (old(self).phase == EstablishPhase::AwaitingKey ==> (ev matches
                EstablishEvent::KeyLoaded ==> (old(self).plan matches AuthPlan::UseKey {
                username,
                ..
            } ==> a == (EstablishAction::AuthenticateWithKey { username }) && final(self).phase
                == EstablishPhase::AwaitingAuth))),
            (old(self).phase == EstablishPhase::AwaitingKey ==> (ev matches
                EstablishEvent::KeyMissing ==> (old(self).plan matches AuthPlan::UseKey {
                key_path,
                ..
            } ==> (a matches EstablishAction::Fail(e) && e.code@ == "KEY_NOT_FOUND"@ && e.message@
                == "SSH key file not found: "@ + key_path@)))),
            (old(self).phase == EstablishPhase::AwaitingKey ==> (ev matches
                EstablishEvent::KeyUnreadable(d) ==> (a matches EstablishAction::Fail(e)
                && e.code@ == "KEY_LOAD_ERROR"@ && e.message@ == "Failed to load SSH key: "@
                + d@))),
            // authenticating
            (old(self).phase == EstablishPhase::AwaitingAuth ==> (ev matches
                EstablishEvent::AuthAccepted ==> a == EstablishAction::BindLocalPort
                && final(self).phase == EstablishPhase::AwaitingBind)),
            (old(self).phase == EstablishPhase::AwaitingAuth ==> (ev matches
                EstablishEvent::AuthRejected ==> (a matches EstablishAction::Fail(e) && e.code@
                == "AUTH_FAILED"@ && e.message@ == "Authentication failed"@))),
            (old(self).phase == EstablishPhase::AwaitingAuth && (old(self).plan matches
                AuthPlan::UsePassword { .. }) ==> (ev matches EstablishEvent::AuthTransportFailed(
                d,
            ) ==> (a matches EstablishAction::Fail(e) && e.code@ == "AUTH_FAILED"@ && e.message@
                == "Password authentication failed: "@ + d@))),
            (old(self).phase == EstablishPhase::AwaitingAuth && (old(self).plan matches
                AuthPlan::UseKey { .. }) ==> (ev matches EstablishEvent::AuthTransportFailed(d)
                ==> (a matches EstablishAction::Fail(e) && e.code@ == "AUTH_FAILED"@ && e.message@
                == "Key authentication failed: "@ + d@))),
            // binding
            (old(self).phase == EstablishPhase::AwaitingBind ==> (ev matches
                EstablishEvent::Bound(port) ==> a == (EstablishAction::Succeed {
                local_port: port,
            }) && final(self).phase == EstablishPhase::Succeeded(port))),
            (old(self).phase == EstablishPhase::AwaitingBind ==> (ev matches
                EstablishEvent::BindFailed(d) ==> (a matches EstablishAction::Fail(e) && e.code@
                == "BIND_ERROR"@ && e.message@ == "Failed to bind local port: "@ + d@))),
    {
        match self.phase {
            EstablishPhase::AwaitingConnect => match ev {
                EstablishEvent::Connected => match &self.plan {
                    AuthPlan::UsePassword { username, password } => {
                        let act = EstablishAction::AuthenticateWithPassword {
                            username: username.clone(),
                            password: password.clone(),
                        };
                        self.phase = EstablishPhase::AwaitingAuth;
                        act
                    },
                    AuthPlan::UseKey { username: _, key_path, passphrase } => {
                        let act = EstablishAction::LoadKey {
                            key_path: key_path.clone(),
                            passphrase: match passphrase {
                                Some(pp) => Some(pp.clone()),
                                None => None,
                            },
                        };
                        self.phase = EstablishPhase::AwaitingKey;
                        act
                    },
                },
                EstablishEvent::ConnectTimedOut => {
                    self.phase = EstablishPhase::Failed;
                    EstablishAction::Fail(TunnelError::timeout())
                },
                EstablishEvent::ConnectFailed(d) => {
                    self.phase = EstablishPhase::Failed;
                    EstablishAction::Fail(TunnelError::connection_error(d.as_str()))
                },
                _ => {
                    proof {
                        assert(false);
                    }
                    EstablishAction::BindLocalPort
                },
            },
            EstablishPhase::AwaitingKey => match ev {
                EstablishEvent::KeyLoaded => match &self.plan {
                    AuthPlan::UseKey { username, .. } => {
                        let act = EstablishAction::AuthenticateWithKey {
                            username: username.clone(),
                        };
                        self.phase = EstablishPhase::AwaitingAuth;
                        act
                    },
                    AuthPlan::UsePassword { .. } => {
                        proof {
                            assert(false);
                        }
                        EstablishAction::BindLocalPort
                    },
                },
                EstablishEvent::KeyMissing => match &self.plan {
                    AuthPlan::UseKey { key_path, .. } => {
                        let e = TunnelError::key_not_found(key_path.as_str());
                        self.phase = EstablishPhase::Failed;
                        EstablishAction::Fail(e)
                    },
                    AuthPlan::UsePassword { .. } => {
                        proof {
                            assert(false);
                        }
                        EstablishAction::BindLocalPort
                    },
                },
                EstablishEvent::KeyUnreadable(d) => {
                    self.phase = EstablishPhase::Failed;
                    EstablishAction::Fail(TunnelError::key_load_error(d.as_str()))
                },
                _ => {
                    proof {
                        assert(false);
                    }
                    EstablishAction::BindLocalPort
                },
            },
            EstablishPhase::AwaitingAuth => match ev {
                EstablishEvent::AuthAccepted => {
                    self.phase = EstablishPhase::AwaitingBind;
                    EstablishAction::BindLocalPort
                },
                EstablishEvent::AuthRejected => {
                    self.phase = EstablishPhase::Failed;
                    EstablishAction::Fail(TunnelError::auth_rejected())
                },
                EstablishEvent::AuthTransportFailed(d) => {
                    let e = match &self.plan {
                        AuthPlan::UsePassword { .. } => TunnelError::password_auth_failed(
                            d.as_str(),
                        ),
                        AuthPlan::UseKey { .. } => TunnelError::key_auth_failed(d.as_str()),
                    };
                    self.phase = EstablishPhase::Failed;
                    EstablishAction::Fail(e)
                },
                _ => {
                    proof {
                        assert(false);
                    }
                    EstablishAction::BindLocalPort
                },
            },
            EstablishPhase::AwaitingBind => match ev {
                EstablishEvent::Bound(port) => {
                    self.phase = EstablishPhase::Succeeded(port);
                    EstablishAction::Succeed { local_port: port }
                },
                EstablishEvent::BindFailed(d) => {
                    self.phase = EstablishPhase::Failed;
                    EstablishAction::Fail(TunnelError::bind_error(d.as_str()))
                },
                _ => {
                    proof {
                        assert(false);
                    }
                    EstablishAction::BindLocalPort
                },
            },
            EstablishPhase::Succeeded(_) => {
                proof {
                    assert(false);
                }
                EstablishAction::BindLocalPort
            },
            EstablishPhase::Failed => {
                proof {
                    assert(false);
                }
                EstablishAction::BindLocalPort
            },
        }
    }
}

} // verus!
