//! Verified core of an SSH port-forwarding tunnel manager.
//!
//! A caller supplies SSH credentials and a remote endpoint and receives a
//! locally bound TCP port whose connections are forwarded through an
//! authenticated SSH session.  This crate holds the verified logic of that
//! system: the error taxonomy, tunnel identifier generation, the tunnel
//! registry with its one-shot shutdown handles, the session-establishment
//! state machine, and the models of the accept loop and the per-connection
//! byte relay.  The asynchronous network driver lives outside the crate and
//! feeds events into the state machines defined here.

mod accept;
mod boundary;
mod config;
mod errors;
mod establish;
mod ids;
mod registry;
mod relay;
mod shutdown;

pub use accept::{
    AcceptAction, AcceptEvent, accept_step, admitted, lemma_no_admissions_after_shutdown,
    run_accept,
};
pub use boundary::{
    ConflictContent, DuckDBConnectResult, DuckDBError, DuckDBExecuteResult, GitCredentials,
    GitError, MssqlConfig, MssqlConnection, MssqlError, RepoStatus, SyncResult,
};
pub use config::{
    TunnelConfig, credentials_ok, has_key_path, has_password, is_key_method, is_password_method,
    opt_view,
};
pub use errors::TunnelError;
pub use establish::{
    AuthPlan, EstablishAction, EstablishEvent, EstablishPhase, Establisher, plan_matches,
};
pub use ids::{digit_char, dec_rep, id_seq, tunnel_id_string, lemma_tunnel_ids_distinct};
pub use registry::{
    TunnelEntry, TunnelManager, TunnelResult, lemma_close_removes_exactly,
    lemma_registered_ids_distinct,
};
pub use relay::{
    RelayAction, RelayEvent, RelayOutcome, relay_halts, relay_step, run_relay, to_local, to_remote,
};
