use vstd::prelude::*;

verus! {

// Data types at the interface boundary of the application's collaborator
// bridges (the analytical-database, version-control, and SQL-Server
// bridges).  The bridges themselves marshal calls to pre-existing libraries
// and live outside this crate; these are the plain values that cross their
// boundaries.

/// An analytical-database bridge error: stable code plus message.
#[derive(Debug)]
pub struct DuckDBError {
    pub message: String,
    pub code: String,
}

/// The handle returned when the analytical-database bridge opens a
/// connection.
#[derive(Debug)]
pub struct DuckDBConnectResult {
    pub connection_id: String,
}

/// The outcome of a statement executed through the analytical-database
/// bridge.
#[derive(Debug)]
pub struct DuckDBExecuteResult {
    pub rows_affected: usize,
}

/// A version-control bridge error: stable code plus message.
#[derive(Debug)]
pub struct GitError {
    pub message: String,
    pub code: String,
}

/// A snapshot of a repository's working-tree state.
#[derive(Debug)]
pub struct RepoStatus {
    pub is_clean: bool,
    pub pending_changes: usize,
    pub ahead_by: usize,
    pub behind_by: usize,
    pub has_conflicts: bool,
    pub current_branch: String,
    pub modified_files: Vec<String>,
    pub untracked_files: Vec<String>,
}

/// The outcome of a pull or push through the version-control bridge.
#[derive(Debug)]
pub struct SyncResult {
    pub success: bool,
    pub message: String,
    pub conflicts: Vec<String>,
    pub files_changed: Vec<String>,
}

/// Credentials handed to the version-control bridge.
#[derive(Debug, Clone)]
pub struct GitCredentials {
    pub username: Option<String>,
    pub password: Option<String>,
    pub ssh_key_path: Option<String>,
    pub ssh_passphrase: Option<String>,
}

/// The three sides of one conflicted file.
#[derive(Debug)]
pub struct ConflictContent {
    pub base: String,
    pub ours: String,
    pub theirs: String,
}

/// Connection settings for the SQL-Server bridge.
#[derive(Debug)]
pub struct MssqlConfig {
    pub host: String,
    pub port: u16,
    pub database: String,
    pub username: String,
    pub password: String,
    pub encrypt: Option<bool>,
    pub trust_cert: Option<bool>,
}

/// The handle returned when the SQL-Server bridge opens a connection.
#[derive(Debug)]
pub struct MssqlConnection {
    pub connection_id: String,
}

/// A SQL-Server bridge error: stable code plus message.
#[derive(Debug)]
pub struct MssqlError {
    pub message: String,
    pub code: String,
}

} // verus!
