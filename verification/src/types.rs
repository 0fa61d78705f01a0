//! Server identities as callers give and see them.

use vstd::prelude::*;
use crate::config::opt_text;

verus! {

/// What identifies a server and says how to reach it. The secret is no part
/// of it.
pub struct ServerIdentity {
    pub id: Seq<char>,
    pub name: Seq<char>,
    pub host: Seq<char>,
    pub port: u16,
    pub database: Seq<char>,
    pub username: Seq<char>,
    pub use_ssl: bool,
}

/// A server as the caller describes it, with the secret to log in with.
#[derive(Debug)]
pub struct ConnectionConfig {
    pub id: String,
    pub name: String,
    pub host: String,
    pub port: u16,
    pub database: String,
    pub username: String,
    pub password: String,
    pub use_ssl: bool,
}

/// The content of a [`ConnectionConfig`].
pub struct ConnectionConfigView {
    pub identity: ServerIdentity,
    pub password: Seq<char>,
}

impl View for ConnectionConfig {
    type V = ConnectionConfigView;

    open spec fn view(&self) -> ConnectionConfigView {
        ConnectionConfigView {
            identity: ServerIdentity {
                id: self.id@,
                name: self.name@,
                host: self.host@,
                port: self.port,
                database: self.database@,
                username: self.username@,
                use_ssl: self.use_ssl,
            },
            password: self.password@,
        }
    }
}

impl Clone for ConnectionConfig {
    fn clone(&self) -> (r: Self)
        ensures
            r == *self,
    {
        ConnectionConfig {
            id: self.id.clone(),
            name: self.name.clone(),
            host: self.host.clone(),
            port: self.port,
            database: self.database.clone(),
            username: self.username.clone(),
            password: self.password.clone(),
            use_ssl: self.use_ssl,
        }
    }
}

/// A server as the registry shows it.
#[derive(Debug)]
pub struct ServerInfo {
    pub id: String,
    pub name: String,
    pub host: String,
    pub port: u16,
    pub database: String,
    pub username: String,
    pub connected: bool,
    pub postgres_version: Option<String>,
}

/// The content of a [`ServerInfo`].
pub struct ServerInfoView {
    pub id: Seq<char>,
    pub name: Seq<char>,
    pub host: Seq<char>,
    pub port: u16,
    pub database: Seq<char>,
    pub username: Seq<char>,
    pub connected: bool,
    pub postgres_version: Option<Seq<char>>,
}

impl View for ServerInfo {
    type V = ServerInfoView;

    open spec fn view(&self) -> ServerInfoView {
        ServerInfoView {
            id: self.id@,
            name: self.name@,
            host: self.host@,
            port: self.port,
            database: self.database@,
            username: self.username@,
            connected: self.connected,
            postgres_version: opt_text(self.postgres_version),
        }
    }
}

impl Clone for ServerInfo {
    fn clone(&self) -> (r: Self)
        ensures
            r == *self,
    {
        ServerInfo {
            id: self.id.clone(),
            name: self.name.clone(),
            host: self.host.clone(),
            port: self.port,
            database: self.database.clone(),
            username: self.username.clone(),
            connected: self.connected,
            postgres_version: self.postgres_version.clone(),
        }
    }
}

/// How the registry shows the server of `identity`: the version is not known
/// to the registry.
pub open spec fn shown_as(identity: ServerIdentity, connected: bool) -> ServerInfoView {
    ServerInfoView {
        id: identity.id,
        name: identity.name,
        host: identity.host,
        port: identity.port,
        database: identity.database,
        username: identity.username,
        connected,
        postgres_version: None,
    }
}

/// The outcome of a single trial connection.
#[derive(Debug)]
pub struct ConnectionTestResult {
    pub success: bool,
    pub message: String,
    pub postgres_version: Option<String>,
}

/// The content of a [`ConnectionTestResult`].
pub struct ConnectionTestResultView {
    pub success: bool,
    pub message: Seq<char>,
    pub postgres_version: Option<Seq<char>>,
}

impl View for ConnectionTestResult {
    type V = ConnectionTestResultView;

    open spec fn view(&self) -> ConnectionTestResultView {
        ConnectionTestResultView {
            success: self.success,
            message: self.message@,
            postgres_version: opt_text(self.postgres_version),
        }
    }
}

} // verus!
