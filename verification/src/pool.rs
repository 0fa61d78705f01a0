//! The pool factory: one bounded pool for each server, under a fixed policy.

use vstd::prelude::*;
use crate::error::{DashboardError, ErrorKind};
use crate::types::ConnectionConfig;
use deadpool_postgres::{Config, ManagerConfig, PoolConfig, RecyclingMethod, Runtime, Timeouts};
use std::time::Duration;
use tokio_postgres::NoTls;

verus! {

/// A pool of connections to one server: a `deadpool_postgres::Pool`, held
/// as the pooling crate gives it. Nothing inside it is visible to the
/// proofs; the caller leases connections from `inner`.
#[verifier::external_body]
pub struct PoolHandle {
    pub inner: deadpool_postgres::Pool,
}

/// How a connection is made ready for its next user.
#[derive(Debug, Clone, Copy, PartialEq, Eq, Structural)]
pub enum Recycling {
    /// Only ask whether the connection is closed.
    Fast,
    /// Also run a trial statement.
    Verified,
    /// Also reset the session.
    Clean,
}

/// The limits under which a pool works.
#[derive(Debug, Clone, Copy, PartialEq, Eq, Structural)]
pub struct PoolPolicy {
    /// The most connections that the pool holds.
    pub max_size: u16,
    /// The longest wait for a free connection, in seconds.
    pub wait_secs: u64,
    /// The longest wait for a new connection, in seconds.
    pub create_secs: u64,
    /// The longest wait for a connection to be made ready again, in seconds.
    pub recycle_secs: u64,
    /// How a connection is made ready for its next user.
    pub recycling: Recycling,
}

/// The one policy that every pool of the registry works under.
pub open spec fn fixed_policy() -> PoolPolicy {
    PoolPolicy {
        max_size: 16,
        wait_secs: 30,
        create_secs: 30,
        recycle_secs: 10,
        recycling: Recycling::Fast,
    }
}

/// The limits that a pool was made with.
pub uninterp spec fn made_with(pool: PoolHandle) -> PoolPolicy;

/// Calls `deadpool_postgres::Config::create_pool` for one server, on the
/// tokio runtime and without TLS. No connection is opened by this. The pool
/// that comes back was made with the limits handed in: its size, its three
/// timeouts in whole seconds, and its way of recycling, matched one for one
/// with the crate's own. The call fails exactly where the database name is
/// empty: the crate then finds no database configured. Its other failures
/// cannot arise here, since no URL is given and a runtime is.
#[verifier::external_body]
fn create_pool(
    host: String,
    port: u16,
    dbname: String,
    user: String,
    password: String,
    max_size: u16,
    wait: u64,
    create: u64,
    recycle: u64,
    recycling: Recycling,
) -> (r: Result<PoolHandle, String>)
    ensures
        r is Err <==> dbname@.len() == 0,
        r matches Ok(pool) ==> made_with(pool) == (PoolPolicy {
            max_size,
            wait_secs: wait,
            create_secs: create,
            recycle_secs: recycle,
            recycling,
        }),
{
    let timeouts = Timeouts { wait: Some(Duration::from_secs(wait)), create: Some(Duration::from_secs(create)), recycle: Some(Duration::from_secs(recycle)) };
    let recycling_method = match recycling {
        Recycling::Fast => RecyclingMethod::Fast,
        Recycling::Verified => RecyclingMethod::Verified,
        Recycling::Clean => RecyclingMethod::Clean,
    };
    let cfg = Config {
        host: Some(host), port: Some(port), dbname: Some(dbname), user: Some(user), password: Some(password),
        manager: Some(ManagerConfig { recycling_method }),
        pool: Some(PoolConfig { max_size: max_size.into(), timeouts, ..Default::default() }),
        ..Default::default()
    };
    cfg.create_pool(Some(Runtime::Tokio1), NoTls).map(|inner| PoolHandle { inner }).map_err(|e| e.to_string())
}

/// Builds pools.
pub struct PoolFactory;

impl PoolFactory {
    /// The fixed policy: at most 16 connections, 30 seconds to wait for one,
    /// 30 seconds to create one, 10 seconds to recycle one, and quick
    /// recycling.
    pub fn policy() -> (r: PoolPolicy)
        ensures
            r == fixed_policy(),
    {
        PoolPolicy {
            max_size: 16,
            wait_secs: 30,
            create_secs: 30,
            recycle_secs: 10,
            recycling: Recycling::Fast,
        }
    }

    /// Builds the pool for `config` under the fixed policy. No connection is
    /// opened yet. A pool cannot be built for a server without a database
    /// name.
    pub fn build(config: &ConnectionConfig) -> (r: Result<PoolHandle, DashboardError>)
        ensures
            r is Err <==> config.database@.len() == 0,
            r matches Ok(pool) ==> made_with(pool) == fixed_policy(),
            r matches Err(e) ==> e.kind == ErrorKind::PoolCreation
                && "Failed to create pool: "@.is_prefix_of(e.message@),
    {
        let policy = Self::policy();
        let made = create_pool(
            config.host.clone(),
            config.port,
            config.database.clone(),
            config.username.clone(),
            config.password.clone(),
            policy.max_size,
            policy.wait_secs,
            policy.create_secs,
            policy.recycle_secs,
            policy.recycling,
        );
        match made {
            Ok(pool) => Ok(pool),
            Err(detail) => {
                let e = DashboardError::with_detail(
                    ErrorKind::PoolCreation,
                    "Failed to create pool: ",
                    detail.as_str(),
                );
                assert("Failed to create pool: "@.is_prefix_of(e.message@)) by {
                    assert(e.message@.subrange(0, "Failed to create pool: "@.len() as int)
                        =~= "Failed to create pool: "@);
                }
                Err(e)
            },
        }
    }
}

} // verus!
