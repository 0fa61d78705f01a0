//! The connection registry: the saved servers, the active ones with their
//! pools, and the steps by which a server is added, reconnected and removed.

use vstd::prelude::*;
use crate::config::opt_text;
use crate::error::{DashboardError, ErrorKind};
use crate::keyed::IdMap;
use crate::pool::{fixed_policy, made_with, PoolFactory, PoolHandle};
use crate::storage::{saved_views, SavedServerConfig, SavedServerConfigView};
use crate::text::{append_decimal, contains, decimal_text, occurs_in};
use crate::types::{
    shown_as, ConnectionConfig, ConnectionConfigView, ConnectionTestResult, ServerInfo,
    ServerInfoView,
};

verus! {

/// The saved form of a server that a caller described.
pub open spec fn saved_form(config: ConnectionConfigView) -> SavedServerConfigView {
    SavedServerConfigView { identity: config.identity, password: config.password }
}

/// The description with which a saved server is connected again.
pub open spec fn active_form(saved: SavedServerConfigView) -> ConnectionConfigView {
    ConnectionConfigView { identity: saved.identity, password: saved.password }
}

/// What the registry knows: the saved servers, the active ones, and the open
/// pools, each by server id.
pub struct RegistryView {
    pub saved: Map<Seq<char>, SavedServerConfigView>,
    pub active: Map<Seq<char>, ConnectionConfigView>,
    pub pools: Map<Seq<char>, PoolHandle>,
}

impl RegistryView {
    /// The ids of all servers that the registry knows, saved or active.
    pub open spec fn ids(self) -> Set<Seq<char>> {
        self.saved.dom().union(self.active.dom())
    }

    /// How the registry shows the server `id`: the active one if there is
    /// one, connected where a pool is open for it; else the saved one, not
    /// connected; else nothing.
    pub open spec fn record(self, id: Seq<char>) -> Option<ServerInfoView> {
        if self.active.contains_key(id) {
            Some(shown_as(self.active[id].identity, self.pools.contains_key(id)))
        } else if self.saved.contains_key(id) {
            Some(shown_as(self.saved[id].identity, false))
        } else {
            None
        }
    }

    /// Whether `infos` lists the servers of the registry: every entry shows
    /// a server as the registry shows it, no server is listed twice, and
    /// every server that the registry knows is listed. An active server is
    /// so listed as active, whatever its saved record says.
    pub open spec fn listed_by(self, infos: Seq<ServerInfoView>) -> bool {
        &&& forall|i: int|
            0 <= i < infos.len() ==> self.record((#[trigger] infos[i]).id) == Some(infos[i])
        &&& forall|i: int, j: int|
            0 <= i < j < infos.len() ==> (#[trigger] infos[i]).id != (#[trigger] infos[j]).id
        &&& forall|id: Seq<char>| #[trigger]
            self.ids().contains(id) ==> exists|i: int|
                0 <= i < infos.len() && (#[trigger] infos[i]).id == id
    }

    /// The registry after `config` was added with the pool `pool`: the
    /// server is saved, active, and has its pool.
    pub open spec fn with_added(self, config: ConnectionConfigView, pool: PoolHandle) -> RegistryView {
        RegistryView {
            saved: self.saved.insert(config.identity.id, saved_form(config)),
            active: self.active.insert(config.identity.id, config),
            pools: self.pools.insert(config.identity.id, pool),
        }
    }

    /// The registry after `config` was connected again with the pool `pool`:
    /// the server is active and has its pool; the saved servers are as before.
    pub open spec fn with_reconnected(
        self,
        config: ConnectionConfigView,
        pool: PoolHandle,
    ) -> RegistryView {
        RegistryView {
            saved: self.saved,
            active: self.active.insert(config.identity.id, config),
            pools: self.pools.insert(config.identity.id, pool),
        }
    }

    /// The registry after the server `id` was removed from it altogether.
    pub open spec fn without(self, id: Seq<char>) -> RegistryView {
        RegistryView {
            saved: self.saved.remove(id),
            active: self.active.remove(id),
            pools: self.pools.remove(id),
        }
    }
}

/// A server that was removed is unknown to the registry: it is not shown,
/// and no listing of the registry holds it.
pub proof fn lemma_removed_is_unknown(
    registry: RegistryView,
    id: Seq<char>,
    infos: Seq<ServerInfoView>,
)
    requires
        registry.without(id).listed_by(infos),
    ensures
        registry.without(id).record(id) is None,
        forall|i: int| 0 <= i < infos.len() ==> (#[trigger] infos[i]).id != id,
{
    assert forall|i: int| 0 <= i < infos.len() implies (#[trigger] infos[i]).id != id by {
        assert(registry.without(id).record(infos[i].id) == Some(infos[i]));
    }
}

/// After a server was added and then removed, the registry does not show
/// it, and no listing of the registry holds it.
pub proof fn lemma_add_then_remove(
    registry: RegistryView,
    config: ConnectionConfigView,
    pool: PoolHandle,
    infos: Seq<ServerInfoView>,
)
    requires
        registry.with_added(config, pool).without(config.identity.id).listed_by(infos),
    ensures
        registry.with_added(config, pool).without(config.identity.id).record(config.identity.id)
            is None,
        forall|i: int| 0 <= i < infos.len() ==> (#[trigger] infos[i]).id != config.identity.id,
{
    lemma_removed_is_unknown(registry.with_added(config, pool), config.identity.id, infos);
}

/// Removing a server a second time changes nothing.
pub proof fn lemma_remove_twice(registry: RegistryView, id: Seq<char>)
    ensures
        registry.without(id).without(id) == registry.without(id),
{
    let once = registry.without(id);
    assert(once.saved.remove(id) =~= once.saved);
    assert(once.active.remove(id) =~= once.active);
    assert(once.pools.remove(id) =~= once.pools);
}

/// A server that was added is shown as connected, with the identity that
/// the caller gave, and is among the servers that the registry knows.
pub proof fn lemma_added_is_connected(
    registry: RegistryView,
    config: ConnectionConfigView,
    pool: PoolHandle,
)
    ensures
        registry.with_added(config, pool).record(config.identity.id) == Some(
            shown_as(config.identity, true),
        ),
        registry.with_added(config, pool).ids().contains(config.identity.id),
{
}

/// A server that was connected again is shown as connected, and the saved
/// servers are the same as before.
pub proof fn lemma_reconnected_is_connected(
    registry: RegistryView,
    config: ConnectionConfigView,
    pool: PoolHandle,
)
    ensures
        registry.with_reconnected(config, pool).record(config.identity.id) == Some(
            shown_as(config.identity, true),
        ),
        registry.with_reconnected(config, pool).saved == registry.saved,
{
}

/// Adding, reconnecting or removing one server leaves every other server
/// as the registry showed it before.
pub proof fn lemma_other_servers_untouched(
    registry: RegistryView,
    config: ConnectionConfigView,
    pool: PoolHandle,
    other: Seq<char>,
)
    requires
        other != config.identity.id,
    ensures
        registry.with_added(config, pool).record(other) == registry.record(other),
        registry.with_reconnected(config, pool).record(other) == registry.record(other),
        registry.without(config.identity.id).record(other) == registry.record(other),
{
}

/// The report of a failed trial connection: the text of the failure behind
/// a fixed introduction, unless that text holds the secret; then only the
/// bare statement that the connection failed.
pub open spec fn failure_report(secret: Seq<char>, text: Seq<char>) -> Seq<char> {
    if secret.len() > 0 && occurs_in(secret, text) {
        "Connection failed"@
    } else {
        "Connection failed: "@ + text
    }
}

/// The report of a failed trial connection repeats nothing of a failure
/// text in which the secret stands.
pub proof fn lemma_report_hides_secret(secret: Seq<char>, text: Seq<char>)
    requires
        secret.len() > 0,
    ensures
        failure_report(secret, text) == "Connection failed"@ || (failure_report(secret, text)
            == "Connection failed: "@ + text && !occurs_in(secret, text)),
{
}

/// The content of an optional server record.
pub open spec fn opt_info(o: Option<ServerInfo>) -> Option<ServerInfoView> {
    match o {
        Some(info) => Some(info@),
        None => None,
    }
}

/// The contents of a list of server records, in order.
pub open spec fn info_views(infos: Seq<ServerInfo>) -> Seq<ServerInfoView> {
    infos.map_values(|i: ServerInfo| i@)
}

/// The saved servers of the first `upto` entries of a list, by id. Where an
/// id occurs more than once, the last entry counts.
pub open spec fn saved_map(servers: Seq<SavedServerConfigView>, upto: int) -> Map<
    Seq<char>,
    SavedServerConfigView,
>
    decreases upto,
{
    if upto <= 0 || upto > servers.len() {
        Map::empty()
    } else {
        saved_map(servers, upto - 1).insert(servers[upto - 1].identity.id, servers[upto - 1])
    }
}

/// What a new connection is for.
#[derive(Debug, Clone, Copy, PartialEq, Eq, Structural)]
pub enum Purpose {
    /// A server that the caller adds.
    Add,
    /// A saved server that is connected again.
    Reconnect,
}

/// The text that introduces the failure of the first lease.
pub open spec fn lease_failure_prefix(purpose: Purpose) -> Seq<char> {
    match purpose {
        Purpose::Add => "Failed to get connection from pool: "@,
        Purpose::Reconnect => "Failed to connect: "@,
    }
}

/// A server whose pool is built and not yet tried. The caller leases one
/// connection from the pool and reports how that went.
pub struct PendingConnection {
    config: ConnectionConfig,
    pool: PoolHandle,
    purpose: Purpose,
}

/// A server from whose pool one connection was leased. Only such a server
/// can be installed in the registry.
pub struct ValidatedConnection {
    config: ConnectionConfig,
    pool: PoolHandle,
    purpose: Purpose,
}

impl PendingConnection {
    #[verifier::type_invariant]
    spec fn under_policy(self) -> bool {
        made_with(self.pool) == fixed_policy()
    }

    /// The server that the pool was built for.
    pub closed spec fn config(&self) -> ConnectionConfig {
        self.config
    }

    /// The pool that was built.
    pub closed spec fn pool_handle(&self) -> PoolHandle {
        self.pool
    }

    /// What the connection is for.
    pub closed spec fn purpose(&self) -> Purpose {
        self.purpose
    }

    /// The pool to lease the first connection from.
    pub fn pool(&self) -> (r: &PoolHandle)
        ensures
            *r == self.pool_handle(),
            made_with(*r) == fixed_policy(),
    {
        proof {
            use_type_invariant(self);
        }
        &self.pool
    }

    /// Takes the outcome of the first lease: `Ok` where a connection came,
    /// else the text of the failure. Only a successful lease validates the
    /// server.
    pub fn validated(self, lease: Result<(), String>) -> (r: Result<
        ValidatedConnection,
        DashboardError,
    >)
        ensures
            match lease {
                Ok(_) => r matches Ok(v) && v.config() == self.config() && v.pool_handle()
                    == self.pool_handle() && v.purpose() == self.purpose(),
                Err(text) => r matches Err(e) && e.kind == ErrorKind::Connectivity && e.message@
                    == lease_failure_prefix(self.purpose()) + text@,
            },
    {
        proof {
            use_type_invariant(&self);
        }
        match lease {
            Ok(_) => Ok(
                ValidatedConnection { config: self.config, pool: self.pool, purpose: self.purpose },
            ),
            Err(text) => {
                let prefix = match self.purpose {
                    Purpose::Add => "Failed to get connection from pool: ",
                    Purpose::Reconnect => "Failed to connect: ",
                };
                Err(DashboardError::with_detail(ErrorKind::Connectivity, prefix, text.as_str()))
            },
        }
    }
}

impl ValidatedConnection {
    #[verifier::type_invariant]
    spec fn under_policy(self) -> bool {
        made_with(self.pool) == fixed_policy()
    }

    /// The server that was validated.
    pub closed spec fn config(&self) -> ConnectionConfig {
        self.config
    }

    /// The pool that was tried.
    pub closed spec fn pool_handle(&self) -> PoolHandle {
        self.pool
    }

    /// What the connection is for.
    pub closed spec fn purpose(&self) -> Purpose {
        self.purpose
    }

    /// The record to persist for the server: its identity and its secret.
    pub fn saved_config(&self) -> (r: SavedServerConfig)
        ensures
            r@ == saved_form(self.config()@),
    {
        SavedServerConfig {
            id: self.config.id.clone(),
            name: self.config.name.clone(),
            host: self.config.host.clone(),
            port: self.config.port,
            database: self.config.database.clone(),
            username: self.config.username.clone(),
            use_ssl: self.config.use_ssl,
            password: self.config.password.clone(),
        }
    }
}

struct ActiveServer {
    config: ConnectionConfig,
    pool: PoolHandle,
}

/// The registry of servers.
pub struct ConnectionManager {
    active: IdMap<ActiveServer>,
    saved_servers: IdMap<SavedServerConfig>,
}

fn info_of_config(config: &ConnectionConfig, connected: bool) -> (r: ServerInfo)
    ensures
        r@ == shown_as(config@.identity, connected),
{
    ServerInfo {
        id: config.id.clone(),
        name: config.name.clone(),
        host: config.host.clone(),
        port: config.port,
        database: config.database.clone(),
        username: config.username.clone(),
        connected,
        postgres_version: None,
    }
}

fn info_of_saved(server: &SavedServerConfig) -> (r: ServerInfo)
    ensures
        r@ == shown_as(server@.identity, false),
{
    ServerInfo {
        id: server.id.clone(),
        name: server.name.clone(),
        host: server.host.clone(),
        port: server.port,
        database: server.database.clone(),
        username: server.username.clone(),
        connected: false,
        postgres_version: None,
    }
}

impl View for ConnectionManager {
    type V = RegistryView;

    closed spec fn view(&self) -> RegistryView {
        RegistryView {
            saved: self.saved_servers@.map_values(|s: SavedServerConfig| s@),
            active: self.active@.map_values(|a: ActiveServer| a.config@),
            pools: self.active@.map_values(|a: ActiveServer| a.pool),
        }
    }
}

impl ConnectionManager {
    #[verifier::type_invariant]
    spec fn keyed_by_id(self) -> bool {
        &&& forall|k: Seq<char>| #[trigger]
            self.saved_servers@.contains_key(k) ==> self.saved_servers@[k].id@ == k
        &&& forall|k: Seq<char>| #[trigger]
            self.active@.contains_key(k) ==> self.active@[k].config.id@ == k && made_with(
                self.active@[k].pool,
            ) == fixed_policy()
    }

    /// In every state of the registry the open pools are those of the
    /// active servers, so a server is shown as connected exactly when a
    /// pool is open for it.
    pub proof fn lemma_connected_iff_pool(&self, id: Seq<char>)
        ensures
            self@.pools.dom() == self@.active.dom(),
            (self@.record(id) matches Some(info) && info.connected) <==> self@.pools.contains_key(
                id,
            ),
    {
        assert(self@.pools.dom() =~= self@.active.dom());
    }

    /// A registry that knows the servers of `saved` and has none active.
    pub fn new(saved: Vec<SavedServerConfig>) -> (r: Self)
        ensures
            r@.saved == saved_map(saved_views(saved@), saved@.len() as int),
            r@.active == Map::<Seq<char>, ConnectionConfigView>::empty(),
            r@.pools == Map::<Seq<char>, PoolHandle>::empty(),
    {
        let mut saved_servers: IdMap<SavedServerConfig> = IdMap::new();
        let mut i: usize = 0;
        while i < saved.len()
            invariant
                i <= saved.len(),
                saved_servers@.map_values(|s: SavedServerConfig| s@) == saved_map(
                    saved_views(saved@),
                    i as int,
                ),
                forall|k: Seq<char>| #[trigger]
                    saved_servers@.contains_key(k) ==> saved_servers@[k].id@ == k,
            decreases saved.len() - i,
        {
            let server = saved[i].clone();
            let ghost before = saved_servers@;
            saved_servers.insert(server.id.clone(), server);
            proof {
                assert(saved_servers@.map_values(|s: SavedServerConfig| s@) =~= before.map_values(
                    |s: SavedServerConfig| s@,
                ).insert(saved@[i as int].id@, saved@[i as int]@));
            }
            i = i + 1;
        }
        let r = ConnectionManager { active: IdMap::new(), saved_servers };
        proof {
            assert(r@.active =~= Map::<Seq<char>, ConnectionConfigView>::empty());
            assert(r@.pools =~= Map::<Seq<char>, PoolHandle>::empty());
        }
        r
    }

    /// How the registry shows the server `id`, if it knows it.
    pub fn get_server_info(&self, id: &str) -> (r: Option<ServerInfo>)
        ensures
            opt_info(r) == self@.record(id@),
            r matches Some(info) ==> info.id@ == id@,
    {
        proof {
            use_type_invariant(self);
        }
        match self.active.get(id) {
            Some(server) => Some(info_of_config(&server.config, true)),
            None => match self.saved_servers.get(id) {
                Some(server) => Some(info_of_saved(server)),
                None => None,
            },
        }
    }

    /// All servers that the registry knows, saved or active, each once.
    pub fn list_servers(&self) -> (r: Vec<ServerInfo>)
        ensures
            self@.listed_by(info_views(r@)),
    {
        proof {
            use_type_invariant(self);
        }
        let mut out: Vec<ServerInfo> = Vec::new();
        let saved_count = self.saved_servers.len();
        let active_count = self.active.len();
        let ghost saved_keys = self.saved_servers.key_seq();
        let ghost active_keys = self.active.key_seq();
        let mut i: usize = 0;
        while i < saved_count
            invariant
                i <= saved_count,
                saved_count == saved_keys.len(),
                saved_keys == self.saved_servers.key_seq(),
                self.keyed_by_id(),
                out@.len() == i,
                forall|j: int|
                    0 <= j < i ==> (#[trigger] out@[j])@.id == saved_keys[j] && self@.record(
                        saved_keys[j],
                    ) == Some(out@[j]@),
            decreases saved_count - i,
        {
            let key = self.saved_servers.key_at(i);
            let server = self.saved_servers.value_at(i);
            let info = match self.active.get(key.as_str()) {
                Some(active) => info_of_config(&active.config, true),
                None => info_of_saved(server),
            };
            out.push(info);
            i = i + 1;
        }
        let ghost mut source: Seq<int> = Seq::new(saved_count as nat, |j: int| j);
        let ghost mut slot: Seq<int> = Seq::empty();
        let mut p: usize = 0;
        while p < active_count
            invariant
                p <= active_count,
                active_count == active_keys.len(),
                active_keys == self.active.key_seq(),
                saved_count == saved_keys.len(),
                saved_keys == self.saved_servers.key_seq(),
                self.saved_servers.listed(),
                self.active.listed(),
                self.keyed_by_id(),
                saved_count <= out@.len(),
                source.len() == out@.len(),
                slot.len() == p,
                forall|j: int|
                    0 <= j < out@.len() ==> self@.record((#[trigger] out@[j])@.id) == Some(
                        out@[j]@,
                    ),
                forall|j: int| 0 <= j < saved_count ==> (#[trigger] out@[j])@.id == saved_keys[j],
                forall|j: int|
                    saved_count <= j < out@.len() ==> 0 <= #[trigger] source[j] < p
                        && active_keys[source[j]] == out@[j]@.id && !saved_keys.contains(
                        out@[j]@.id,
                    ),
                forall|j: int, k: int|
                    saved_count <= j < k < out@.len() ==> #[trigger] source[j] < #[trigger] source[k],
                forall|q: int|
                    0 <= q < p && !saved_keys.contains(active_keys[q]) ==> 0 <= #[trigger] slot[q]
                        < out@.len() && out@[slot[q]]@.id == active_keys[q],
            decreases active_count - p,
        {
            let key = self.active.key_at(p);
            let active = self.active.value_at(p);
            if !self.saved_servers.contains_key(key.as_str()) {
                out.push(info_of_config(&active.config, true));
                proof {
                    source = source.push(p as int);
                    slot = slot.push(out@.len() - 1);
                }
            } else {
                proof {
                    slot = slot.push(0);
                }
            }
            p = p + 1;
        }
        proof {
            let infos = info_views(out@);
            assert forall|a: int, b: int| 0 <= a < b < infos.len() implies (#[trigger] infos[a]).id
                != (#[trigger] infos[b]).id by {
                if b < saved_count {
                    assert(saved_keys[a] != saved_keys[b]);
                } else if a < saved_count {
                    assert(saved_keys.contains(saved_keys[a]));
                    assert(0 <= source[b]);
                    assert(!saved_keys.contains(out@[b]@.id));
                } else {
                    assert(source[a] < source[b]);
                    assert(active_keys[source[a]] != active_keys[source[b]]);
                }
            }
            assert forall|id: Seq<char>| #[trigger] self@.ids().contains(id) implies exists|i: int|
                0 <= i < infos.len() && (#[trigger] infos[i]).id == id by {
                if saved_keys.contains(id) {
                    let j = saved_keys.index_of(id);
                    assert(infos[j].id == id);
                } else {
                    assert(active_keys.contains(id));
                    let q = active_keys.index_of(id);
                    assert(active_keys[q] == id);
                    let j = slot[q];
                    assert(infos[j].id == id);
                }
            }
            assert forall|i: int| 0 <= i < infos.len() implies self@.record(
                (#[trigger] infos[i]).id,
            ) == Some(infos[i]) by {
                assert(infos[i] == out@[i]@);
            }
        }
        out
    }

    /// The pool of the server `id`, from which the caller leases a
    /// connection and to which the connection goes back when the caller is
    /// done with it.
    pub fn get_client(&self, id: &str) -> (r: Result<&PoolHandle, DashboardError>)
        ensures
            match r {
                Ok(pool) => self@.pools.contains_key(id@) && *pool == self@.pools[id@]
                    && made_with(*pool) == fixed_policy(),
                Err(e) => !self@.pools.contains_key(id@) && e.kind
                    == ErrorKind::ConnectionNotFound && e.message@ == "Connection not found"@,
            },
    {
        proof {
            use_type_invariant(self);
        }
        match self.active.get(id) {
            Some(server) => Ok(&server.pool),
            None => Err(DashboardError::new(ErrorKind::ConnectionNotFound, "Connection not found")),
        }
    }

    /// The failure to report where a lease from the pool of `get_client`
    /// did not come: `detail` is the text that the pool gave.
    pub fn lease_failure(detail: &str) -> (r: DashboardError)
        ensures
            r.kind == ErrorKind::Connectivity,
            r.message@ == "Failed to get client: "@ + detail@,
    {
        DashboardError::with_detail(ErrorKind::Connectivity, "Failed to get client: ", detail)
    }

    /// First step of adding `config`: builds its pool under the fixed
    /// policy. Nothing is persisted and the registry is not touched.
    pub fn prepare_connection(config: ConnectionConfig) -> (r: Result<
        PendingConnection,
        DashboardError,
    >)
        ensures
            r is Err <==> config.database@.len() == 0,
            r matches Ok(p) ==> p.config() == config && p.purpose() == Purpose::Add,
            r matches Err(e) ==> e.kind == ErrorKind::PoolCreation
                && "Failed to create pool: "@.is_prefix_of(e.message@),
    {
        match PoolFactory::build(&config) {
            Ok(pool) => Ok(PendingConnection { config, pool, purpose: Purpose::Add }),
            Err(e) => Err(e),
        }
    }

    /// Last step of adding a server: `stored` tells whether its record and
    /// its secret were persisted. If so, the server is installed as saved
    /// and active with its pool. If not, the registry stays as it was and
    /// the failure is reported with the text that the storage gave.
    pub fn add_connection(&mut self, validated: ValidatedConnection, stored: Result<(), String>) -> (r:
        Result<(), DashboardError>)
        ensures
            match stored {
                Ok(_) => r is Ok && final(self)@ == old(self)@.with_added(
                    validated.config()@,
                    validated.pool_handle(),
                ),
                Err(text) => r matches Err(e) && e.kind == ErrorKind::Storage && e.message@
                    == text@ && final(self)@ == old(self)@,
            },
    {
        match stored {
            Ok(_) => {},
            Err(text) => {
                return Err(DashboardError::new(ErrorKind::Storage, text.as_str()));
            },
        }
        proof {
            use_type_invariant(&*self);
        }
        let ghost pre = *self;
        let record = validated.saved_config();
        proof {
            use_type_invariant(&validated);
        }
        let ValidatedConnection { config, pool, purpose: _ } = validated;
        let ghost added = config@;
        let mut saved: IdMap<SavedServerConfig> = IdMap::new();
        std::mem::swap(&mut saved, &mut self.saved_servers);
        saved.insert(record.id.clone(), record);
        self.saved_servers = saved;
        let mut active: IdMap<ActiveServer> = IdMap::new();
        std::mem::swap(&mut active, &mut self.active);
        active.insert(config.id.clone(), ActiveServer { config, pool });
        self.active = active;
        proof {
            assert(self@.saved =~= pre@.saved.insert(added.identity.id, saved_form(added)));
            assert(self@.active =~= pre@.active.insert(added.identity.id, added));
            assert(self@.pools =~= pre@.pools.insert(added.identity.id, pool));
        }
        Ok(())
    }

    /// First step of connecting the saved server `id` again: finds its
    /// record and builds a pool for it under the fixed policy. The registry
    /// is not touched.
    pub fn prepare_reconnect(&self, id: &str) -> (r: Result<PendingConnection, DashboardError>)
        ensures
            match r {
                Ok(p) => self@.saved.contains_key(id@) && p.config()@ == active_form(
                    self@.saved[id@],
                ) && p.purpose() == Purpose::Reconnect && self@.saved[id@].password.len() > 0
                    && self@.saved[id@].identity.database.len() > 0,
                Err(e) => if !self@.saved.contains_key(id@) {
                    e.kind == ErrorKind::ConnectionNotFound && e.message@ == "Server not found"@
                } else if self@.saved[id@].password.len() == 0 {
                    e.kind == ErrorKind::CredentialMissing && e.message@
                        == "Password required for reconnection"@
                } else {
                    self@.saved[id@].identity.database.len() == 0 && e.kind
                        == ErrorKind::PoolCreation && "Failed to create pool: "@.is_prefix_of(
                        e.message@,
                    )
                },
            },
    {
        let server = match self.saved_servers.get(id) {
            Some(server) => server,
            None => {
                return Err(DashboardError::new(ErrorKind::ConnectionNotFound, "Server not found"));
            },
        };
        if server.password.as_str().unicode_len() == 0 {
            return Err(
                DashboardError::new(
                    ErrorKind::CredentialMissing,
                    "Password required for reconnection",
                ),
            );
        }
        let config = ConnectionConfig {
            id: server.id.clone(),
            name: server.name.clone(),
            host: server.host.clone(),
            port: server.port,
            database: server.database.clone(),
            username: server.username.clone(),
            password: server.password.clone(),
            use_ssl: server.use_ssl,
        };
        match PoolFactory::build(&config) {
            Ok(pool) => Ok(PendingConnection { config, pool, purpose: Purpose::Reconnect }),
            Err(e) => Err(e),
        }
    }

    /// Last step of connecting a server again: installs it as active with
    /// its pool. The saved servers stay as they are, and nothing is to be
    /// persisted.
    pub fn reconnect(&mut self, validated: ValidatedConnection)
        ensures
            final(self)@ == old(self)@.with_reconnected(
                validated.config()@,
                validated.pool_handle(),
            ),
    {
        proof {
            use_type_invariant(&*self);
        }
        let ghost pre = *self;
        proof {
            use_type_invariant(&validated);
        }
        let ValidatedConnection { config, pool, purpose: _ } = validated;
        let ghost added = config@;
        let mut active: IdMap<ActiveServer> = IdMap::new();
        std::mem::swap(&mut active, &mut self.active);
        active.insert(config.id.clone(), ActiveServer { config, pool });
        self.active = active;
        proof {
            assert(self@.saved =~= pre@.saved);
            assert(self@.active =~= pre@.active.insert(added.identity.id, added));
            assert(self@.pools =~= pre@.pools.insert(added.identity.id, pool));
        }
    }

    /// Last step of removing the server `id`: `stored` tells whether its
    /// secret and its record were taken out of what is persisted. If so, the
    /// registry forgets the server, whether it knew it or not. If not, the
    /// registry stays as it was and the failure is reported.
    pub fn remove_connection(&mut self, id: &str, stored: Result<(), String>) -> (r: Result<
        (),
        DashboardError,
    >)
        ensures
            match stored {
                Ok(_) => r is Ok && final(self)@ == old(self)@.without(id@),
                Err(text) => r matches Err(e) && e.kind == ErrorKind::Storage && e.message@
                    == text@ && final(self)@ == old(self)@,
            },
    {
        match stored {
            Ok(_) => {},
            Err(text) => {
                return Err(DashboardError::new(ErrorKind::Storage, text.as_str()));
            },
        }
        proof {
            use_type_invariant(&*self);
        }
        let ghost pre = *self;
        let mut saved: IdMap<SavedServerConfig> = IdMap::new();
        std::mem::swap(&mut saved, &mut self.saved_servers);
        saved.remove(id);
        self.saved_servers = saved;
        let mut active: IdMap<ActiveServer> = IdMap::new();
        std::mem::swap(&mut active, &mut self.active);
        active.remove(id);
        self.active = active;
        proof {
            assert(self@.saved =~= pre@.saved.remove(id@));
            assert(self@.active =~= pre@.active.remove(id@));
            assert(self@.pools =~= pre@.pools.remove(id@));
        }
        Ok(())
    }

    /// The text with which a single trial connection to `config` is opened.
    pub fn connection_string(config: &ConnectionConfig) -> (r: String)
        ensures
            r@ == "host="@ + config.host@ + " port="@ + decimal_text(config.port as int)
                + " dbname="@ + config.database@ + " user="@ + config.username@ + " password="@
                + config.password@,
    {
        let mut text = String::from_str("host=");
        text.append(config.host.as_str());
        text.append(" port=");
        append_decimal(&mut text, config.port as i64);
        text.append(" dbname=");
        text.append(config.database.as_str());
        text.append(" user=");
        text.append(config.username.as_str());
        text.append(" password=");
        text.append(config.password.as_str());
        text
    }

    /// The report on a single trial connection to `config`: `outcome` is the
    /// server's version text where the connection came and the version
    /// could be read, `None` where only the version could not be read, and
    /// the text of the failure where no connection came. The report is made
    /// from these alone; the registry is not touched. A failure text that
    /// holds the secret is left out of the report.
    pub fn test_connection(config: &ConnectionConfig, outcome: Result<Option<String>, String>) -> (r:
        ConnectionTestResult)
        ensures
            match outcome {
                Ok(version) => r.success && r.message@ == "Connection successful"@ && opt_text(
                    r.postgres_version,
                ) == opt_text(version),
                Err(text) => !r.success && r.message@ == failure_report(config.password@, text@)
                    && r.postgres_version is None,
            },
    {
        match outcome {
            Ok(version) => ConnectionTestResult {
                success: true,
                message: String::from_str("Connection successful"),
                postgres_version: version,
            },
            Err(text) => {
                let leaks = config.password.as_str().unicode_len() > 0 && contains(
                    text.as_str(),
                    config.password.as_str(),
                );
                let message = if leaks {
                    String::from_str("Connection failed")
                } else {
                    let mut message = String::from_str("Connection failed: ");
                    message.append(text.as_str());
                    message
                };
                ConnectionTestResult { success: false, message, postgres_version: None }
            },
        }
    }
}

} // verus!
