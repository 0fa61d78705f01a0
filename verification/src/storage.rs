//! The saved server list: what is written to it, what is read back, and the
//! steps that change it together with the secret store.

use vstd::prelude::*;
use crate::types::ServerIdentity;

verus! {

/// A saved server. In memory it carries the secret; the stored list never does.
#[derive(Debug)]
pub struct SavedServerConfig {
    pub id: String,
    pub name: String,
    pub host: String,
    pub port: u16,
    pub database: String,
    pub username: String,
    pub use_ssl: bool,
    pub password: String,
}

/// The content of a [`SavedServerConfig`].
pub struct SavedServerConfigView {
    pub identity: ServerIdentity,
    pub password: Seq<char>,
}

impl View for SavedServerConfig {
    type V = SavedServerConfigView;

    open spec fn view(&self) -> SavedServerConfigView {
        SavedServerConfigView {
            identity: ServerIdentity {
                id: self.id@,
                name: self.name@,
                host: self.host@,
                port: self.port,
                database: self.database@,
                username: self.username@,
                use_ssl: self.use_ssl,
            },
            password: self.password@,
        }
    }
}

impl Clone for SavedServerConfig {
    fn clone(&self) -> (r: Self)
        ensures
            r == *self,
    {
        SavedServerConfig {
            id: self.id.clone(),
            name: self.name.clone(),
            host: self.host.clone(),
            port: self.port,
            database: self.database.clone(),
            username: self.username.clone(),
            use_ssl: self.use_ssl,
            password: self.password.clone(),
        }
    }
}

/// The content of the stored server list.
#[derive(Debug)]
pub struct StoredData {
    pub servers: Vec<SavedServerConfig>,
}

impl Default for StoredData {
    fn default() -> (r: Self)
        ensures
            r.servers@.len() == 0,
    {
        StoredData { servers: Vec::new() }
    }
}

/// One step of a change to what is persisted.
#[derive(Debug)]
pub enum StorageAction {
    /// Replace the stored list by this one.
    WriteList(StoredData),
    /// Put the secret of a server into the secret store.
    SetSecret { id: String, secret: String },
    /// Take the secret of a server out of the secret store; a secret that is
    /// not there is no failure.
    DeleteSecret { id: String },
}

/// The content of a [`StorageAction`].
pub enum StorageActionView {
    WriteList(Seq<SavedServerConfigView>),
    SetSecret { id: Seq<char>, secret: Seq<char> },
    DeleteSecret { id: Seq<char> },
}

impl View for StorageAction {
    type V = StorageActionView;

    open spec fn view(&self) -> StorageActionView {
        match *self {
            StorageAction::WriteList(data) => StorageActionView::WriteList(
                saved_views(data.servers@),
            ),
            StorageAction::SetSecret { id, secret } => StorageActionView::SetSecret {
                id: id@,
                secret: secret@,
            },
            StorageAction::DeleteSecret { id } => StorageActionView::DeleteSecret { id: id@ },
        }
    }
}

/// The contents of a list of saved servers, in order.
pub open spec fn saved_views(servers: Seq<SavedServerConfig>) -> Seq<SavedServerConfigView> {
    servers.map_values(|s: SavedServerConfig| s@)
}

/// The contents of a list of steps, in order.
pub open spec fn action_views(actions: Seq<StorageAction>) -> Seq<StorageActionView> {
    actions.map_values(|a: StorageAction| a@)
}

/// A saved server as the stored list holds it: without its secret.
pub open spec fn blanked(server: SavedServerConfigView) -> SavedServerConfigView {
    SavedServerConfigView { identity: server.identity, password: Seq::empty() }
}

/// The stored form of a list of saved servers: each without its secret.
pub open spec fn stored_records(servers: Seq<SavedServerConfigView>) -> Seq<
    SavedServerConfigView,
> {
    servers.map_values(|s: SavedServerConfigView| blanked(s))
}

/// The servers of a list whose id is not `id`, in order.
pub open spec fn without_id(servers: Seq<SavedServerConfigView>, id: Seq<char>) -> Seq<
    SavedServerConfigView,
> {
    servers.filter(|s: SavedServerConfigView| s.identity.id != id)
}

/// The list after `server` was saved: any server of the same id gives way,
/// and `server` stands last.
pub open spec fn with_server(
    servers: Seq<SavedServerConfigView>,
    server: SavedServerConfigView,
) -> Seq<SavedServerConfigView> {
    without_id(servers, server.identity.id).push(server)
}

/// The steps that save `server`: first the list is rewritten, then the
/// secret is stored, unless it is empty.
pub open spec fn add_plan(
    servers: Seq<SavedServerConfigView>,
    server: SavedServerConfigView,
) -> Seq<StorageActionView> {
    let write = StorageActionView::WriteList(stored_records(with_server(servers, server)));
    if server.password.len() > 0 {
        seq![
            write,
            StorageActionView::SetSecret { id: server.identity.id, secret: server.password },
        ]
    } else {
        seq![write]
    }
}

/// The steps that forget the server `id`: first its secret is deleted, then
/// the list is rewritten without it.
pub open spec fn remove_plan(servers: Seq<SavedServerConfigView>, id: Seq<char>) -> Seq<
    StorageActionView,
> {
    seq![
        StorageActionView::DeleteSecret { id },
        StorageActionView::WriteList(stored_records(without_id(servers, id))),
    ]
}

/// The secret at position `i` of `secrets`, and the empty one where there is
/// none.
pub open spec fn secret_at(secrets: Seq<Option<String>>, i: int) -> Seq<char> {
    if 0 <= i < secrets.len() {
        match secrets[i] {
            Some(s) => s@,
            None => Seq::empty(),
        }
    } else {
        Seq::empty()
    }
}

/// The servers read back from the stored `records`: each with its identity
/// as stored and with the secret that the secret store gave for it.
pub open spec fn loaded_records(
    records: Seq<SavedServerConfigView>,
    secrets: Seq<Option<String>>,
) -> Seq<SavedServerConfigView> {
    Seq::new(
        records.len(),
        |i: int| SavedServerConfigView { identity: records[i].identity, password: secret_at(secrets, i) },
    )
}

/// The identities of a list of saved servers, in order.
pub open spec fn identities(servers: Seq<SavedServerConfigView>) -> Seq<ServerIdentity> {
    servers.map_values(|s: SavedServerConfigView| s.identity)
}

/// Writing the list and reading it back gives every server its identity
/// again, in the same order. No secret is in what was written: the secrets
/// that come back are those that the secret store gave, whatever the servers
/// held before.
pub proof fn lemma_store_round_trip(
    servers: Seq<SavedServerConfigView>,
    secrets: Seq<Option<String>>,
)
    ensures
        identities(loaded_records(stored_records(servers), secrets)) == identities(servers),
        forall|i: int|
            0 <= i < servers.len() ==> (#[trigger] stored_records(servers)[i]).password.len() == 0,
        forall|i: int|
            0 <= i < servers.len() ==> (#[trigger] loaded_records(
                stored_records(servers),
                secrets,
            )[i]).password == secret_at(secrets, i),
{
    assert(identities(loaded_records(stored_records(servers), secrets)) =~= identities(servers));
}

fn blank_copy(server: &SavedServerConfig) -> (r: SavedServerConfig)
    ensures
        r@ == blanked(server@),
{
    SavedServerConfig {
        id: server.id.clone(),
        name: server.name.clone(),
        host: server.host.clone(),
        port: server.port,
        database: server.database.clone(),
        username: server.username.clone(),
        use_ssl: server.use_ssl,
        password: String::new(),
    }
}

/// What is written for `servers`: the same servers in the same order, each
/// without its secret.
pub fn save_servers(servers: &Vec<SavedServerConfig>) -> (r: StoredData)
    ensures
        saved_views(r.servers@) == stored_records(saved_views(servers@)),
{
    let mut records: Vec<SavedServerConfig> = Vec::new();
    let mut i: usize = 0;
    while i < servers.len()
        invariant
            i <= servers.len(),
            records@.len() == i,
            forall|j: int| 0 <= j < i ==> (#[trigger] records@[j])@ == blanked(servers@[j]@),
        decreases servers.len() - i,
    {
        records.push(blank_copy(&servers[i]));
        i = i + 1;
    }
    assert(saved_views(records@) =~= stored_records(saved_views(servers@)));
    StoredData { servers: records }
}

fn remaining(servers: &Vec<SavedServerConfig>, id: &String) -> (r: Vec<SavedServerConfig>)
    ensures
        saved_views(r@) == without_id(saved_views(servers@), id@),
{
    let mut kept: Vec<SavedServerConfig> = Vec::new();
    let mut i: usize = 0;
    while i < servers.len()
        invariant
            i <= servers.len(),
            saved_views(kept@) == without_id(saved_views(servers@.take(i as int)), id@),
        decreases servers.len() - i,
    {
        let ghost before = saved_views(servers@.take(i as int));
        proof {
            reveal(Seq::filter);
            assert(servers@.take(i + 1) =~= servers@.take(i as int).push(servers@[i as int]));
            assert(saved_views(servers@.take(i + 1)) =~= before.push(servers@[i as int]@));
            assert(saved_views(servers@.take(i + 1)).drop_last() =~= before);
        }
        if servers[i].id != *id {
            kept.push(servers[i].clone());
            proof {
                assert(saved_views(kept@) =~= without_id(before, id@).push(servers@[i as int]@));
            }
        }
        i = i + 1;
    }
    proof {
        assert(servers@.take(i as int) =~= servers@);
    }
    kept
}

/// Plans the saving of `config` into the list `servers`.
pub fn add_server(servers: &Vec<SavedServerConfig>, config: &SavedServerConfig) -> (r: Vec<
    StorageAction,
>)
    ensures
        action_views(r@) == add_plan(saved_views(servers@), config@),
{
    let mut next = remaining(servers, &config.id);
    next.push(config.clone());
    assert(saved_views(next@) =~= with_server(saved_views(servers@), config@));
    let mut plan: Vec<StorageAction> = Vec::new();
    plan.push(StorageAction::WriteList(save_servers(&next)));
    if config.password.as_str().unicode_len() > 0 {
        plan.push(
            StorageAction::SetSecret { id: config.id.clone(), secret: config.password.clone() },
        );
    }
    assert(action_views(plan@) =~= add_plan(saved_views(servers@), config@));
    plan
}

/// Plans the forgetting of the server `id` from the list `servers`. A server
/// that is not in the list is no failure.
pub fn remove_server(servers: &Vec<SavedServerConfig>, id: &str) -> (r: Vec<StorageAction>)
    ensures
        action_views(r@) == remove_plan(saved_views(servers@), id@),
{
    let key = String::from_str(id);
    let next = remaining(servers, &key);
    let mut plan: Vec<StorageAction> = Vec::new();
    plan.push(StorageAction::DeleteSecret { id: key });
    plan.push(StorageAction::WriteList(save_servers(&next)));
    assert(action_views(plan@) =~= remove_plan(saved_views(servers@), id@));
    plan
}

/// Plans a change of the secret of the server `id`. The list stays as it is.
pub fn update_server_password(id: &str, password: &str) -> (r: Vec<StorageAction>)
    ensures
        action_views(r@) == seq![StorageActionView::SetSecret { id: id@, secret: password@ }],
{
    let mut plan: Vec<StorageAction> = Vec::new();
    plan.push(
        StorageAction::SetSecret { id: String::from_str(id), secret: String::from_str(password) },
    );
    assert(action_views(plan@) =~= seq![
        StorageActionView::SetSecret { id: id@, secret: password@ },
    ]);
    plan
}

/// Builds the saved servers from what was read: `stored` is the list, or
/// `None` where it could not be read, and `secrets` holds at each position
/// what the secret store gave for the server at that position.
pub fn load_servers(stored: Option<StoredData>, secrets: &Vec<Option<String>>) -> (r: Vec<
    SavedServerConfig,
>)
    ensures
        saved_views(r@) == match stored {
            Some(data) => loaded_records(saved_views(data.servers@), secrets@),
            None => Seq::empty(),
        },
{
    let mut servers: Vec<SavedServerConfig> = Vec::new();
    let data = match stored {
        Some(data) => data,
        None => {
            assert(saved_views(servers@) =~= Seq::empty());
            return servers;
        },
    };
    let mut i: usize = 0;
    while i < data.servers.len()
        invariant
            i <= data.servers.len(),
            saved_views(servers@) == loaded_records(saved_views(data.servers@), secrets@).take(
                i as int,
            ),
        decreases data.servers.len() - i,
    {
        let record = &data.servers[i];
        let password = if i < secrets.len() {
            match &secrets[i] {
                Some(s) => s.clone(),
                None => String::new(),
            }
        } else {
            String::new()
        };
        servers.push(
            SavedServerConfig {
                id: record.id.clone(),
                name: record.name.clone(),
                host: record.host.clone(),
                port: record.port,
                database: record.database.clone(),
                username: record.username.clone(),
                use_ssl: record.use_ssl,
                password,
            },
        );
        proof {
            let all = loaded_records(saved_views(data.servers@), secrets@);
            assert(all.take(i + 1) =~= all.take(i as int).push(all[i as int]));
            assert(saved_views(servers@) =~= all.take(i + 1));
        }
        i = i + 1;
    }
    proof {
        let all = loaded_records(saved_views(data.servers@), secrets@);
        assert(all.take(i as int) =~= all);
    }
    servers
}

} // verus!
