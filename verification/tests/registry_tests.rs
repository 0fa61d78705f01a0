use pg_dashboard::connection::{ConnectionManager, ValidatedConnection};
use pg_dashboard::error::{DashboardError, ErrorKind};
use pg_dashboard::pool::{PoolFactory, Recycling};
use pg_dashboard::storage::SavedServerConfig;
use pg_dashboard::types::ConnectionConfig;

fn config(id: &str, name: &str) -> ConnectionConfig {
    ConnectionConfig {
        id: id.to_string(),
        name: name.to_string(),
        host: "localhost".to_string(),
        port: 5432,
        database: "app".to_string(),
        username: "admin".to_string(),
        password: "s3cret".to_string(),
        use_ssl: false,
    }
}

fn saved(id: &str, name: &str, password: &str) -> SavedServerConfig {
    SavedServerConfig {
        id: id.to_string(),
        name: name.to_string(),
        host: "db.example.org".to_string(),
        port: 6543,
        database: "app".to_string(),
        username: "reader".to_string(),
        use_ssl: true,
        password: password.to_string(),
    }
}

fn validated(config: ConnectionConfig) -> ValidatedConnection {
    let pending = match ConnectionManager::prepare_connection(config) {
        Ok(p) => p,
        Err(e) => panic!("no pool: {}", e.message),
    };
    match pending.validated(Ok(())) {
        Ok(v) => v,
        Err(e) => panic!("not validated: {}", e.message),
    }
}

fn add(manager: &mut ConnectionManager, config: ConnectionConfig) {
    let ready = validated(config);
    assert!(manager.add_connection(ready, Ok(())).is_ok());
}

fn listed_ids(manager: &ConnectionManager) -> Vec<String> {
    let mut ids: Vec<String> = manager.list_servers().into_iter().map(|s| s.id).collect();
    ids.sort();
    ids
}

#[test]
fn the_pool_policy_is_fixed() {
    let policy = PoolFactory::policy();
    assert_eq!(policy.max_size, 16);
    assert_eq!(policy.wait_secs, 30);
    assert_eq!(policy.create_secs, 30);
    assert_eq!(policy.recycle_secs, 10);
    assert_eq!(policy.recycling, Recycling::Fast);
}

#[test]
fn a_pool_is_built_under_the_policy_without_connecting() {
    let pool = match PoolFactory::build(&config("a", "first")) {
        Ok(pool) => pool,
        Err(e) => panic!("no pool: {}", e.message),
    };
    let status = pool.inner.status();
    assert_eq!(status.max_size, 16);
    assert_eq!(status.size, 0);
    let timeouts = pool.inner.timeouts();
    assert_eq!(timeouts.wait, Some(std::time::Duration::from_secs(30)));
    assert_eq!(timeouts.create, Some(std::time::Duration::from_secs(30)));
    assert_eq!(timeouts.recycle, Some(std::time::Duration::from_secs(10)));
    let shown = format!("{:?}", pool.inner.manager());
    assert!(shown.contains("recycling_method: Fast"), "{}", shown);
    assert!(shown.contains("localhost"), "{}", shown);
    assert!(shown.contains("5432"), "{}", shown);
    assert!(shown.contains("admin"), "{}", shown);
    assert!(shown.contains("app"), "{}", shown);
}

#[test]
fn no_pool_is_built_without_a_database_name() {
    let mut nameless = config("a", "first");
    nameless.database = String::new();
    match PoolFactory::build(&nameless) {
        Ok(_) => panic!("a pool was built"),
        Err(e) => {
            assert_eq!(e.kind, ErrorKind::PoolCreation);
            assert!(e.message.starts_with("Failed to create pool: "));
            assert!(e.message.len() > "Failed to create pool: ".len());
        }
    }
    let mut again = config("b", "second");
    again.database = String::new();
    match ConnectionManager::prepare_connection(again) {
        Ok(_) => panic!("a pool was built"),
        Err(e) => assert_eq!(e.kind, ErrorKind::PoolCreation),
    }
}

#[test]
fn a_new_registry_shows_the_saved_servers_as_disconnected() {
    let manager = ConnectionManager::new(vec![saved("a", "first", "x"), saved("b", "second", "")]);
    assert_eq!(listed_ids(&manager), vec!["a".to_string(), "b".to_string()]);
    let info = manager.get_server_info("a").expect("known");
    assert_eq!(info.id, "a");
    assert_eq!(info.name, "first");
    assert_eq!(info.host, "db.example.org");
    assert_eq!(info.port, 6543);
    assert_eq!(info.database, "app");
    assert_eq!(info.username, "reader");
    assert!(!info.connected);
    assert_eq!(info.postgres_version, None);
    assert!(manager.get_server_info("c").is_none());
}

#[test]
fn the_last_saved_record_of_an_id_counts() {
    let manager = ConnectionManager::new(vec![saved("a", "old", "x"), saved("a", "new", "y")]);
    assert_eq!(listed_ids(&manager), vec!["a".to_string()]);
    assert_eq!(manager.get_server_info("a").expect("known").name, "new");
}

#[test]
fn an_added_server_is_shown_as_connected() {
    let mut manager = ConnectionManager::new(Vec::new());
    add(&mut manager, config("a", "first"));
    let info = manager.get_server_info("a").expect("known");
    assert!(info.connected);
    assert_eq!(info.name, "first");
    assert_eq!(info.host, "localhost");
    assert_eq!(info.port, 5432);
    assert_eq!(listed_ids(&manager), vec!["a".to_string()]);
    assert!(manager.get_client("a").is_ok());
}

#[test]
fn after_add_and_remove_the_server_is_unknown() {
    let mut manager = ConnectionManager::new(vec![saved("keep", "other", "x")]);
    add(&mut manager, config("a", "first"));
    assert!(manager.remove_connection("a", Ok(())).is_ok());
    assert!(manager.get_server_info("a").is_none());
    assert_eq!(listed_ids(&manager), vec!["keep".to_string()]);
    assert!(manager.get_client("a").is_err());
}

#[test]
fn forgetting_an_unknown_server_is_no_failure() {
    let mut manager = ConnectionManager::new(vec![saved("a", "first", "x")]);
    assert!(manager.remove_connection("nobody", Ok(())).is_ok());
    assert_eq!(listed_ids(&manager), vec!["a".to_string()]);
}

#[test]
fn a_removal_that_could_not_be_persisted_changes_nothing() {
    let mut manager = ConnectionManager::new(vec![saved("a", "first", "x")]);
    match manager.remove_connection("a", Err("disk full".to_string())) {
        Ok(()) => panic!("removed"),
        Err(e) => {
            assert_eq!(e.kind, ErrorKind::Storage);
            assert_eq!(e.message, "disk full");
        }
    }
    assert!(manager.get_server_info("a").is_some());
}

#[test]
fn a_failed_lease_validates_nothing() {
    let pending = ConnectionManager::prepare_connection(config("a", "first")).expect("pool");
    match pending.validated(Err("connection refused".to_string())) {
        Ok(_) => panic!("validated"),
        Err(e) => {
            assert_eq!(e.kind, ErrorKind::Connectivity);
            assert_eq!(e.message, "Failed to get connection from pool: connection refused");
        }
    }
}

#[test]
fn an_addition_that_could_not_be_persisted_installs_nothing() {
    let mut manager = ConnectionManager::new(Vec::new());
    let ready = validated(config("a", "first"));
    match manager.add_connection(ready, Err("Failed to write config file: denied".to_string())) {
        Ok(()) => panic!("installed"),
        Err(e) => {
            assert_eq!(e.kind, ErrorKind::Storage);
            assert_eq!(e.message, "Failed to write config file: denied");
        }
    }
    assert!(manager.get_server_info("a").is_none());
    assert!(manager.list_servers().is_empty());
}

#[test]
fn the_record_to_persist_is_that_of_the_validated_server() {
    let ready = validated(config("a", "first"));
    let record = ready.saved_config();
    assert_eq!(record.id, "a");
    assert_eq!(record.name, "first");
    assert_eq!(record.host, "localhost");
    assert_eq!(record.port, 5432);
    assert_eq!(record.database, "app");
    assert_eq!(record.username, "admin");
    assert_eq!(record.password, "s3cret");
    assert!(!record.use_ssl);
}

#[test]
fn an_active_server_overrides_its_saved_record_in_the_list() {
    let mut manager = ConnectionManager::new(vec![saved("a", "saved name", "x"), saved("b", "idle", "y")]);
    let pending = manager.prepare_reconnect("a").expect("pool");
    let ready = pending.validated(Ok(())).expect("validated");
    manager.reconnect(ready);
    let servers = manager.list_servers();
    assert_eq!(servers.len(), 2);
    let a = servers.iter().find(|s| s.id == "a").expect("listed");
    let b = servers.iter().find(|s| s.id == "b").expect("listed");
    assert!(a.connected);
    assert!(!b.connected);
}

#[test]
fn reconnect_needs_a_saved_secret() {
    let manager = ConnectionManager::new(vec![saved("a", "first", "")]);
    match manager.prepare_reconnect("a") {
        Ok(_) => panic!("prepared without a secret"),
        Err(e) => {
            assert_eq!(e.kind, ErrorKind::CredentialMissing);
            assert_eq!(e.message, "Password required for reconnection");
        }
    }
}

#[test]
fn reconnect_needs_a_saved_server() {
    let manager = ConnectionManager::new(Vec::new());
    match manager.prepare_reconnect("a") {
        Ok(_) => panic!("prepared an unknown server"),
        Err(e) => {
            assert_eq!(e.kind, ErrorKind::ConnectionNotFound);
            assert_eq!(e.message, "Server not found");
        }
    }
}

#[test]
fn reconnect_flips_the_server_to_connected() {
    let mut manager = ConnectionManager::new(vec![saved("a", "first", "pw")]);
    assert!(!manager.get_server_info("a").expect("known").connected);
    let pending = manager.prepare_reconnect("a").expect("pool");
    let ready = pending.validated(Ok(())).expect("validated");
    manager.reconnect(ready);
    let info = manager.get_server_info("a").expect("known");
    assert!(info.connected);
    assert_eq!(info.name, "first");
    assert_eq!(info.host, "db.example.org");
    assert!(manager.get_client("a").is_ok());
}

#[test]
fn a_failed_reconnect_lease_is_reported_in_its_own_words() {
    let manager = ConnectionManager::new(vec![saved("a", "first", "pw")]);
    let pending = manager.prepare_reconnect("a").expect("pool");
    match pending.validated(Err("timed out".to_string())) {
        Ok(_) => panic!("validated"),
        Err(e) => {
            assert_eq!(e.kind, ErrorKind::Connectivity);
            assert_eq!(e.message, "Failed to connect: timed out");
        }
    }
    assert!(!manager.get_server_info("a").expect("known").connected);
}

#[test]
fn a_client_is_only_to_be_had_for_an_active_server() {
    let manager = ConnectionManager::new(vec![saved("a", "first", "pw")]);
    match manager.get_client("a") {
        Ok(_) => panic!("a pool for a server that is not active"),
        Err(e) => {
            assert_eq!(e.kind, ErrorKind::ConnectionNotFound);
            assert_eq!(e.message, "Connection not found");
        }
    }
    let failure = ConnectionManager::lease_failure("pool closed");
    assert_eq!(failure.kind, ErrorKind::Connectivity);
    assert_eq!(failure.message, "Failed to get client: pool closed");
}

#[test]
fn adding_again_replaces_the_server() {
    let mut manager = ConnectionManager::new(Vec::new());
    add(&mut manager, config("a", "first"));
    add(&mut manager, config("a", "renamed"));
    add(&mut manager, config("b", "second"));
    assert_eq!(listed_ids(&manager), vec!["a".to_string(), "b".to_string()]);
    assert_eq!(manager.get_server_info("a").expect("known").name, "renamed");
}

#[test]
fn the_trial_connection_text_names_every_part() {
    let text = ConnectionManager::connection_string(&config("a", "first"));
    assert_eq!(text, "host=localhost port=5432 dbname=app user=admin password=s3cret");
}

#[test]
fn the_trial_report_tells_success_with_the_version() {
    let server = config("a", "first");
    let report =
        ConnectionManager::test_connection(&server, Ok(Some("PostgreSQL 16.1".to_string())));
    assert!(report.success);
    assert_eq!(report.message, "Connection successful");
    assert_eq!(report.postgres_version, Some("PostgreSQL 16.1".to_string()));
    let unread = ConnectionManager::test_connection(&server, Ok(None));
    assert!(unread.success);
    assert_eq!(unread.postgres_version, None);
}

#[test]
fn the_trial_report_tells_failure_in_the_words_of_the_error() {
    let server = config("a", "first");
    let report = ConnectionManager::test_connection(&server, Err("connection refused".to_string()));
    assert!(!report.success);
    assert_eq!(report.message, "Connection failed: connection refused");
    assert_eq!(report.postgres_version, None);
}

#[test]
fn the_trial_report_never_repeats_the_secret() {
    let server = config("a", "first");
    let report = ConnectionManager::test_connection(
        &server,
        Err("invalid connection string: password=s3cret".to_string()),
    );
    assert!(!report.success);
    assert_eq!(report.message, "Connection failed");
    assert!(!report.message.contains("s3cret"));
    let mut open = config("b", "second");
    open.password = String::new();
    let plain = ConnectionManager::test_connection(&open, Err("refused".to_string()));
    assert_eq!(plain.message, "Connection failed: refused");
}

#[test]
fn a_failure_carries_its_kind_and_its_text() {
    let plain = DashboardError::new(ErrorKind::Parse, "Invalid node format");
    assert_eq!(plain.kind, ErrorKind::Parse);
    assert_eq!(plain.to_string(), "Invalid node format");
    let detailed = DashboardError::with_detail(ErrorKind::Execution, "Failed: ", "no such table");
    assert_eq!(detailed.kind, ErrorKind::Execution);
    assert_eq!(detailed.to_string(), "Failed: no such table");
    let copy = detailed.clone();
    assert_eq!(copy.kind, detailed.kind);
    assert_eq!(copy.message, detailed.message);
}

#[test]
fn a_pending_connection_offers_its_pool_for_the_first_lease() {
    let pending = ConnectionManager::prepare_connection(config("a", "first")).expect("pool");
    let status = pending.pool().inner.status();
    assert_eq!(status.max_size, 16);
    assert_eq!(status.size, 0);
}

#[test]
fn the_registry_hands_out_the_pool_that_was_installed() {
    let mut manager = ConnectionManager::new(Vec::new());
    add(&mut manager, config("a", "first"));
    let pool = manager.get_client("a").expect("active");
    assert_eq!(pool.inner.status().max_size, 16);
    assert!(!pool.inner.is_closed());
}
