use pg_dashboard::storage::{
    add_server, load_servers, remove_server, save_servers, update_server_password,
    SavedServerConfig, StorageAction, StoredData,
};

fn saved(id: &str, name: &str, password: &str) -> SavedServerConfig {
    SavedServerConfig {
        id: id.to_string(),
        name: name.to_string(),
        host: "db.example.org".to_string(),
        port: 5432,
        database: "app".to_string(),
        username: "admin".to_string(),
        use_ssl: true,
        password: password.to_string(),
    }
}

fn written(action: &StorageAction) -> &Vec<SavedServerConfig> {
    match action {
        StorageAction::WriteList(data) => &data.servers,
        _ => panic!("no list is written"),
    }
}

#[test]
fn adding_writes_the_list_and_then_the_secret() {
    let servers = vec![saved("a", "first", "x"), saved("b", "second", "y")];
    let plan = add_server(&servers, &saved("c", "third", "hunter2"));
    assert_eq!(plan.len(), 2);
    let list = written(&plan[0]);
    let ids: Vec<&str> = list.iter().map(|s| s.id.as_str()).collect();
    assert_eq!(ids, vec!["a", "b", "c"]);
    assert!(list.iter().all(|s| s.password.is_empty()));
    match &plan[1] {
        StorageAction::SetSecret { id, secret } => {
            assert_eq!(id, "c");
            assert_eq!(secret, "hunter2");
        }
        _ => panic!("the secret is not stored"),
    }
}

#[test]
fn adding_replaces_a_server_of_the_same_id() {
    let servers = vec![saved("a", "old", "x"), saved("b", "second", "y")];
    let plan = add_server(&servers, &saved("a", "new", "z"));
    let list = written(&plan[0]);
    assert_eq!(list.len(), 2);
    assert_eq!(list[0].id, "b");
    assert_eq!(list[1].id, "a");
    assert_eq!(list[1].name, "new");
}

#[test]
fn adding_without_a_secret_stores_none() {
    let plan = add_server(&Vec::new(), &saved("a", "first", ""));
    assert_eq!(plan.len(), 1);
    assert_eq!(written(&plan[0]).len(), 1);
}

#[test]
fn removing_deletes_the_secret_and_then_writes_the_list() {
    let servers = vec![saved("a", "first", "x"), saved("b", "second", "y")];
    let plan = remove_server(&servers, "a");
    assert_eq!(plan.len(), 2);
    match &plan[0] {
        StorageAction::DeleteSecret { id } => assert_eq!(id, "a"),
        _ => panic!("the secret is not deleted first"),
    }
    let list = written(&plan[1]);
    assert_eq!(list.len(), 1);
    assert_eq!(list[0].id, "b");
    assert_eq!(list[0].password, "");
}

#[test]
fn removing_an_unknown_server_is_no_failure() {
    let servers = vec![saved("a", "first", "x")];
    let plan = remove_server(&servers, "zzz");
    assert_eq!(plan.len(), 2);
    assert_eq!(written(&plan[1]).len(), 1);
}

#[test]
fn updating_a_password_touches_the_secret_only() {
    let plan = update_server_password("a", "new secret");
    assert_eq!(plan.len(), 1);
    match &plan[0] {
        StorageAction::SetSecret { id, secret } => {
            assert_eq!(id, "a");
            assert_eq!(secret, "new secret");
        }
        _ => panic!("no secret is stored"),
    }
}

#[test]
fn stored_form_holds_identities_and_no_secret() {
    let servers = vec![saved("a", "first", "x"), saved("b", "second", "")];
    let data = save_servers(&servers);
    assert_eq!(data.servers.len(), 2);
    for (stored, given) in data.servers.iter().zip(servers.iter()) {
        assert_eq!(stored.id, given.id);
        assert_eq!(stored.name, given.name);
        assert_eq!(stored.host, given.host);
        assert_eq!(stored.port, given.port);
        assert_eq!(stored.database, given.database);
        assert_eq!(stored.username, given.username);
        assert_eq!(stored.use_ssl, given.use_ssl);
        assert_eq!(stored.password, "");
    }
}

#[test]
fn writing_and_reading_gives_the_identities_back() {
    let servers = vec![saved("a", "first", "x"), saved("b", "second", "y"), saved("c", "third", "")];
    let data = save_servers(&servers);
    let secrets = vec![Some("from vault".to_string()), None, Some("other".to_string())];
    let loaded = load_servers(Some(data), &secrets);
    assert_eq!(loaded.len(), 3);
    for (back, given) in loaded.iter().zip(servers.iter()) {
        assert_eq!(back.id, given.id);
        assert_eq!(back.name, given.name);
        assert_eq!(back.host, given.host);
        assert_eq!(back.port, given.port);
        assert_eq!(back.database, given.database);
        assert_eq!(back.username, given.username);
        assert_eq!(back.use_ssl, given.use_ssl);
    }
    assert_eq!(loaded[0].password, "from vault");
    assert_eq!(loaded[1].password, "");
    assert_eq!(loaded[2].password, "other");
}

#[test]
fn a_list_that_could_not_be_read_loads_as_empty() {
    assert!(load_servers(None, &vec![Some("x".to_string())]).is_empty());
    assert!(load_servers(Some(StoredData::default()), &Vec::new()).is_empty());
}

#[test]
fn secrets_that_are_missing_load_as_empty() {
    let data = save_servers(&vec![saved("a", "first", "x"), saved("b", "second", "y")]);
    let loaded = load_servers(Some(data), &vec![Some("one".to_string())]);
    assert_eq!(loaded[0].password, "one");
    assert_eq!(loaded[1].password, "");
}
