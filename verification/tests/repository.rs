use clickmate_store::{
    check_database_file, check_database_file_in, ClickhouseConnection, ControlledErrors,
    Repository, RepositoryError, StorageError,
};

fn open_temp_repository(passphrase: &str) -> (tempfile::TempDir, String, Repository) {
    let dir = tempfile::TempDir::new().unwrap();
    let data_dir = dir.path().to_str().unwrap().to_string();
    let path = check_database_file_in(&data_dir, false).unwrap();
    let repo = Repository::open_file(&path, &passphrase.to_string()).unwrap();
    (dir, path, repo)
}

fn sample_profile() -> ClickhouseConnection {
    ClickhouseConnection {
        id: None,
        name: Some("main".to_string()),
        host: "db1".to_string(),
        port: 9000,
        secure: false,
        username: "default".to_string(),
        password: Some("stored-password".to_string()),
        database: Some("analytics".to_string()),
    }
}

fn minimal_profile() -> ClickhouseConnection {
    ClickhouseConnection {
        id: None,
        name: None,
        host: "db1".to_string(),
        port: 9000,
        secure: false,
        username: "default".to_string(),
        password: None,
        database: None,
    }
}

#[test]
fn fresh_open_create_get_all_scenario() {
    let dir = tempfile::TempDir::new().unwrap();
    let data_dir = dir.path().to_str().unwrap().to_string();
    // A fresh environment probes as first time.
    let probe = check_database_file_in(&data_dir, true);
    assert!(probe.unwrap_err().is_first_time());
    // Opening succeeds and creates the file; creating and reloading shows
    // exactly one record with the stored fields and a populated id.
    let path = check_database_file_in(&data_dir, false).unwrap();
    let mut repo = Repository::open_file(&path, &"secret".to_string()).unwrap();
    repo.create(minimal_profile()).unwrap();
    let all = repo.get_all().unwrap();
    assert_eq!(all.len(), 1);
    assert_eq!(all[0].host, "db1");
    assert_eq!(all[0].port, 9000);
    assert_eq!(all[0].username, "default");
    assert!(all[0].id.is_some());
    assert!(all[0].id.unwrap() >= 1);
    // After the open, the first-time probe succeeds with the file path.
    assert_eq!(check_database_file_in(&data_dir, true).unwrap(), path);
}

#[test]
fn create_then_get_all_reloads_every_field() {
    let (_guard, _path, mut repo) = open_temp_repository("secret");
    let p = sample_profile();
    repo.create(p.clone()).unwrap();
    let all = repo.get_all().unwrap();
    assert_eq!(all.len(), 1);
    let loaded = &all[0];
    assert_eq!(loaded.name, p.name);
    assert_eq!(loaded.host, p.host);
    assert_eq!(loaded.port, p.port);
    assert_eq!(loaded.secure, p.secure);
    assert_eq!(loaded.username, p.username);
    assert_eq!(loaded.password, p.password);
    assert_eq!(loaded.database, p.database);
    assert!(loaded.id.is_some());
    assert!(loaded.id.unwrap() >= 1);
}

#[test]
fn get_all_on_empty_storage_is_empty_not_an_error() {
    let (_guard, _path, repo) = open_temp_repository("secret");
    assert_eq!(repo.get_all().unwrap(), vec![]);
}

#[test]
fn get_by_id_matches_get_all_ordering() {
    let (_guard, _path, mut repo) = open_temp_repository("secret");
    let mut second = sample_profile();
    second.host = "db2".to_string();
    second.port = 9440;
    second.secure = true;
    repo.create(sample_profile()).unwrap();
    repo.create(second).unwrap();
    let all = repo.get_all().unwrap();
    assert_eq!(all.len(), 2);
    for record in &all {
        let id = record.id.unwrap();
        let found = repo.get_by_id(id).unwrap();
        assert_eq!(&found, record);
    }
    // Insertion order is kept, and the later insert got the larger id.
    assert_eq!(all[0].host, "db1");
    assert_eq!(all[1].host, "db2");
    assert!(all[1].id.unwrap() > all[0].id.unwrap());
}

#[test]
fn delete_then_get_by_id_fails_with_no_rows() {
    let (_guard, _path, mut repo) = open_temp_repository("secret");
    repo.create(sample_profile()).unwrap();
    let id = repo.get_all().unwrap()[0].id.unwrap();
    repo.delete(id as u32).unwrap();
    let e = repo.get_by_id(id).unwrap_err();
    assert!(matches!(
        e,
        RepositoryError::SqliteError(StorageError::NoRows)
    ));
    assert!(e.is_no_rows());
    assert!(repo.get_all().unwrap().is_empty());
}

#[test]
fn update_then_get_by_id_returns_the_new_fields() {
    let (_guard, _path, mut repo) = open_temp_repository("secret");
    repo.create(sample_profile()).unwrap();
    let id = repo.get_all().unwrap()[0].id.unwrap();
    let mut replacement = ClickhouseConnection {
        id: None,
        name: Some("backup".to_string()),
        host: "db2".to_string(),
        port: 9440,
        secure: true,
        username: "writer".to_string(),
        password: None,
        database: Some("logs".to_string()),
    };
    // The profile's own id is ignored: the explicit argument addresses the row.
    replacement.id = Some(id + 1000);
    repo.update(id as u32, replacement.clone()).unwrap();
    let found = repo.get_by_id(id).unwrap();
    assert_eq!(found.id, Some(id));
    assert_eq!(found.name, replacement.name);
    assert_eq!(found.host, replacement.host);
    assert_eq!(found.port, replacement.port);
    assert_eq!(found.secure, replacement.secure);
    assert_eq!(found.username, replacement.username);
    assert_eq!(found.password, replacement.password);
    assert_eq!(found.database, replacement.database);
}

#[test]
fn update_of_an_unmatched_id_is_a_silent_noop() {
    let (_guard, _path, mut repo) = open_temp_repository("secret");
    repo.create(sample_profile()).unwrap();
    let before = repo.get_all().unwrap();
    repo.update(99999, minimal_profile()).unwrap();
    assert_eq!(repo.get_all().unwrap(), before);
}

#[test]
fn delete_of_an_unmatched_id_is_a_silent_noop() {
    let (_guard, _path, mut repo) = open_temp_repository("secret");
    repo.create(sample_profile()).unwrap();
    let before = repo.get_all().unwrap();
    repo.delete(99999).unwrap();
    assert_eq!(repo.get_all().unwrap(), before);
}

#[test]
fn second_open_under_a_different_passphrase_fails_on_first_statement() {
    let dir = tempfile::TempDir::new().unwrap();
    let data_dir = dir.path().to_str().unwrap().to_string();
    let path = check_database_file_in(&data_dir, false).unwrap();
    {
        let mut repo = Repository::open_file(&path, &"secret".to_string()).unwrap();
        repo.create(sample_profile()).unwrap();
    }
    // The key directive itself does not validate eagerly; the schema
    // statement is the first real statement and reports the engine error.
    let second = Repository::open_file(&path, &"wrong".to_string());
    match second {
        Err(RepositoryError::SqliteError(StorageError::Engine(_))) => {}
        other => panic!("expected a storage-engine failure, got {:?}", other.map(|_| ())),
    }
    // The original passphrase still opens the data unharmed.
    let repo = Repository::open_file(&path, &"secret".to_string()).unwrap();
    assert_eq!(repo.get_all().unwrap().len(), 1);
}

#[test]
fn fixed_location_lifecycle() {
    // Against the platform data directory for the fixed identity triple:
    // the probe never hard-fails, opening ensures directory, file and
    // schema, and afterwards the first-time probe succeeds.
    let probe = check_database_file(&true);
    match &probe {
        Ok(_) => {}
        Err(e) => assert!(matches!(
            e,
            RepositoryError::ControlledError(ControlledErrors::FirstTime)
        )),
    }
    let repo = Repository::new(&"fixed-location-passphrase".to_string()).unwrap();
    drop(repo);
    let after = check_database_file(&true).unwrap();
    assert!(after.ends_with("/clickmate.db"));
}

#[test]
fn update_touches_only_the_addressed_row() {
    let (_guard, _path, mut repo) = open_temp_repository("secret");
    let mut second = sample_profile();
    second.host = "db2".to_string();
    repo.create(sample_profile()).unwrap();
    repo.create(second).unwrap();
    let before = repo.get_all().unwrap();
    let mut replacement = minimal_profile();
    replacement.host = "db3".to_string();
    repo.update(before[0].id.unwrap() as u32, replacement).unwrap();
    let after = repo.get_all().unwrap();
    assert_eq!(after.len(), 2);
    assert_eq!(after[0].host, "db3");
    assert_eq!(after[0].id, before[0].id);
    assert_eq!(&after[1], &before[1]);
}

#[test]
fn delete_removes_only_the_addressed_row() {
    let (_guard, _path, mut repo) = open_temp_repository("secret");
    let mut second = sample_profile();
    second.host = "db2".to_string();
    repo.create(sample_profile()).unwrap();
    repo.create(second).unwrap();
    let before = repo.get_all().unwrap();
    repo.delete(before[0].id.unwrap() as u32).unwrap();
    let after = repo.get_all().unwrap();
    assert_eq!(after.len(), 1);
    assert_eq!(&after[0], &before[1]);
}

#[test]
fn port_bounds_round_trip() {
    let (_guard, _path, mut repo) = open_temp_repository("secret");
    let mut low = minimal_profile();
    low.port = 0;
    let mut high = minimal_profile();
    high.port = 65535;
    repo.create(low).unwrap();
    repo.create(high).unwrap();
    let all = repo.get_all().unwrap();
    assert_eq!(all[0].port, 0);
    assert_eq!(all[1].port, 65535);
}

#[test]
fn directory_creation_failure_surfaces_as_io_error() {
    let dir = tempfile::TempDir::new().unwrap();
    let blocker = format!("{}/blocker", dir.path().to_str().unwrap());
    fs_err::write(&blocker, b"not a directory").unwrap();
    // The data directory cannot be created below a regular file.
    let e = check_database_file_in(&format!("{}/sub", blocker), false).unwrap_err();
    assert!(matches!(e, RepositoryError::IOError(_)));
}
