use file_registry::lookup::{
    check_user_login, get_existing_file_by_hash, get_user_by_token, is_ip_banned,
};
use file_registry::password::{check_password, login_verdict, DECOY_HASH};
use file_registry::records::{File, RegistryError, User, UserLoginData};
use file_registry::schema::{
    bootstrap_plan, bootstrap_step, BootstrapAction, SchemaStatement,
};
use file_registry::store::MemoryStore;

fn user(id: i64, name: &str, password: &str, token: Option<&str>) -> User {
    User {
        id,
        username: name.to_string(),
        hashed_password: bcrypt::hash(password, 4).unwrap(),
        email: None,
        is_admin: false,
        api_key: token.map(|t| t.to_string()),
        last_update: 1_700_000_000,
        created_at: 1_700_000_000,
    }
}

fn file(owner: i64, hash: &str) -> File {
    File {
        id: 0,
        name: format!("{}.bin", hash),
        original_name: "report.pdf".to_string(),
        filetype: "application/pdf".to_string(),
        file_hash: hash.to_string(),
        uploaded_by: owner,
        uploaded_by_ip: "192.168.1.20".to_string(),
        created_at: 1_700_000_100,
    }
}

fn login(name: &str, password: &str) -> UserLoginData {
    UserLoginData { username: name.to_string(), password: password.to_string() }
}

#[test]
fn alice_scenario() {
    let mut store = MemoryStore::new();
    assert_eq!(store.insert_user(user(1, "alice", "secret", None)), Ok(()));
    let found = store.verify_password(&login("alice", "secret"));
    assert_eq!(found.map(|u| u.id), Some(1));
    assert!(store.verify_password(&login("alice", "wrong")).is_none());

    store.ban_ip("10.0.0.5".to_string());
    assert!(store.is_origin_banned("10.0.0.5"));
    assert!(!store.is_origin_banned("10.0.0.6"));

    assert_eq!(store.record_upload(&file(1, "abc123")), Ok(()));
    let hit = store.find_by_owner_and_hash(1, "abc123").expect("recorded file");
    assert_eq!(hit.uploaded_by, 1);
    assert_eq!(hit.file_hash, "abc123");
    assert!(store.find_by_owner_and_hash(2, "abc123").is_none());
}

#[test]
fn unknown_user_and_wrong_password_look_the_same() {
    let mut store = MemoryStore::new();
    store.insert_user(user(1, "alice", "secret", None)).unwrap();
    let unknown = store.verify_password(&login("bob", "secret"));
    let wrong = store.verify_password(&login("alice", "nope"));
    assert!(unknown.is_none());
    assert!(wrong.is_none());
}

#[test]
fn username_match_is_exact() {
    let mut store = MemoryStore::new();
    store.insert_user(user(1, "alice", "secret", None)).unwrap();
    assert!(store.verify_password(&login("Alice", "secret")).is_none());
    assert!(store.verify_password(&login("alic", "secret")).is_none());
}

#[test]
fn corrupt_stored_hash_denies_login() {
    let mut broken = user(3, "carol", "pw", None);
    broken.hashed_password = "not-a-bcrypt-hash".to_string();
    let rows = vec![broken];
    let attempt = check_user_login(&login("carol", "pw"), Ok(rows)).unwrap();
    assert!(attempt.user.is_none());
    assert_eq!(attempt.check, Err(RegistryError::VerificationFailure));
}

#[test]
fn first_account_of_a_shared_username_decides() {
    let rows = vec![user(7, "dup", "one", None), user(8, "dup", "two", None)];
    let first = check_user_login(&login("dup", "one"), Ok(rows.clone())).unwrap();
    assert_eq!(first.user.map(|u| u.id), Some(7));
    assert_eq!(first.check, Ok(true));
    let second = check_user_login(&login("dup", "two"), Ok(rows)).unwrap();
    assert!(second.user.is_none());
    assert_eq!(second.check, Ok(false));
}

#[test]
fn failed_login_lookup_is_reported() {
    let r = check_user_login(&login("alice", "secret"), Err(RegistryError::StoreUnavailable));
    assert_eq!(r.err(), Some(RegistryError::StoreUnavailable));
}

#[test]
fn unknown_username_attempt_checks_nothing_stored() {
    let rows = vec![user(1, "alice", "secret", None)];
    let attempt = check_user_login(&login("bob", "secret"), Ok(rows)).unwrap();
    assert!(attempt.user.is_none());
    assert_eq!(attempt.check, Ok(false));
}

#[test]
fn login_skips_rows_of_other_usernames() {
    let rows = vec![user(4, "ALICE", "secret", None), user(5, "alice", "secret", None)];
    let r = check_user_login(&login("alice", "secret"), Ok(rows)).unwrap();
    assert_eq!(r.user.map(|u| u.id), Some(5));
}

#[test]
fn password_check_outcomes() {
    let h = bcrypt::hash("hunter2", 4).unwrap();
    assert_eq!(check_password("hunter2", &h), Ok(true));
    assert_eq!(check_password("hunter3", &h), Ok(false));
    assert_eq!(check_password("hunter2", "garbage"), Err(RegistryError::VerificationFailure));
}

#[test]
fn decoy_hash_is_well_formed() {
    assert_eq!(check_password("anything", DECOY_HASH), Ok(false));
}

#[test]
fn login_verdict_cases() {
    let u = user(1, "alice", "secret", None);
    assert_eq!(login_verdict(Some(u.clone()), Ok(true)).map(|x| x.id), Some(1));
    assert!(login_verdict(Some(u.clone()), Ok(false)).is_none());
    assert!(login_verdict(Some(u), Err(RegistryError::VerificationFailure)).is_none());
    assert!(login_verdict(None, Ok(true)).is_none());
}

#[test]
fn token_resolves_to_owner() {
    let rows = vec![user(1, "alice", "a", Some("tok-a")), user(2, "bob", "b", Some("tok-b"))];
    let r = get_user_by_token("tok-b", Ok(rows.clone()));
    assert_eq!(r.map(|u| u.username), Some("bob".to_string()));
    assert!(get_user_by_token("tok", Ok(rows.clone())).is_none());
    assert!(get_user_by_token("TOK-A", Ok(rows)).is_none());
}

#[test]
fn token_lookup_failure_gives_nothing() {
    assert!(get_user_by_token("tok-a", Err(RegistryError::StoreUnavailable)).is_none());
}

#[test]
fn account_without_token_never_matches() {
    let mut store = MemoryStore::new();
    store.insert_user(user(1, "alice", "a", None)).unwrap();
    store.insert_user(user(2, "bob", "b", Some("tok-b"))).unwrap();
    assert!(store.resolve_token("").is_none());
    assert_eq!(store.resolve_token("tok-b").map(|u| u.id), Some(2));
}

#[test]
fn ban_check_is_exact() {
    let list = vec!["10.0.0.5".to_string(), "fe80::1".to_string()];
    assert_eq!(is_ip_banned("10.0.0.5", Ok(list.clone())), Ok(true));
    assert_eq!(is_ip_banned("FE80::1", Ok(list.clone())), Ok(false));
    assert_eq!(is_ip_banned("10.0.0.50", Ok(list.clone())), Ok(false));
    assert_eq!(is_ip_banned("10.0.0", Ok(list)), Ok(false));
    assert_eq!(is_ip_banned("10.0.0.5", Ok(Vec::new())), Ok(false));
}

#[test]
fn ban_lookup_failure_is_not_a_pass() {
    assert_eq!(
        is_ip_banned("10.0.0.5", Err(RegistryError::StoreUnavailable)),
        Err(RegistryError::StoreUnavailable)
    );
}

#[test]
fn dedup_lookup_is_per_owner() {
    let mut a = file(1, "abc123");
    a.id = 10;
    let mut b = file(2, "def456");
    b.id = 11;
    let rows = vec![a, b];
    let hit = get_existing_file_by_hash("abc123", &1, Ok(rows.clone())).unwrap().expect("owner 1 has it");
    assert_eq!(hit.id, 10);
    assert!(get_existing_file_by_hash("abc123", &2, Ok(rows.clone())).unwrap().is_none());
    assert!(get_existing_file_by_hash("ABC123", &1, Ok(rows)).unwrap().is_none());
}

#[test]
fn failed_dedup_lookup_is_not_a_miss() {
    let r = get_existing_file_by_hash("abc123", &1, Err(RegistryError::StoreUnavailable));
    assert_eq!(r.err(), Some(RegistryError::StoreUnavailable));
}

#[test]
fn upload_for_missing_owner_is_refused() {
    let mut store = MemoryStore::new();
    assert_eq!(store.record_upload(&file(9, "abc123")), Err(RegistryError::IntegrityViolation));
    assert!(store.find_by_owner_and_hash(9, "abc123").is_none());
}

#[test]
fn uploads_get_generated_ids() {
    let mut store = MemoryStore::new();
    store.insert_user(user(1, "alice", "a", None)).unwrap();
    store.insert_user(user(2, "bob", "b", None)).unwrap();
    store.record_upload(&file(1, "h1")).unwrap();
    store.record_upload(&file(2, "h1")).unwrap();
    store.record_upload(&file(1, "h1")).unwrap();
    assert_eq!(store.find_by_owner_and_hash(1, "h1").map(|f| f.id), Some(1));
    assert_eq!(store.find_by_owner_and_hash(2, "h1").map(|f| f.id), Some(2));
    assert!(store.find_by_owner_and_hash(3, "h1").is_none());
}

#[test]
fn duplicate_account_id_is_refused() {
    let mut store = MemoryStore::new();
    store.insert_user(user(1, "alice", "a", None)).unwrap();
    assert_eq!(
        store.insert_user(user(1, "mallory", "m", None)),
        Err(RegistryError::IntegrityViolation)
    );
    assert!(store.verify_password(&login("mallory", "m")).is_none());
}

#[test]
fn bootstrap_runs_plan_then_finishes() {
    let plan = bootstrap_plan();
    assert_eq!(
        plan,
        vec![
            SchemaStatement::CreateUsers,
            SchemaStatement::CreateFiles,
            SchemaStatement::CreateBannedIps,
            SchemaStatement::DropFilesUserKey,
            SchemaStatement::AddFilesUserKey,
        ]
    );
    let mut seen = Vec::new();
    let mut done: usize = 0;
    loop {
        match bootstrap_step(done, Ok(())) {
            BootstrapAction::Execute(s) => {
                seen.push(s);
                done += 1;
            }
            BootstrapAction::Finished => break,
            BootstrapAction::Abort(e) => panic!("unexpected abort {:?}", e),
        }
    }
    assert_eq!(seen, plan);
    assert_eq!(bootstrap_step(5, Ok(())), BootstrapAction::Finished);
}

#[test]
fn bootstrap_aborts_on_failure() {
    assert_eq!(
        bootstrap_step(2, Err(RegistryError::StoreUnavailable)),
        BootstrapAction::Abort(RegistryError::StoreUnavailable)
    );
    assert_eq!(
        bootstrap_step(0, Err(RegistryError::StoreUnavailable)),
        BootstrapAction::Abort(RegistryError::StoreUnavailable)
    );
}

#[test]
fn key_added_by_another_instance_counts_as_done() {
    assert_eq!(
        bootstrap_step(5, Err(RegistryError::AlreadyExists)),
        BootstrapAction::Finished
    );
    assert_eq!(
        bootstrap_step(2, Err(RegistryError::AlreadyExists)),
        BootstrapAction::Abort(RegistryError::AlreadyExists)
    );
}

#[test]
fn schema_statements_are_idempotent_forms() {
    for s in bootstrap_plan() {
        let sql = s.sql();
        assert!(!sql.is_empty());
        match s {
            SchemaStatement::CreateUsers
            | SchemaStatement::CreateFiles
            | SchemaStatement::CreateBannedIps => assert!(sql.starts_with("create table if not exists")),
            SchemaStatement::DropFilesUserKey => assert!(sql.contains("drop foreign key if exists `files_user_id`")),
            SchemaStatement::AddFilesUserKey => {
                assert!(sql.contains("`files_user_id`"));
                assert!(sql.contains("references `users` (`id`)"));
            }
        }
    }
    assert!(SchemaStatement::CreateBannedIps.sql().contains("`banned_ips`"));
}
