use safe_launcher::error::{KeyError, LauncherError};
use safe_launcher::key::{ApplicationEncryptionKey, ApplicationIdentity};
use safe_launcher::launcher::{engine_access, Launcher};

type Credentials = (String, String, String);

fn credentials(keyword: &str, pin: &str, password: &str) -> Credentials {
    (keyword.to_string(), pin.to_string(), password.to_string())
}

fn app(tag: u8) -> ApplicationIdentity {
    let mut name = [0u8; 64];
    name[0] = tag;
    name[63] = tag.wrapping_mul(3);
    ApplicationIdentity { name }
}

fn session() -> Launcher<Credentials> {
    let registered: Result<Credentials, String> = Ok(credentials("alice", "1234", "p@ss"));
    match Launcher::create_account(registered) {
        Ok(s) => s,
        Err(_) => panic!("registration outcome was Ok"),
    }
}

#[test]
fn create_account() {
    let registered: Result<Credentials, String> = Ok(credentials("test", "1234", "1234"));
    let result = Launcher::create_account(registered);
    assert!(result.is_ok());
}

#[test]
fn login() {
    let registered: Result<Credentials, String> = Ok(credentials("test", "1234", "1234"));
    let result = Launcher::create_account(registered);
    assert!(result.is_ok());
    let logged_in: Result<Credentials, String> = Ok(credentials("test", "1234", "1234"));
    let result = Launcher::log_in(logged_in);
    assert!(result.is_ok());
}

#[test]
fn create_account_failure_is_carried_through() {
    let refused: Result<Credentials, String> = Err("account already exists".to_string());
    match Launcher::create_account(refused) {
        Err(e) => assert_eq!(e, LauncherError::AccountCreationFailed("account already exists".to_string())),
        Ok(_) => panic!("a failed registration gave a session"),
    }
}

#[test]
fn login_failure_is_a_login_error() {
    let refused: Result<Credentials, String> = Err("no such account".to_string());
    match Launcher::log_in(refused) {
        Err(e) => assert_eq!(e, LauncherError::LoginFailed("no such account".to_string())),
        Ok(_) => panic!("a failed login gave a session"),
    }
}

#[test]
fn new_session_has_no_keys() {
    let s = session();
    assert_eq!(s.attached(), 0);
    assert_eq!(s.lookup(&app(1)), Err(KeyError::KeyNotFound));
}

#[test]
fn issue_twice_is_rejected() {
    let mut s = session();
    let k = s.issue(app(1)).unwrap();
    assert_eq!(s.issue(app(1)), Err(KeyError::DuplicateKeyIssuance));
    assert_eq!(s.lookup(&app(1)), Ok(k));
    assert_eq!(s.attached(), 1);
}

#[test]
fn revoke_then_issue_gives_new_key() {
    let mut s = session();
    let k1 = s.issue(app(1)).unwrap();
    s.revoke(&app(1));
    let k2 = s.issue(app(1)).unwrap();
    assert_ne!(k1.key, k2.key);
    assert_ne!(k1.nonce, k2.nonce);
    assert_eq!(s.lookup(&app(1)), Ok(k2));
}

#[test]
fn lookup_after_revoke_fails() {
    let mut s = session();
    s.issue(app(4)).unwrap();
    s.revoke(&app(4));
    assert_eq!(s.lookup(&app(4)), Err(KeyError::KeyNotFound));
    assert_eq!(s.attached(), 0);
}

#[test]
fn revoke_absent_is_not_an_error() {
    let mut s = session();
    s.issue(app(2)).unwrap();
    s.revoke(&app(9));
    assert_eq!(s.attached(), 1);
}

#[test]
fn distinct_applications_get_distinct_keys() {
    let mut s = session();
    let mut keys: Vec<ApplicationEncryptionKey> = Vec::new();
    for tag in 0..32u8 {
        keys.push(s.issue(app(tag)).unwrap());
    }
    for i in 0..keys.len() {
        for j in (i + 1)..keys.len() {
            assert_ne!(keys[i].key, keys[j].key);
            assert_ne!(keys[i].nonce, keys[j].nonce);
        }
    }
    assert_eq!(s.attached(), 32);
}

#[test]
fn issue_with_stores_given_material() {
    let mut s = session();
    let given = ApplicationEncryptionKey { nonce: [7u8; 24], key: [9u8; 32] };
    assert_eq!(s.issue_with(app(5), given), Ok(given));
    assert_eq!(s.lookup(&app(5)), Ok(given));
    let other = ApplicationEncryptionKey { nonce: [1u8; 24], key: [2u8; 32] };
    assert_eq!(s.issue_with(app(5), other), Err(KeyError::DuplicateKeyIssuance));
    assert_eq!(s.lookup(&app(5)), Ok(given));
}

#[test]
fn alice_end_to_end() {
    let mut s = session();
    let app1 = app(1);
    let app2 = app(2);
    let k1 = s.issue(app1).unwrap();
    let k2 = s.issue(app2).unwrap();
    assert_ne!(k1, k2);
    assert_eq!(s.lookup(&app1), Ok(k1));
    s.revoke(&app1);
    assert_eq!(s.lookup(&app1), Err(KeyError::KeyNotFound));
    assert_eq!(s.lookup(&app2), Ok(k2));
}

#[test]
fn identities_compare_by_bytes() {
    assert!(app(3).same_as(&app(3)));
    assert!(!app(3).same_as(&app(4)));
    let mut a = app(3);
    a.name[40] = 1;
    assert!(!a.same_as(&app(3)));
}

#[test]
fn generated_key_material_is_random() {
    let a = ApplicationEncryptionKey::generate();
    let b = ApplicationEncryptionKey::generate();
    assert_ne!(a.key, b.key);
    assert_ne!(a.nonce, b.nonce);
    assert_ne!(a.key, [0u8; 32]);
}

#[test]
fn engine_guard_outcomes() {
    let held: Result<u32, LauncherError<String>> = engine_access(Some(5u32));
    assert_eq!(held, Ok(5));
    let poisoned: Result<u32, LauncherError<String>> = engine_access(None);
    assert_eq!(poisoned, Err(LauncherError::EngineUnavailable));
}

#[test]
fn engine_is_reachable_through_the_guard() {
    let s = session();
    let engine = s.engine().lock().unwrap();
    assert_eq!(engine.0, "alice");
}

#[test]
fn key_errors_map_to_session_errors() {
    let d: LauncherError<String> = KeyError::DuplicateKeyIssuance.into_launcher_error();
    assert_eq!(d, LauncherError::DuplicateKeyIssuance);
    let n: LauncherError<String> = KeyError::KeyNotFound.into_launcher_error();
    assert_eq!(n, LauncherError::KeyNotFound);
}
