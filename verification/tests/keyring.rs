use ak_platform::cache::{cache_evict_outcome, cache_read_outcome, is_expired, Cache, CacheError};
use ak_platform::keyring::{debug_service, service, Accessibility, KeyringError, MemoryStore};
use ak_platform::keyring_backend::{
    choose_item, delete_outcome, entry_modifies, keychain_accessible, keychain_status, read_outcome,
    secret_service_failure, secret_text, write_outcome, BackendFailure, ItemChoice, KeychainAccessible,
    SecretServiceFailure, ERR_SEC_ITEM_NOT_FOUND,
};
use ak_platform::platform_string::TargetOs;

#[test]
fn lib_full() {
    let mut store = MemoryStore::new();
    store.set(&service("foo"), "bar", Accessibility::User, "baz".to_string()).unwrap();
    assert_eq!(store.get(&service("foo"), "bar", Accessibility::User).unwrap(), "baz");
}

#[test]
fn service_names() {
    assert_eq!(service("foo"), "io.goauthentik.agent.foo");
    assert_eq!(debug_service("foo"), "io.goauthentik.agent-debug.foo");
}

#[test]
fn memory_store_overwrites_and_deletes() {
    let mut store = MemoryStore::new();
    assert!(matches!(store.get("s", "u", Accessibility::Always), Err(KeyringError::NotFound())));
    store.set("s", "u", Accessibility::Always, "1".to_string()).unwrap();
    store.set("s", "v", Accessibility::Always, "2".to_string()).unwrap();
    store.set("s", "u", Accessibility::Always, "3".to_string()).unwrap();
    assert_eq!(store.get("s", "u", Accessibility::Always).unwrap(), "3");
    assert_eq!(store.get("s", "v", Accessibility::Always).unwrap(), "2");
    store.delete("s", "u", Accessibility::Always).unwrap();
    assert!(matches!(store.get("s", "u", Accessibility::Always), Err(KeyringError::NotFound())));
    store.delete("s", "u", Accessibility::Always).unwrap();
    assert_eq!(store.get("s", "v", Accessibility::Always).unwrap(), "2");
}

#[test]
fn keyring_error_messages() {
    assert_eq!(KeyringError::NotFound().to_string(), "entry not found");
    assert_eq!(KeyringError::Other("boom".to_string()).to_string(), "boom");
}

#[test]
fn cache_store_load_evict() {
    let cache: Cache<u32> = Cache::new("default".to_string(), vec!["token".to_string(), "a/b".to_string()]);
    assert_eq!(cache.entry_service(), "io.goauthentik.agent.token-a_b");
    let mut store = MemoryStore::new();
    assert!(matches!(cache.load_serialized(&store), Err(CacheError::NotFound())));
    cache.store_serialized(&mut store, "{\"v\":1}".to_string()).unwrap();
    assert_eq!(cache.load_serialized(&store).ok(), Some("{\"v\":1}".to_string()));
    assert_eq!(store.get("io.goauthentik.agent.token-a_b", "default", Accessibility::User).unwrap(), "{\"v\":1}");
    cache.evict_if_expired(&mut store, (10, 0), (5, 0)).ok().unwrap();
    assert!(cache.load_serialized(&store).is_ok());
    cache.evict_if_expired(&mut store, (10, 0), (10, 1)).ok().unwrap();
    assert!(matches!(cache.load_serialized(&store), Err(CacheError::NotFound())));
}

#[test]
fn expiry_comparison() {
    assert!(is_expired((1, 0), (2, 0)));
    assert!(is_expired((1, 5), (1, 6)));
    assert!(!is_expired((1, 6), (1, 6)));
    assert!(!is_expired((3, 0), (2, 999_999_999)));
}

#[test]
fn entry_modifiers_per_platform() {
    let mods = entry_modifies("s", "u", Accessibility::User, TargetOs::Darwin);
    assert_eq!(mods, vec![("access-policy".to_string(), "after-first-unlock".to_string())]);
    assert!(entry_modifies("s", "u", Accessibility::Always, TargetOs::Darwin).is_empty());
    assert!(entry_modifies("s", "u", Accessibility::User, TargetOs::Linux).is_empty());
    assert_eq!(keychain_accessible(Accessibility::User), KeychainAccessible::AfterFirstUnlock);
    assert_eq!(keychain_accessible(Accessibility::Always), KeychainAccessible::WhenUnlocked);
}

#[test]
fn backend_outcomes() {
    assert_eq!(read_outcome(Ok("p".to_string())).ok(), Some("p".to_string()));
    assert!(matches!(read_outcome(Err(BackendFailure::NoEntry)), Err(KeyringError::NotFound())));
    assert!(matches!(write_outcome(Err(BackendFailure::NoStorage)), Err(KeyringError::NotAvailable())));
    assert!(delete_outcome(Err(BackendFailure::NoEntry)).is_ok());
    match delete_outcome(Err(BackendFailure::Other("x".to_string()))) {
        Err(KeyringError::Other(m)) => assert_eq!(m, "x"),
        _ => panic!("expected Other"),
    }
    assert!(matches!(keychain_status(ERR_SEC_ITEM_NOT_FOUND, "gone".to_string()), BackendFailure::NoEntry));
    assert!(matches!(keychain_status(-1, "bad".to_string()), BackendFailure::Other(_)));
}

#[test]
fn secret_service_failures() {
    assert!(matches!(secret_service_failure(SecretServiceFailure::Unavailable), BackendFailure::NoStorage));
    assert!(matches!(
        secret_service_failure(SecretServiceFailure::MethodError(
            "org.freedesktop.DBus.Error.ServiceUnknown".to_string(),
            "m".to_string()
        )),
        BackendFailure::NoStorage
    ));
    assert!(matches!(
        secret_service_failure(SecretServiceFailure::MethodError("other".to_string(), "m".to_string())),
        BackendFailure::Other(_)
    ));
    assert!(matches!(
        secret_service_failure(SecretServiceFailure::Connection(true, "c".to_string())),
        BackendFailure::NoStorage
    ));
    assert!(matches!(
        secret_service_failure(SecretServiceFailure::Connection(false, "c".to_string())),
        BackendFailure::Other(_)
    ));
    assert_eq!(choose_item(1, 3), ItemChoice::Unlocked);
    assert_eq!(choose_item(0, 3), ItemChoice::Locked);
    assert_eq!(choose_item(0, 0), ItemChoice::Missing);
    assert_eq!(secret_text(b"abc".to_vec()).ok(), Some("abc".to_string()));
    assert!(matches!(secret_text(vec![0xff]), Err(KeyringError::Other(_))));
}

#[test]
fn cache_reports_store_outcomes() {
    assert!(matches!(cache_read_outcome(Ok("v".to_string())), Ok(v) if v == "v"));
    assert!(matches!(cache_read_outcome(Err(KeyringError::NotFound())), Err(CacheError::NotFound())));
    assert!(matches!(cache_read_outcome(Err(KeyringError::Other("locked".to_string()))), Err(CacheError::Other(m)) if m == "locked"));
    assert!(matches!(
        cache_read_outcome(Err(KeyringError::NotAvailable())),
        Err(CacheError::Other(m)) if m == "keyring backend not available"
    ));
    assert!(cache_evict_outcome(Ok(())).is_ok());
    assert!(matches!(cache_evict_outcome(Err(KeyringError::NotFound())), Err(CacheError::Other(m)) if m == "entry not found"));
    let cache: Cache<u32> = Cache::new("default".to_string(), vec!["t".to_string()]);
    assert_eq!(cache.profile_name(), "default");
}

#[test]
fn debug_caches_use_debug_service_names() {
    let cache: Cache<u32> = Cache::new("default".to_string(), vec!["token".to_string()]);
    let debug = cache.with_debug_names();
    assert_eq!(debug.entry_service(), "io.goauthentik.agent-debug.token");
    assert_eq!(debug.profile_name(), "default");
    let mut store = MemoryStore::new();
    debug.store_serialized(&mut store, "1".to_string()).unwrap();
    assert!(matches!(cache.load_serialized(&store), Err(CacheError::NotFound())));
    assert_eq!(debug.load_serialized(&store).ok(), Some("1".to_string()));
}
