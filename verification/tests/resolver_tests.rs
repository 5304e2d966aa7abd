use mimosa::backend;
use mimosa::backend::de as backend_de;
use mimosa::engine::CommandSpec;
use mimosa::error::Error;
use mimosa::profile::{Platform, Profile};
use mimosa::store::de::{record_of, resolve, Store as StoreRecord, StoreKind};
use mimosa::store::keyutils::KeyutilsStore;
use mimosa::store::macos::MacosStore;
use mimosa::store::Store;

fn linux_profile() -> Profile {
    Profile {
        platform: Platform::Linux,
        keyring: true,
        command: true,
        dbus_secret_service: true,
        zbus_secret_service: false,
        keyutils: true,
        apple_native: false,
        windows_native: false,
    }
}

fn empty_record(kind: StoreKind) -> StoreRecord {
    StoreRecord {
        store: kind,
        secret_service: None,
        linux_keyutils: None,
        apple_native: None,
        windows_native: None,
    }
}

#[test]
fn missing_companion_block_is_a_configuration_error() {
    let record = empty_record(StoreKind::LinuxKeyutils);
    match resolve(record, &linux_profile()) {
        Err(Error::ConfigurationError(block)) => assert_eq!(block, "linux-keyutils"),
        _ => panic!("expected a configuration error"),
    }
}

#[test]
fn missing_block_is_reported_before_the_missing_feature() {
    // The kind is disabled *and* its block is absent: the resolver must
    // report the missing configuration, not the feature.
    let mut profile = linux_profile();
    profile.apple_native = false;
    let record = empty_record(StoreKind::AppleNative);
    match resolve(record, &profile) {
        Err(Error::ConfigurationError(block)) => assert_eq!(block, "apple-native"),
        _ => panic!("expected a configuration error"),
    }
}

#[test]
fn disabled_feature_is_named() {
    let mut record = empty_record(StoreKind::AppleNative);
    record.apple_native =
        Some(MacosStore { service: "svc".to_string(), user: "me".to_string() });
    match resolve(record, &linux_profile()) {
        Err(Error::FeatureUnavailable(feature)) => assert_eq!(feature, "apple-native"),
        _ => panic!("expected a feature error"),
    }
}

#[test]
fn secret_service_feature_error_names_both_transports() {
    let mut profile = linux_profile();
    profile.dbus_secret_service = false;
    profile.zbus_secret_service = false;
    let mut record = empty_record(StoreKind::SecretService);
    record.secret_service = Some(mimosa::store::secret_service::SecretServiceStore {
        service: "svc".to_string(),
        user: "me".to_string(),
        flavour: None,
    });
    match resolve(record, &profile) {
        Err(Error::FeatureUnavailable(feature)) => {
            assert_eq!(feature, "dbus-secret-service or zbus-secret-service")
        },
        _ => panic!("expected a feature error"),
    }
}

#[test]
fn extra_blocks_are_ignored_not_ambiguous() {
    let mut record = empty_record(StoreKind::LinuxKeyutils);
    record.linux_keyutils =
        Some(KeyutilsStore { service: "svc".to_string(), user: "me".to_string() });
    record.apple_native =
        Some(MacosStore { service: "other".to_string(), user: "other".to_string() });
    match resolve(record, &linux_profile()) {
        Ok(Store::Keyutils(s)) => {
            assert_eq!(s.service, "svc");
            assert_eq!(s.user, "me");
        },
        _ => panic!("expected the keyutils store"),
    }
}

#[test]
fn resolver_round_trip_reproduces_the_store() {
    let store = Store::Keyutils(KeyutilsStore {
        service: "svc".to_string(),
        user: "me".to_string(),
    });
    let record = record_of(store);
    assert!(matches!(record.store, StoreKind::LinuxKeyutils));
    assert!(record.secret_service.is_none());
    assert!(record.apple_native.is_none());
    assert!(record.windows_native.is_none());
    match resolve(record, &linux_profile()) {
        Ok(Store::Keyutils(s)) => {
            assert_eq!(s.service, "svc");
            assert_eq!(s.user, "me");
        },
        _ => panic!("round trip lost the store"),
    }
}

fn command(name: &str) -> CommandSpec {
    CommandSpec { program: name.to_string(), args: vec![], envs: vec![] }
}

#[test]
fn backend_resolver_gates_on_features() {
    let raw = backend_de::Backend::Command(backend::CommandBackend {
        get: command("g"),
        set: command("s"),
        delete: command("d"),
    });
    let mut profile = linux_profile();
    profile.command = false;
    match backend_de::resolve(raw, &profile) {
        Err(Error::FeatureUnavailable(feature)) => assert_eq!(feature, "command"),
        _ => panic!("expected a feature error"),
    }
}

#[test]
fn backend_resolver_passes_the_config_through() {
    let raw = backend_de::Backend::Keyring(backend::KeyringBackend {
        service: "svc".to_string(),
        user: "me".to_string(),
    });
    match backend_de::resolve(raw, &linux_profile()) {
        Ok(backend::Backend::Keyring(cfg)) => {
            assert_eq!(cfg.service, "svc");
            assert_eq!(cfg.user, "me");
        },
        _ => panic!("expected the keyring backend"),
    }
}
