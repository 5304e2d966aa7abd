use mimosa::error::Error;
use mimosa::config::Config;
use mimosa::keyring::{interpret_remove, DeleteOutcome, DriverKind, DriverPort};
use mimosa::password::read::ReadPasswordCommand;
use mimosa::password::write::WritePasswordCommand;
use mimosa::keyring::NativeDrivers;
use mimosa::profile::{Platform, Profile};
use mimosa::secret::Secret;
use mimosa::store::keyutils::KeyutilsStore;
use mimosa::store::macos::MacosStore;
use mimosa::store::secret_service::{Flavour, SecretServiceStore};
use mimosa::store::windows::WindowsStore;
use mimosa::store::Store;

fn profile_on(platform: Platform) -> Profile {
    Profile {
        platform,
        keyring: true,
        command: true,
        dbus_secret_service: false,
        zbus_secret_service: false,
        keyutils: false,
        apple_native: false,
        windows_native: false,
    }
}

#[test]
fn keyutils_on_wrong_platform_fails_before_any_driver_call() {
    let store = KeyutilsStore { service: "svc".to_string(), user: "me".to_string() };
    let mut drivers = NativeDrivers;
    match store.init(&profile_on(Platform::Macos), &mut drivers) {
        Err(Error::PlatformUnavailable(f)) => assert_eq!(f, "keyutils"),
        _ => panic!("expected a platform error"),
    }
}

#[test]
fn keyutils_without_the_feature_names_it() {
    let store = KeyutilsStore { service: "svc".to_string(), user: "me".to_string() };
    let mut drivers = NativeDrivers;
    match store.init(&profile_on(Platform::Linux), &mut drivers) {
        Err(Error::FeatureUnavailable(f)) => assert_eq!(f, "keyutils"),
        _ => panic!("expected a feature error"),
    }
}

#[test]
fn macos_store_demands_macos() {
    let store = MacosStore { service: "svc".to_string(), user: "me".to_string() };
    let mut drivers = NativeDrivers;
    let mut profile = profile_on(Platform::Linux);
    profile.apple_native = true;
    match store.read(&profile, &mut drivers) {
        Err(Error::PlatformUnavailable(f)) => assert_eq!(f, "apple-native"),
        _ => panic!("expected a platform error"),
    }
}

#[test]
fn windows_store_demands_windows() {
    let store = WindowsStore { service: "svc".to_string(), user: "me".to_string() };
    let mut drivers = NativeDrivers;
    match store.remove(&profile_on(Platform::Linux), &mut drivers) {
        Err(Error::PlatformUnavailable(f)) => assert_eq!(f, "windows-credential-manager"),
        _ => panic!("expected a platform error"),
    }
}

#[test]
fn secret_service_demands_a_bus_platform() {
    let store = SecretServiceStore {
        service: "svc".to_string(),
        user: "me".to_string(),
        flavour: Some(Flavour::Dbus),
    };
    let mut drivers = NativeDrivers;
    let mut profile = profile_on(Platform::Windows);
    profile.dbus_secret_service = true;
    match store.init(&profile, &mut drivers) {
        Err(Error::PlatformUnavailable(f)) => assert_eq!(f, "secret-service"),
        _ => panic!("expected a platform error"),
    }
}

#[test]
fn secret_service_flavour_names_its_own_feature() {
    let store = SecretServiceStore {
        service: "svc".to_string(),
        user: "me".to_string(),
        flavour: Some(Flavour::Zbus),
    };
    let mut drivers = NativeDrivers;
    let mut profile = profile_on(Platform::Linux);
    profile.dbus_secret_service = true;  // the other transport does not help
    match store.init(&profile, &mut drivers) {
        Err(Error::FeatureUnavailable(f)) => assert_eq!(f, "zbus-secret-service"),
        _ => panic!("expected a feature error"),
    }
}

#[test]
fn secret_service_default_flavour_names_both_features() {
    let store = SecretServiceStore {
        service: "svc".to_string(),
        user: "me".to_string(),
        flavour: None,
    };
    let mut drivers = NativeDrivers;
    match store.init(&profile_on(Platform::Freebsd), &mut drivers) {
        Err(Error::FeatureUnavailable(f)) => {
            assert_eq!(f, "dbus-secret-service or zbus-secret-service")
        },
        _ => panic!("expected a feature error naming both transports"),
    }
}

/// Exercises the real kernel key-retention driver where the kernel
/// permits it: a written secret reads back byte-exact, and removal is
/// `true` then `false`. Where the environment forbids key operations,
/// the failure must be a classified backend error, never a panic.
#[test]
fn keyutils_round_trip_where_the_kernel_allows() {
    let mut profile = profile_on(Platform::Linux);
    profile.keyutils = true;
    let store = Store::Keyutils(KeyutilsStore {
        service: "mimosa-test-svc".to_string(),
        user: "mimosa-test-user".to_string(),
    });
    let mut drivers = NativeDrivers;
    match store.write(&profile, &mut drivers, Secret::new("s3cr3t".to_string())) {
        Ok(()) => {
            let read = store.read(&profile, &mut drivers).expect("read after write");
            assert_eq!(read.expose_secret(), "s3cr3t");
            let first = store.remove(&profile, &mut drivers).expect("first removal");
            assert!(first);
            let second = store.remove(&profile, &mut drivers).expect("second removal");
            assert!(!second);
        },
        Err(Error::BackendError(_, _)) => (),
        Err(_) => panic!("an enabled keyutils store may only fail with a backend error"),
    }
}

#[test]
fn removing_an_absent_entry_is_false_not_an_error() {
    let mut profile = profile_on(Platform::Linux);
    profile.keyutils = true;
    let store = Store::Keyutils(KeyutilsStore {
        service: "mimosa-absent-svc".to_string(),
        user: "mimosa-absent-user".to_string(),
    });
    let mut drivers = NativeDrivers;
    match store.remove(&profile, &mut drivers) {
        Ok(removed) => assert!(!removed),
        Err(Error::BackendError(_, _)) => (),
        Err(_) => panic!("absence must not surface as any other error"),
    }
}

#[test]
fn interpreted_removal_is_true_then_false() {
    // The deletion sequence a store reports when an entry existed and
    // is then asked for again: removed, then absent.
    assert_eq!(interpret_remove(DeleteOutcome::Deleted).unwrap(), true);
    assert_eq!(interpret_remove(DeleteOutcome::Absent).unwrap(), false);
}

/// A literal command-line secret is stored exactly as given, trailing
/// newline included, where the kernel permits key operations.
#[test]
fn literal_write_is_untrimmed_where_the_kernel_allows() {
    let mut profile = profile_on(Platform::Linux);
    profile.keyutils = true;
    let config = Config {
        stores: vec![(
            "vault".to_string(),
            Store::Keyutils(KeyutilsStore {
                service: "mimosa-literal-svc".to_string(),
                user: "mimosa-literal-user".to_string(),
            }),
        )],
    };
    let mut drivers = NativeDrivers;
    let write = WritePasswordCommand {
        store: "vault".to_string(),
        password: Some(Secret::new("abc\n".to_string())),
    };
    match write.execute(&config, &profile, &mut drivers, None) {
        Ok(_) => {
            let read = ReadPasswordCommand { store: "vault".to_string() };
            let password = read.execute(&config, &profile, &mut drivers).expect("read back");
            assert_eq!(password.text(), "abc\n");
        },
        Err(Error::BackendError(_, _)) => (),
        Err(_) => panic!("an enabled keyutils store may only fail with a backend error"),
    }
}

/// A port that records every kind it is asked to install.
struct RecordingPort {
    kinds: Vec<DriverKind>,
}

impl DriverPort for RecordingPort {
    fn install(&mut self, kind: DriverKind) -> Result<(), String> {
        self.kinds.push(kind);
        Ok(())
    }
}

#[test]
fn default_flavour_prefers_the_native_dbus_transport() {
    let store = SecretServiceStore {
        service: "svc".to_string(),
        user: "me".to_string(),
        flavour: None,
    };
    let mut profile = profile_on(Platform::Linux);
    profile.dbus_secret_service = true;
    profile.zbus_secret_service = true;
    let mut port = RecordingPort { kinds: vec![] };
    let installed = store.init(&profile, &mut port).expect("install succeeds");
    assert_eq!(installed, DriverKind::DbusSecretService);
    assert_eq!(port.kinds, vec![DriverKind::DbusSecretService]);
}

#[test]
fn default_flavour_falls_back_to_zbus_only_without_dbus() {
    let store = SecretServiceStore {
        service: "svc".to_string(),
        user: "me".to_string(),
        flavour: None,
    };
    let mut profile = profile_on(Platform::Linux);
    profile.zbus_secret_service = true;
    let mut port = RecordingPort { kinds: vec![] };
    let installed = store.init(&profile, &mut port).expect("install succeeds");
    assert_eq!(installed, DriverKind::ZbusSecretService);
    assert_eq!(port.kinds, vec![DriverKind::ZbusSecretService]);
}

#[test]
fn explicit_flavour_overrides_the_default_order() {
    let store = SecretServiceStore {
        service: "svc".to_string(),
        user: "me".to_string(),
        flavour: Some(Flavour::Zbus),
    };
    let mut profile = profile_on(Platform::Linux);
    profile.dbus_secret_service = true;
    profile.zbus_secret_service = true;
    let mut port = RecordingPort { kinds: vec![] };
    let installed = store.init(&profile, &mut port).expect("install succeeds");
    assert_eq!(installed, DriverKind::ZbusSecretService);
    assert_eq!(port.kinds, vec![DriverKind::ZbusSecretService]);
}
