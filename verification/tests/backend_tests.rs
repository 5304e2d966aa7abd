use mimosa::backend::{default_driver, Backend, CommandBackend, KeyringBackend};
use mimosa::engine::{CommandSpec, IoEvent, ScriptedPort};
use mimosa::error::Error;
use mimosa::keyring::{DriverKind, DriverPort, NativeDrivers};
use mimosa::profile::{Platform, Profile};

fn profile() -> Profile {
    Profile {
        platform: Platform::Linux,
        keyring: true,
        command: true,
        dbus_secret_service: false,
        zbus_secret_service: false,
        keyutils: false,
        apple_native: false,
        windows_native: false,
    }
}

fn command(name: &str) -> CommandSpec {
    CommandSpec { program: name.to_string(), args: vec![], envs: vec![] }
}

fn command_backend() -> Backend {
    Backend::Command(CommandBackend {
        get: command("get-secret"),
        set: command("set-secret"),
        delete: command("delete-secret"),
    })
}

/// Events are delivered in reverse order of the vector (the port pops).
fn port(mut events: Vec<IoEvent>) -> ScriptedPort {
    events.reverse();
    ScriptedPort { script: events }
}

#[test]
fn command_get_returns_the_stripped_secret() {
    let backend = command_backend();
    let mut drivers = NativeDrivers;
    let mut p = port(vec![
        IoEvent::Spawned,
        IoEvent::OutData(b"hunter2\n".to_vec()),
        IoEvent::OutEof,
        IoEvent::ErrEof,
        IoEvent::Exited(0),
    ]);
    let secret = backend.get_password(&profile(), &mut drivers, &mut p).expect("get succeeds");
    assert_eq!(secret, "hunter2");
}

#[test]
fn command_get_failure_reports_its_stdout() {
    let backend = command_backend();
    let mut drivers = NativeDrivers;
    let mut p = port(vec![
        IoEvent::Spawned,
        IoEvent::OutData(b"locked".to_vec()),
        IoEvent::OutEof,
        IoEvent::ErrData(b"ignored".to_vec()),
        IoEvent::ErrEof,
        IoEvent::Exited(1),
    ]);
    match backend.get_password(&profile(), &mut drivers, &mut p) {
        Err(Error::CommandFailure(m)) => assert_eq!(m, "locked"),
        _ => panic!("expected a command failure"),
    }
}

#[test]
fn command_delete_succeeds_by_exit_status_alone() {
    let backend = command_backend();
    let mut drivers = NativeDrivers;
    let mut p = port(vec![
        IoEvent::Spawned,
        IoEvent::OutData(b"deleted!\n".to_vec()),
        IoEvent::OutEof,
        IoEvent::ErrEof,
        IoEvent::Exited(0),
    ]);
    assert!(backend.delete_password(&profile(), &mut drivers, &mut p).is_ok());
}

#[test]
fn keyring_backend_without_any_driver_feature_names_the_candidates() {
    let backend = Backend::Keyring(KeyringBackend {
        service: "svc".to_string(),
        user: "me".to_string(),
    });
    let mut drivers = NativeDrivers;
    let mut p = port(vec![]);
    match backend.get_password(&profile(), &mut drivers, &mut p) {
        Err(Error::FeatureUnavailable(f)) => {
            assert_eq!(f, "dbus-secret-service, apple-native, or windows-native")
        },
        _ => panic!("expected a feature error naming the candidate drivers"),
    }
}

#[test]
fn spawn_failure_never_masquerades_as_command_failure() {
    let backend = command_backend();
    let mut drivers = NativeDrivers;
    let mut p = port(vec![IoEvent::SpawnFailed("permission denied".to_string())]);
    match backend.set_password(&profile(), &mut drivers, &mut p, "s") {
        Err(Error::SpawnError(m)) => assert_eq!(m, "permission denied"),
        _ => panic!("expected a spawn error"),
    }
}

/// A port that records every kind it is asked to install.
struct RecordingPort {
    kinds: Vec<DriverKind>,
}

impl DriverPort for RecordingPort {
    fn install(&mut self, kind: DriverKind) -> Result<(), String> {
        self.kinds.push(kind);
        Ok(())
    }
}

#[test]
fn default_driver_prefers_dbus_over_the_rest() {
    let mut p = profile();
    p.dbus_secret_service = true;
    p.apple_native = true;
    p.windows_native = true;
    assert_eq!(default_driver(&p), Some(DriverKind::DbusSecretService));
    p.dbus_secret_service = false;
    assert_eq!(default_driver(&p), Some(DriverKind::AppleKeychain));
    p.apple_native = false;
    assert_eq!(default_driver(&p), Some(DriverKind::WindowsCredentialManager));
    p.windows_native = false;
    assert_eq!(default_driver(&p), None);
}

#[test]
fn init_keyring_store_installs_exactly_the_preferred_driver() {
    let mut p = profile();
    p.dbus_secret_service = true;
    p.windows_native = true;
    let mut port = RecordingPort { kinds: vec![] };
    let installed = mimosa::backend::init_keyring_store(&p, &mut port).expect("install succeeds");
    assert_eq!(installed, DriverKind::DbusSecretService);
    assert_eq!(port.kinds, vec![DriverKind::DbusSecretService]);
}
