use mimosa::account::Account;
use mimosa::backend::{Backend, CommandBackend};
use mimosa::config::Config;
use mimosa::engine::{CommandSpec, IoEvent, ScriptedPort};
use mimosa::error::Error;
use mimosa::keyring::NativeDrivers;
use mimosa::password::read::ReadPasswordCommand;
use mimosa::password::remove::{PasswordRemoved, RemovePasswordCommand};
use mimosa::password::set::SetPasswordCommand;
use mimosa::password::write::{PasswordWritten, WritePasswordCommand};
use mimosa::profile::{Platform, Profile};
use mimosa::store::keyutils::KeyutilsStore;
use mimosa::store::Store;

fn profile() -> Profile {
    Profile {
        platform: Platform::Linux,
        keyring: true,
        command: true,
        dbus_secret_service: false,
        zbus_secret_service: false,
        keyutils: false,
        apple_native: false,
        windows_native: false,
    }
}

fn config_with(name: &str) -> Config {
    Config {
        stores: vec![(
            name.to_string(),
            Store::Keyutils(KeyutilsStore {
                service: "svc".to_string(),
                user: "me".to_string(),
            }),
        )],
    }
}

#[test]
fn unknown_store_name_is_a_configuration_error() {
    let cmd = ReadPasswordCommand { store: "missing".to_string() };
    let mut drivers = NativeDrivers;
    match cmd.execute(&config_with("present"), &profile(), &mut drivers) {
        Err(Error::ConfigurationError(n)) => assert_eq!(n, "missing"),
        _ => panic!("expected a configuration error"),
    }
}

#[test]
fn read_reasserts_feature_gating() {
    let cmd = ReadPasswordCommand { store: "present".to_string() };
    let mut drivers = NativeDrivers;
    match cmd.execute(&config_with("present"), &profile(), &mut drivers) {
        Err(Error::FeatureUnavailable(f)) => assert_eq!(f, "keyutils"),
        _ => panic!("expected a feature error"),
    }
}

#[test]
fn write_rejects_invalid_utf8_input() {
    let cmd = WritePasswordCommand { store: "present".to_string(), password: None };
    let mut drivers = NativeDrivers;
    match cmd.execute(&config_with("present"), &profile(), &mut drivers, Some(vec![0xff, 0xfe])) {
        Err(Error::EncodingError) => (),
        _ => panic!("expected an encoding error"),
    }
}

#[test]
fn literal_write_reasserts_gating_without_trim_concerns() {
    let cmd = WritePasswordCommand {
        store: "present".to_string(),
        password: Some(mimosa::secret::Secret::new("hunter2\n".to_string())),
    };
    let mut drivers = NativeDrivers;
    match cmd.execute(&config_with("present"), &profile(), &mut drivers, None) {
        Err(Error::FeatureUnavailable(f)) => assert_eq!(f, "keyutils"),
        _ => panic!("expected a feature error"),
    }
}

#[test]
fn remove_on_unknown_store_never_reaches_a_driver() {
    let cmd = RemovePasswordCommand { store: "missing".to_string() };
    let mut drivers = NativeDrivers;
    match cmd.execute(&config_with("present"), &profile(), &mut drivers) {
        Err(Error::ConfigurationError(n)) => assert_eq!(n, "missing"),
        _ => panic!("expected a configuration error"),
    }
}

#[test]
fn removal_messages_name_the_store() {
    let removed = PasswordRemoved { store: "vault".to_string(), removed: true };
    assert_eq!(removed.message(), "Password successfully removed from vault");
    let kept = PasswordRemoved { store: "vault".to_string(), removed: false };
    assert_eq!(kept.message(), "No password found in vault, nothing was removed");
}

#[test]
fn written_message_names_the_store() {
    let written = PasswordWritten { store: "vault".to_string() };
    assert_eq!(written.message(), "Password successfully written to vault");
}

fn command(name: &str) -> CommandSpec {
    CommandSpec { program: name.to_string(), args: vec![], envs: vec![] }
}

fn command_account() -> Account {
    Account {
        default: true,
        backend: Backend::Command(CommandBackend {
            get: command("g"),
            set: command("s"),
            delete: command("d"),
        }),
    }
}

#[test]
fn set_normalizes_the_line_before_the_backend_sees_it() {
    // The scripted run acknowledges exactly the normalized payload:
    // "hunter2\r\n" arrives as 7 bytes once trimmed.
    let account = command_account();
    let mut drivers = NativeDrivers;
    let mut port = ScriptedPort {
        script: vec![
            IoEvent::Exited(0),
            IoEvent::ErrEof,
            IoEvent::OutEof,
            IoEvent::StdinClosed,
            IoEvent::Wrote(7),
            IoEvent::Spawned,
        ],
    };
    let cmd = SetPasswordCommand {};
    let r = cmd.execute(
        &account,
        &profile(),
        &mut drivers,
        &mut port,
        b"hunter2\r\n".to_vec(),
    );
    assert!(r.is_ok());
}

#[test]
fn set_with_failing_command_surfaces_its_stderr() {
    let account = command_account();
    let mut drivers = NativeDrivers;
    let mut port = ScriptedPort {
        script: vec![
            IoEvent::Exited(5),
            IoEvent::ErrEof,
            IoEvent::ErrData(b"store is sealed".to_vec()),
            IoEvent::OutEof,
            IoEvent::StdinClosed,
            IoEvent::Wrote(1),
            IoEvent::Spawned,
        ],
    };
    let cmd = SetPasswordCommand {};
    match cmd.execute(&account, &profile(), &mut drivers, &mut port, b"x\n".to_vec()) {
        Err(Error::CommandFailure(m)) => assert_eq!(m, "store is sealed"),
        _ => panic!("expected a command failure"),
    }
}

#[test]
fn probing_without_a_driver_is_a_backend_error() {
    // No default driver was installed in this process, so entry
    // creation must fail as a classified backend error, never a panic.
    match mimosa::keyring::entry_exists("mimosa-test", "nobody") {
        Err(Error::BackendError(_, m)) => assert!(!m.is_empty()),
        Ok(_) => panic!("no driver is installed, existence cannot be known"),
        Err(_) => panic!("expected a backend error"),
    }
}
