//! The account backend: a platform keyring or a set of user-supplied
//! external commands, behind one get/set/delete contract.

pub mod de;

use vstd::prelude::*;
use vstd::slice::slice_to_vec;

use crate::engine::{get_outcome, run_command, set_outcome, delete_outcome, CommandSpec,
    EnginePort};
use crate::error::{BackendOp, Error};
use crate::keyring::{entry_get_password, entry_new, entry_set_password, entry_delete_credential,
    interpret_get, DeleteOutcome, DriverKind, DriverPort};
use crate::profile::Profile;

verus! {

/// The identity a keyring-backed account stores its secret under.
pub struct KeyringBackend {
    pub service: String,
    pub user: String,
}

/// The three user-supplied commands of a command-backed account, one
/// per operation, each independently configured.
pub struct CommandBackend {
    pub get: CommandSpec,
    pub set: CommandSpec,
    pub delete: CommandSpec,
}

/// One account backend: exactly one variant is active per account.
pub enum Backend {
    Keyring(KeyringBackend),
    Command(CommandBackend),
}

/// The driver kinds `init_keyring_store` tries, in order: the first one
/// whose feature is compiled in wins.
pub open spec fn spec_default_driver(profile: Profile) -> Option<DriverKind> {
    if profile.dbus_secret_service {
        Some(DriverKind::DbusSecretService)
    } else if profile.apple_native {
        Some(DriverKind::AppleKeychain)
    } else if profile.windows_native {
        Some(DriverKind::WindowsCredentialManager)
    } else {
        None
    }
}

/// The keyring driver this build installs by default: exactly the
/// first compiled-in feature, in the order dbus-secret-service,
/// apple-native, windows-native.
pub fn default_driver(profile: &Profile) -> (k: Option<DriverKind>)
    ensures
        k == spec_default_driver(*profile),
{
    if profile.dbus_secret_service {
        Some(DriverKind::DbusSecretService)
    } else if profile.apple_native {
        Some(DriverKind::AppleKeychain)
    } else if profile.windows_native {
        Some(DriverKind::WindowsCredentialManager)
    } else {
        None
    }
}

/// Installs the first compiled-in keyring driver as the process-wide
/// default store and reports which one it was, failing with an error
/// naming the candidate features when none is compiled in. Only the
/// selected kind is ever handed to the port.
pub fn init_keyring_store<D: DriverPort>(profile: &Profile, port: &mut D) -> (r: Result<
    DriverKind,
    Error,
>)
    ensures
        r matches Ok(k) ==> Some(k) == spec_default_driver(*profile),
        spec_default_driver(*profile) is None ==> (r matches Err(e) && e matches
            Error::FeatureUnavailable(f) && f@
            == "dbus-secret-service, apple-native, or windows-native"@),
        r matches Err(e) ==> (spec_default_driver(*profile) is Some ==> (e matches
            Error::BackendError(op, _) && op == BackendOp::CreateStore)),
{
    let kind = match default_driver(profile) {
        Some(k) => k,
        None => {
            return Err(
                Error::FeatureUnavailable(
                    "dbus-secret-service, apple-native, or windows-native".to_owned(),
                ),
            );
        },
    };
    match port.install(kind) {
        Ok(()) => Ok(kind),
        Err(m) => Err(Error::BackendError(BackendOp::CreateStore, m)),
    }
}

impl Backend {
    /// Reads the secret. A keyring backend initializes the default
    /// driver and asks it; a command backend runs the configured `get`
    /// command with no stdin wiring, servicing its output pipes until
    /// exit, and yields the decoded standard output with at most one
    /// trailing line terminator removed.
    pub fn get_password<D: DriverPort, P: EnginePort>(
        &self,
        profile: &Profile,
        driver: &mut D,
        port: &mut P,
    ) -> (r: Result<String, Error>)
        ensures
            self is Keyring && spec_default_driver(*profile) is None ==> (r matches Err(e)
                && e matches Error::FeatureUnavailable(f) && f@
                == "dbus-secret-service, apple-native, or windows-native"@),
            self is Keyring ==> (r matches Err(e) ==> (if spec_default_driver(*profile) is Some {
                e is NotFound || e is BackendError
            } else {
                e is FeatureUnavailable
            })),
            self is Command ==> (r matches Err(e) ==> (e is SpawnError || e is EncodingError || (
            e matches Error::CommandFailure(m) && m@.len() > 0))),
    {
        match self {
            Backend::Keyring(config) => {
                match init_keyring_store(profile, driver) {
                    Ok(_) => (),
                    Err(e) => {
                        return Err(e);
                    },
                }
                let entry = match entry_new(config.service.as_str(), config.user.as_str()) {
                    Ok(e) => e,
                    Err(m) => {
                        return Err(Error::BackendError(BackendOp::CreateEntry, m));
                    },
                };
                match interpret_get(entry_get_password(&entry)) {
                    Ok(secret) => Ok(secret.expose_secret().to_owned()),
                    Err(e) => Err(e),
                }
            },
            Backend::Command(config) => {
                let res = match run_command(&config.get, None, port) {
                    Ok(res) => res,
                    Err(e) => {
                        return Err(e);
                    },
                };
                match get_outcome(res) {
                    Ok(secret) => Ok(secret.expose_secret().to_owned()),
                    Err(e) => Err(e),
                }
            },
        }
    }

    /// Writes the secret; idempotent. A keyring backend passes it to
    /// the driver unchanged. A command backend streams it to the
    /// configured `set` command's standard input — never an argument or
    /// the environment — while concurrently draining the child's output
    /// pipes, and judges success purely by exit status.
    pub fn set_password<D: DriverPort, P: EnginePort>(
        &self,
        profile: &Profile,
        driver: &mut D,
        port: &mut P,
        password: &str,
    ) -> (r: Result<(), Error>)
        ensures
            self is Keyring && spec_default_driver(*profile) is None ==> (r matches Err(e)
                && e matches Error::FeatureUnavailable(f) && f@
                == "dbus-secret-service, apple-native, or windows-native"@),
            self is Keyring ==> (r matches Err(e) ==> (if spec_default_driver(*profile) is Some {
                e is BackendError
            } else {
                e is FeatureUnavailable
            })),
            self is Command ==> (r matches Err(e) ==> (e is SpawnError || (e matches
                Error::CommandFailure(m) && m@.len() > 0))),
    {
        match self {
            Backend::Keyring(config) => {
                match init_keyring_store(profile, driver) {
                    Ok(_) => (),
                    Err(e) => {
                        return Err(e);
                    },
                }
                let entry = match entry_new(config.service.as_str(), config.user.as_str()) {
                    Ok(e) => e,
                    Err(m) => {
                        return Err(Error::BackendError(BackendOp::CreateEntry, m));
                    },
                };
                match entry_set_password(&entry, password) {
                    Ok(()) => Ok(()),
                    Err(m) => Err(Error::BackendError(BackendOp::SetPassword, m)),
                }
            },
            Backend::Command(config) => {
                let payload: Vec<u8> = slice_to_vec(password.as_bytes());
                let res = match run_command(&config.set, Some(payload), port) {
                    Ok(res) => res,
                    Err(e) => {
                        return Err(e);
                    },
                };
                set_outcome(res)
            },
        }
    }

    /// Deletes the secret. A command backend runs the configured
    /// `delete` command, whose own output only matters for the
    /// diagnostic on failure.
    pub fn delete_password<D: DriverPort, P: EnginePort>(
        &self,
        profile: &Profile,
        driver: &mut D,
        port: &mut P,
    ) -> (r: Result<(), Error>)
        ensures
            self is Keyring && spec_default_driver(*profile) is None ==> (r matches Err(e)
                && e matches Error::FeatureUnavailable(f) && f@
                == "dbus-secret-service, apple-native, or windows-native"@),
            self is Keyring ==> (r matches Err(e) ==> (if spec_default_driver(*profile) is Some {
                e is NotFound || e is BackendError
            } else {
                e is FeatureUnavailable
            })),
            self is Command ==> (r matches Err(e) ==> (e is SpawnError || (e matches
                Error::CommandFailure(m) && m@.len() > 0))),
    {
        match self {
            Backend::Keyring(config) => {
                match init_keyring_store(profile, driver) {
                    Ok(_) => (),
                    Err(e) => {
                        return Err(e);
                    },
                }
                let entry = match entry_new(config.service.as_str(), config.user.as_str()) {
                    Ok(e) => e,
                    Err(m) => {
                        return Err(Error::BackendError(BackendOp::CreateEntry, m));
                    },
                };
                match entry_delete_credential(&entry) {
                    DeleteOutcome::Deleted => Ok(()),
                    DeleteOutcome::Absent => Err(Error::NotFound),
                    DeleteOutcome::Failure(m) => Err(
                        Error::BackendError(BackendOp::DeletePassword, m),
                    ),
                }
            },
            Backend::Command(config) => {
                let res = match run_command(&config.delete, None, port) {
                    Ok(res) => res,
                    Err(e) => {
                        return Err(e);
                    },
                };
                delete_outcome(res)
            },
        }
    }
}

} // verus!
