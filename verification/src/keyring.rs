//! Platform keyring access: the capability interface over
//! `keyring-core` entries, and installation of the process-wide default
//! driver.

use vstd::prelude::*;

use crate::error::{BackendOp, Error};
use crate::secret::Secret;

verus! {

/// `keyring_core::Entry` is an opaque handle into the default store.
#[verifier::external_type_specification]
#[verifier::external_body]
pub struct ExEntry(keyring_core::Entry);

/// Every way a driver's get-password call can end.
pub enum GetOutcome {
    Found(String),
    Absent,
    Failure(String),
}

/// Every way a driver's delete-credential call can end.
pub enum DeleteOutcome {
    Deleted,
    Absent,
    Failure(String),
}

/// Relies on `keyring_core::Entry::new`: builds an entry handle for the
/// `(service, user)` pair in the process-wide default store.
#[verifier::external_body]
pub(crate) fn entry_new(service: &str, user: &str) -> (r: Result<keyring_core::Entry, String>) {
    match keyring_core::Entry::new(service, user) {
        Ok(e) => Ok(e),
        Err(e) => Err(format!("{e}")),
    }
}

/// Relies on `keyring_core::Entry::get_password`: returns the stored
/// password, `Error::NoEntry` when none exists, or another error.
#[verifier::external_body]
pub(crate) fn entry_get_password(entry: &keyring_core::Entry) -> (r: GetOutcome) {
    match entry.get_password() {
        Ok(password) => GetOutcome::Found(password),
        Err(keyring_core::Error::NoEntry) => GetOutcome::Absent,
        Err(e) => GetOutcome::Failure(format!("{e}")),
    }
}

/// Relies on `keyring_core::Entry::set_password`: creates or overwrites
/// the entry's password.
#[verifier::external_body]
pub(crate) fn entry_set_password(entry: &keyring_core::Entry, password: &str) -> (r: Result<
    (),
    String,
>) {
    match entry.set_password(password) {
        Ok(()) => Ok(()),
        Err(e) => Err(format!("{e}")),
    }
}

/// Relies on `keyring_core::Entry::delete_credential`: deletes the
/// entry, reporting `Error::NoEntry` when none exists.
#[verifier::external_body]
pub(crate) fn entry_delete_credential(entry: &keyring_core::Entry) -> (r: DeleteOutcome) {
    match entry.delete_credential() {
        Ok(()) => DeleteOutcome::Deleted,
        Err(keyring_core::Error::NoEntry) => DeleteOutcome::Absent,
        Err(e) => DeleteOutcome::Failure(format!("{e}")),
    }
}

/// How a read ends for each possible driver outcome: a found password
/// becomes the secret, absence becomes `NotFound`, anything else is a
/// backend error naming the get operation.
pub fn interpret_get(outcome: GetOutcome) -> (r: Result<Secret, Error>)
    ensures
        outcome matches GetOutcome::Found(p) ==> (r matches Ok(s) && s@ == p@),
        outcome is Absent ==> (r matches Err(e) && e is NotFound),
        outcome matches GetOutcome::Failure(m) ==> (r matches Err(e) && e matches Error::BackendError(op, d) && op == BackendOp::GetPassword && d@ == m@),
{
    match outcome {
        GetOutcome::Found(p) => Ok(Secret::new(p)),
        GetOutcome::Absent => Err(Error::NotFound),
        GetOutcome::Failure(m) => Err(Error::BackendError(BackendOp::GetPassword, m)),
    }
}

/// How an existence probe ends for each possible driver outcome.
pub fn interpret_exists(outcome: GetOutcome) -> (r: Result<bool, Error>)
    ensures
        outcome is Found ==> r == Ok::<bool, Error>(true),
        outcome is Absent ==> r == Ok::<bool, Error>(false),
        outcome matches GetOutcome::Failure(m) ==> (r matches Err(e) && e matches Error::BackendError(op, d) && op == BackendOp::GetPassword && d@ == m@),
{
    match outcome {
        GetOutcome::Found(_) => Ok(true),
        GetOutcome::Absent => Ok(false),
        GetOutcome::Failure(m) => Err(Error::BackendError(BackendOp::GetPassword, m)),
    }
}

/// How a removal ends for each possible driver outcome: deletion reports
/// `true`, absence reports `false` and is never an error, anything else
/// is a backend error naming the delete operation. Removal is thereby
/// idempotent as far as this library decides it: a store that deletes
/// an entry and then reports it absent yields `true` then `false`;
/// that a deleted entry is afterwards reported absent is the platform
/// store's own contract.
pub fn interpret_remove(outcome: DeleteOutcome) -> (r: Result<bool, Error>)
    ensures
        outcome is Deleted ==> r == Ok::<bool, Error>(true),
        outcome is Absent ==> r == Ok::<bool, Error>(false),
        outcome matches DeleteOutcome::Failure(m) ==> (r matches Err(e) && e matches Error::BackendError(op, d) && op == BackendOp::DeletePassword && d@ == m@),
{
    match outcome {
        DeleteOutcome::Deleted => Ok(true),
        DeleteOutcome::Absent => Ok(false),
        DeleteOutcome::Failure(m) => Err(Error::BackendError(BackendOp::DeletePassword, m)),
    }
}

/// Whether an entry exists for the pair; a driver failure is reported,
/// never mistaken for absence.
pub fn entry_exists(service: &str, user: &str) -> (r: Result<bool, Error>)
    ensures
        r matches Err(e) ==> (e matches Error::BackendError(op, _) && (op == BackendOp::CreateEntry || op == BackendOp::GetPassword)),
{
    let entry = match entry_new(service, user) {
        Ok(e) => e,
        Err(m) => {
            return Err(Error::BackendError(BackendOp::CreateEntry, m));
        },
    };
    interpret_exists(entry_get_password(&entry))
}

/// Reads the pair's secret; absence is `NotFound`.
pub fn read(service: &str, user: &str) -> (r: Result<Secret, Error>)
    ensures
        r matches Err(e) ==> (e is NotFound || (e matches Error::BackendError(op, _) && (op == BackendOp::CreateEntry || op == BackendOp::GetPassword))),
{
    let entry = match entry_new(service, user) {
        Ok(e) => e,
        Err(m) => {
            return Err(Error::BackendError(BackendOp::CreateEntry, m));
        },
    };
    interpret_get(entry_get_password(&entry))
}

/// Creates or overwrites the pair's secret.
pub fn write(service: &str, user: &str, secret: Secret) -> (r: Result<(), Error>)
    ensures
        r matches Err(e) ==> (e matches Error::BackendError(op, _) && (op == BackendOp::CreateEntry || op == BackendOp::SetPassword)),
{
    let entry = match entry_new(service, user) {
        Ok(e) => e,
        Err(m) => {
            return Err(Error::BackendError(BackendOp::CreateEntry, m));
        },
    };
    match entry_set_password(&entry, secret.expose_secret()) {
        Ok(()) => Ok(()),
        Err(m) => Err(Error::BackendError(BackendOp::SetPassword, m)),
    }
}

/// Removes the pair's secret: `true` if one existed, `false` if none
/// did; absence is success, not an error.
pub fn remove(service: &str, user: &str) -> (r: Result<bool, Error>)
    ensures
        r matches Err(e) ==> (e matches Error::BackendError(op, _) && (op == BackendOp::CreateEntry || op == BackendOp::DeletePassword)),
{
    let entry = match entry_new(service, user) {
        Ok(e) => e,
        Err(m) => {
            return Err(Error::BackendError(BackendOp::CreateEntry, m));
        },
    };
    interpret_remove(entry_delete_credential(&entry))
}

/// The concrete platform drivers a store may ask to have installed.
#[derive(Clone, Copy, Debug, PartialEq, Eq, Structural)]
pub enum DriverKind {
    DbusSecretService,
    ZbusSecretService,
    LinuxKeyutils,
    AppleKeychain,
    WindowsCredentialManager,
}

/// Installs a platform driver as the process-wide default store.
///
/// Installation is the one step that differs per build target, so the
/// caller chooses the port: [`NativeDrivers`] covers the drivers this
/// library links directly, and a binary built for another platform can
/// supply a port that reaches its native store.
pub trait DriverPort {
    fn install(&mut self, kind: DriverKind) -> Result<(), String>;
}

/// Relies on `linux_keyutils_keyring_store::Store::new` and
/// `keyring_core::set_default_store`: builds the kernel key-retention
/// driver and installs it as the process-wide default store.
#[verifier::external_body]
fn install_keyutils_driver() -> (r: Result<(), String>) {
    match linux_keyutils_keyring_store::Store::new() {
        Ok(store) => {
            keyring_core::set_default_store(store);
            Ok(())
        },
        Err(e) => Err(format!("{e}")),
    }
}

/// Relies on `zbus_secret_service_keyring_store::Store::new` and
/// `keyring_core::set_default_store`: builds the bus-protocol Secret
/// Service driver and installs it as the process-wide default store.
#[verifier::external_body]
fn install_zbus_driver() -> (r: Result<(), String>) {
    match zbus_secret_service_keyring_store::Store::new() {
        Ok(store) => {
            keyring_core::set_default_store(store);
            Ok(())
        },
        Err(e) => Err(format!("{e}")),
    }
}

/// The drivers linked into this build of the library.
pub struct NativeDrivers;

impl DriverPort for NativeDrivers {
    fn install(&mut self, kind: DriverKind) -> Result<(), String> {
        match kind {
            DriverKind::LinuxKeyutils => install_keyutils_driver(),
            DriverKind::ZbusSecretService => install_zbus_driver(),
            _ => Err("this driver is not linked into this build".to_owned()),
        }
    }
}

} // verus!
