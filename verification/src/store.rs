//! Platform secret-store backends and their resolver.

pub mod de;
pub mod keyutils;
pub mod macos;
pub mod secret_service;
pub mod windows;

use vstd::prelude::*;

use crate::error::Error;
use crate::keyring::DriverPort;
use crate::profile::Profile;
use crate::secret::Secret;
use crate::store::keyutils::KeyutilsStore;
use crate::store::macos::MacosStore;
use crate::store::secret_service::SecretServiceStore;
use crate::store::windows::WindowsStore;

verus! {

/// A store configuration resolved from the tagged record form: exactly
/// one concrete platform backend.
pub enum Store {
    SecretService(SecretServiceStore),
    Keyutils(KeyutilsStore),
    Macos(MacosStore),
    Windows(WindowsStore),
}

impl Store {
    /// Whether the build and platform admit this store's kind: every
    /// operation re-asserts this before any driver call and fails when
    /// it does not hold.
    pub open spec fn spec_gate_open(self, profile: Profile) -> bool {
        match self {
            Store::SecretService(s) => secret_service::spec_gate_open(profile, s.flavour),
            Store::Keyutils(_) => keyutils::spec_gate_open(profile),
            Store::Macos(_) => macos::spec_gate_open(profile),
            Store::Windows(_) => windows::spec_gate_open(profile),
        }
    }

    /// The exact gating error the store's kind reports: the platform
    /// mismatch first, then the missing feature, each naming the
    /// kind's own feature.
    pub open spec fn spec_gate_err(self, profile: Profile, e: Error) -> bool {
        match self {
            Store::SecretService(s) => secret_service::spec_gate_err(profile, s.flavour, e),
            Store::Keyutils(_) => keyutils::spec_gate_err(profile, e),
            Store::Macos(_) => macos::spec_gate_err(profile, e),
            Store::Windows(_) => windows::spec_gate_err(profile, e),
        }
    }

    /// Reads the store's secret; absence is `NotFound`.
    pub fn read<P: DriverPort>(&self, profile: &Profile, port: &mut P) -> (r: Result<
        Secret,
        Error,
    >)
        ensures
            !self.spec_gate_open(*profile) ==> (r matches Err(e) && self.spec_gate_err(
                *profile,
                e,
            )),
            r matches Err(e) ==> !(e is SpawnError || e is CommandFailure || e is EncodingError
                || e is ConfigurationError),
    {
        match self {
            Store::SecretService(s) => s.read(profile, port),
            Store::Keyutils(s) => s.read(profile, port),
            Store::Macos(s) => s.read(profile, port),
            Store::Windows(s) => s.read(profile, port),
        }
    }

    /// Creates or overwrites the store's secret; idempotent.
    pub fn write<P: DriverPort>(&self, profile: &Profile, port: &mut P, secret: Secret) -> (r:
        Result<(), Error>)
        ensures
            !self.spec_gate_open(*profile) ==> (r matches Err(e) && self.spec_gate_err(
                *profile,
                e,
            )),
            r matches Err(e) ==> !(e is SpawnError || e is CommandFailure || e is EncodingError
                || e is ConfigurationError || e is NotFound),
    {
        match self {
            Store::SecretService(s) => s.write(profile, port, secret),
            Store::Keyutils(s) => s.write(profile, port, secret),
            Store::Macos(s) => s.write(profile, port, secret),
            Store::Windows(s) => s.write(profile, port, secret),
        }
    }

    /// Removes the store's secret: `true` if one existed, `false` if
    /// none did; absence is success, never an error.
    pub fn remove<P: DriverPort>(&self, profile: &Profile, port: &mut P) -> (r: Result<
        bool,
        Error,
    >)
        ensures
            !self.spec_gate_open(*profile) ==> (r matches Err(e) && self.spec_gate_err(
                *profile,
                e,
            )),
            r matches Err(e) ==> !(e is SpawnError || e is CommandFailure || e is EncodingError
                || e is ConfigurationError || e is NotFound),
    {
        match self {
            Store::SecretService(s) => s.remove(profile, port),
            Store::Keyutils(s) => s.remove(profile, port),
            Store::Macos(s) => s.remove(profile, port),
            Store::Windows(s) => s.remove(profile, port),
        }
    }
}

} // verus!
