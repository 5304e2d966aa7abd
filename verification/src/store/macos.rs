//! The Apple keychain store.

use vstd::prelude::*;

use crate::error::{BackendOp, Error};
use crate::keyring;
use crate::keyring::{DriverKind, DriverPort};
use crate::profile::{Platform, Profile};
use crate::secret::Secret;

verus! {

/// The identity of one secret in the Apple keychain.
pub struct MacosStore {
    pub service: String,
    pub user: String,
}

/// The gating errors every Apple keychain operation re-asserts before
/// touching the driver.
pub open spec fn spec_gate_err(profile: Profile, e: Error) -> bool {
    if profile.platform != Platform::Macos {
        e matches Error::PlatformUnavailable(f) && f@ == "apple-native"@
    } else if !profile.apple_native {
        e matches Error::FeatureUnavailable(f) && f@ == "apple-native"@
    } else {
        e matches Error::BackendError(op, _) && op == BackendOp::CreateStore
    }
}

/// Whether the build and platform admit this store at all.
pub open spec fn spec_gate_open(profile: Profile) -> bool {
    profile.platform == Platform::Macos && profile.apple_native
}

impl MacosStore {
    /// Installs the Apple keychain driver as the process-wide default,
    /// after asserting that this build targets macOS and carries the
    /// `apple-native` feature. Installation is idempotent within a
    /// process.
    pub fn init<P: DriverPort>(&self, profile: &Profile, port: &mut P) -> (r: Result<(), Error>)
        ensures
            r matches Err(e) ==> spec_gate_err(*profile, e),
            !spec_gate_open(*profile) ==> r is Err,
    {
        if !matches!(profile.platform, Platform::Macos) {
            return Err(Error::PlatformUnavailable("apple-native".to_owned()));
        }
        if !profile.apple_native {
            return Err(Error::FeatureUnavailable("apple-native".to_owned()));
        }
        match port.install(DriverKind::AppleKeychain) {
            Ok(()) => Ok(()),
            Err(m) => Err(Error::BackendError(BackendOp::CreateStore, m)),
        }
    }

    pub fn read<P: DriverPort>(&self, profile: &Profile, port: &mut P) -> (r: Result<
        Secret,
        Error,
    >)
        ensures
            r matches Err(e) ==> (spec_gate_err(*profile, e) || e is NotFound || e matches
                Error::BackendError(_, _)),
            !spec_gate_open(*profile) ==> (r matches Err(e) && spec_gate_err(*profile, e)),
    {
        match self.init(profile, port) {
            Ok(()) => (),
            Err(e) => {
                return Err(e);
            },
        }
        keyring::read(self.service.as_str(), self.user.as_str())
    }

    pub fn write<P: DriverPort>(&self, profile: &Profile, port: &mut P, secret: Secret) -> (r:
        Result<(), Error>)
        ensures
            r matches Err(e) ==> (spec_gate_err(*profile, e) || e matches Error::BackendError(
                _,
                _,
            )),
            !spec_gate_open(*profile) ==> (r matches Err(e) && spec_gate_err(*profile, e)),
    {
        match self.init(profile, port) {
            Ok(()) => (),
            Err(e) => {
                return Err(e);
            },
        }
        keyring::write(self.service.as_str(), self.user.as_str(), secret)
    }

    pub fn remove<P: DriverPort>(&self, profile: &Profile, port: &mut P) -> (r: Result<
        bool,
        Error,
    >)
        ensures
            r matches Err(e) ==> (spec_gate_err(*profile, e) || e matches Error::BackendError(
                _,
                _,
            )),
            !spec_gate_open(*profile) ==> (r matches Err(e) && spec_gate_err(*profile, e)),
    {
        match self.init(profile, port) {
            Ok(()) => (),
            Err(e) => {
                return Err(e);
            },
        }
        keyring::remove(self.service.as_str(), self.user.as_str())
    }
}

} // verus!
