//! The generic Secret Service store, reachable over two alternative
//! transports.

use vstd::prelude::*;

use crate::error::{BackendOp, Error};
use crate::keyring;
use crate::keyring::{DriverKind, DriverPort};
use crate::profile::Profile;
use crate::secret::Secret;

verus! {

/// Which Secret Service transport to use; left unset, the natively
/// compiled transport is tried first with the other as fallback.
#[derive(Clone, Copy, PartialEq, Eq, Structural)]
pub enum Flavour {
    Dbus,
    Zbus,
}

/// The identity of one secret in the Secret Service, with an optional
/// transport choice.
pub struct SecretServiceStore {
    pub service: String,
    pub user: String,
    pub flavour: Option<Flavour>,
}

/// The gating errors a Secret Service operation re-asserts, per chosen
/// flavour, before touching the driver: wrong platform first, then the
/// missing transport feature, naming both when neither is compiled in.
pub open spec fn spec_gate_err(profile: Profile, flavour: Option<Flavour>, e: Error) -> bool {
    if !profile.spec_secret_service_platform() {
        e matches Error::PlatformUnavailable(f) && f@ == "secret-service"@
    } else {
        match flavour {
            Some(Flavour::Dbus) => if !profile.dbus_secret_service {
                e matches Error::FeatureUnavailable(f) && f@ == "dbus-secret-service"@
            } else {
                e matches Error::BackendError(op, _) && op == BackendOp::CreateStore
            },
            Some(Flavour::Zbus) => if !profile.zbus_secret_service {
                e matches Error::FeatureUnavailable(f) && f@ == "zbus-secret-service"@
            } else {
                e matches Error::BackendError(op, _) && op == BackendOp::CreateStore
            },
            None => if !profile.dbus_secret_service && !profile.zbus_secret_service {
                e matches Error::FeatureUnavailable(f) && f@
                    == "dbus-secret-service or zbus-secret-service"@
            } else {
                e matches Error::BackendError(op, _) && op == BackendOp::CreateStore
            },
        }
    }
}

/// The transport the default flavour selects: the natively compiled
/// D-Bus transport first, the bus-protocol transport only as a
/// fallback when that one is not compiled in.
pub open spec fn spec_default_transport(profile: Profile) -> Option<DriverKind> {
    if profile.dbus_secret_service {
        Some(DriverKind::DbusSecretService)
    } else if profile.zbus_secret_service {
        Some(DriverKind::ZbusSecretService)
    } else {
        None
    }
}

/// The transport a flavour choice selects: an explicit flavour names
/// its own transport; an unset one falls back to the default order.
pub open spec fn spec_selected_transport(profile: Profile, flavour: Option<Flavour>) -> Option<
    DriverKind,
> {
    match flavour {
        Some(Flavour::Dbus) => Some(DriverKind::DbusSecretService),
        Some(Flavour::Zbus) => Some(DriverKind::ZbusSecretService),
        None => spec_default_transport(profile),
    }
}

/// Whether the build and platform admit the chosen flavour at all.
pub open spec fn spec_gate_open(profile: Profile, flavour: Option<Flavour>) -> bool {
    profile.spec_secret_service_platform() && match flavour {
        Some(Flavour::Dbus) => profile.dbus_secret_service,
        Some(Flavour::Zbus) => profile.zbus_secret_service,
        None => profile.dbus_secret_service || profile.zbus_secret_service,
    }
}

impl SecretServiceStore {
    /// Installs the D-Bus-native Secret Service transport as the
    /// process-wide default driver.
    pub fn init_dbus<P: DriverPort>(&self, profile: &Profile, port: &mut P) -> (r: Result<
        DriverKind,
        Error,
    >)
        ensures
            r matches Ok(k) ==> k == DriverKind::DbusSecretService,
            r matches Err(e) ==> spec_gate_err(*profile, Some(Flavour::Dbus), e),
            !spec_gate_open(*profile, Some(Flavour::Dbus)) ==> r is Err,
    {
        if !profile.secret_service_platform() {
            return Err(Error::PlatformUnavailable("secret-service".to_owned()));
        }
        if !profile.dbus_secret_service {
            return Err(Error::FeatureUnavailable("dbus-secret-service".to_owned()));
        }
        match port.install(DriverKind::DbusSecretService) {
            Ok(()) => Ok(DriverKind::DbusSecretService),
            Err(m) => Err(Error::BackendError(BackendOp::CreateStore, m)),
        }
    }

    /// Installs the bus-protocol Secret Service transport as the
    /// process-wide default driver.
    pub fn init_zbus<P: DriverPort>(&self, profile: &Profile, port: &mut P) -> (r: Result<
        DriverKind,
        Error,
    >)
        ensures
            r matches Ok(k) ==> k == DriverKind::ZbusSecretService,
            r matches Err(e) ==> spec_gate_err(*profile, Some(Flavour::Zbus), e),
            !spec_gate_open(*profile, Some(Flavour::Zbus)) ==> r is Err,
    {
        if !profile.secret_service_platform() {
            return Err(Error::PlatformUnavailable("secret-service".to_owned()));
        }
        if !profile.zbus_secret_service {
            return Err(Error::FeatureUnavailable("zbus-secret-service".to_owned()));
        }
        match port.install(DriverKind::ZbusSecretService) {
            Ok(()) => Ok(DriverKind::ZbusSecretService),
            Err(m) => Err(Error::BackendError(BackendOp::CreateStore, m)),
        }
    }

    /// With no flavour chosen, tries the natively compiled transport
    /// first and falls back to the other only if the first is not
    /// compiled in; fails naming both features when neither is.
    pub fn init_default<P: DriverPort>(&self, profile: &Profile, port: &mut P) -> (r: Result<
        DriverKind,
        Error,
    >)
        ensures
            r matches Ok(k) ==> Some(k) == spec_default_transport(*profile),
            r matches Err(e) ==> spec_gate_err(*profile, None, e),
            !spec_gate_open(*profile, None) ==> r is Err,
    {
        if !profile.secret_service_platform() {
            return Err(Error::PlatformUnavailable("secret-service".to_owned()));
        }
        if profile.dbus_secret_service {
            self.init_dbus(profile, port)
        } else if profile.zbus_secret_service {
            self.init_zbus(profile, port)
        } else {
            Err(Error::FeatureUnavailable("dbus-secret-service or zbus-secret-service".to_owned()))
        }
    }

    /// Installs the transport the flavour selects, re-asserting
    /// platform and feature validity first. Installation is idempotent
    /// within a process.
    pub fn init<P: DriverPort>(&self, profile: &Profile, port: &mut P) -> (r: Result<
        DriverKind,
        Error,
    >)
        ensures
            r matches Ok(k) ==> Some(k) == spec_selected_transport(*profile, self.flavour),
            r matches Err(e) ==> spec_gate_err(*profile, self.flavour, e),
            !spec_gate_open(*profile, self.flavour) ==> r is Err,
    {
        match self.flavour {
            Some(Flavour::Dbus) => self.init_dbus(profile, port),
            Some(Flavour::Zbus) => self.init_zbus(profile, port),
            None => self.init_default(profile, port),
        }
    }

    pub fn read<P: DriverPort>(&self, profile: &Profile, port: &mut P) -> (r: Result<
        Secret,
        Error,
    >)
        ensures
            r matches Err(e) ==> (spec_gate_err(*profile, self.flavour, e) || e is NotFound
                || e matches Error::BackendError(_, _)),
            !spec_gate_open(*profile, self.flavour) ==> (r matches Err(e) && spec_gate_err(
                *profile,
                self.flavour,
                e,
            )),
    {
        match self.init(profile, port) {
            Ok(_) => (),
            Err(e) => {
                return Err(e);
            },
        }
        keyring::read(self.service.as_str(), self.user.as_str())
    }

    pub fn write<P: DriverPort>(&self, profile: &Profile, port: &mut P, secret: Secret) -> (r:
        Result<(), Error>)
        ensures
            r matches Err(e) ==> (spec_gate_err(*profile, self.flavour, e) || e matches
                Error::BackendError(_, _)),
            !spec_gate_open(*profile, self.flavour) ==> (r matches Err(e) && spec_gate_err(
                *profile,
                self.flavour,
                e,
            )),
    {
        match self.init(profile, port) {
            Ok(_) => (),
            Err(e) => {
                return Err(e);
            },
        }
        keyring::write(self.service.as_str(), self.user.as_str(), secret)
    }

    pub fn remove<P: DriverPort>(&self, profile: &Profile, port: &mut P) -> (r: Result<
        bool,
        Error,
    >)
        ensures
            r matches Err(e) ==> (spec_gate_err(*profile, self.flavour, e) || e matches
                Error::BackendError(_, _)),
            !spec_gate_open(*profile, self.flavour) ==> (r matches Err(e) && spec_gate_err(
                *profile,
                self.flavour,
                e,
            )),
    {
        match self.init(profile, port) {
            Ok(_) => (),
            Err(e) => {
                return Err(e);
            },
        }
        keyring::remove(self.service.as_str(), self.user.as_str())
    }
}

} // verus!
