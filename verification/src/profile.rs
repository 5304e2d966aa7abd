//! The build profile: which backend features this build carries and
//! which operating system it is running on.
//!
//! Feature availability is ordinary conditional compilation in a CLI
//! binary; here it is modelled as an explicit value so that the gating
//! decisions are checkable. The binary constructs the profile once, from
//! its compile-time configuration, and every kind absent from the build
//! remains a named, recognizable value that fails deterministically.

use vstd::prelude::*;

verus! {

#[derive(Clone, Copy, PartialEq, Eq, Structural)]
pub enum Platform {
    Linux,
    Freebsd,
    Macos,
    Windows,
    Other,
}

/// Which backend features are compiled in, and the running platform.
#[derive(Clone, Copy, PartialEq, Eq, Structural)]
pub struct Profile {
    pub platform: Platform,
    /// Any platform secret-store backend at all.
    pub keyring: bool,
    /// The external-command backend.
    pub command: bool,
    pub dbus_secret_service: bool,
    pub zbus_secret_service: bool,
    pub keyutils: bool,
    pub apple_native: bool,
    pub windows_native: bool,
}

impl Profile {
    /// Whether the platform is one where a Secret Service bus exists.
    pub open spec fn spec_secret_service_platform(self) -> bool {
        self.platform == Platform::Linux || self.platform == Platform::Freebsd
    }

    pub fn secret_service_platform(&self) -> (r: bool)
        ensures
            r == self.spec_secret_service_platform(),
    {
        match self.platform {
            Platform::Linux => true,
            Platform::Freebsd => true,
            _ => false,
        }
    }
}

} // verus!
