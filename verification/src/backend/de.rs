//! The backend resolver: from the tagged form a configuration file
//! names to a concrete [`super::Backend`], gated on the build's
//! features.

use vstd::prelude::*;

use crate::error::Error;
use crate::profile::Profile;
use super::{CommandBackend, KeyringBackend};

verus! {

/// The raw, tagged form of a backend as configuration names it; both
/// variants parse even in builds that cannot serve them.
pub enum Backend {
    Keyring(KeyringBackend),
    Command(CommandBackend),
}

/// The concrete backend a raw tag stands for, unchanged.
pub open spec fn spec_concrete(backend: Backend) -> super::Backend {
    match backend {
        Backend::Keyring(config) => super::Backend::Keyring(config),
        Backend::Command(config) => super::Backend::Command(config),
    }
}

/// Materializes the backend a tag names, with no further
/// transformation, failing with an error naming the feature the build
/// would need for it.
pub fn resolve(backend: Backend, profile: &Profile) -> (r: Result<super::Backend, Error>)
    ensures
        r is Ok <==> (backend is Keyring && profile.keyring) || (backend is Command
            && profile.command),
        r matches Ok(b) ==> b == spec_concrete(backend),
        r matches Err(e) ==> (e matches Error::FeatureUnavailable(f) && (if backend is Keyring {
            f@ == "keyring"@
        } else {
            f@ == "command"@
        })),
{
    match backend {
        Backend::Keyring(config) => {
            if profile.keyring {
                Ok(super::Backend::Keyring(config))
            } else {
                Err(Error::FeatureUnavailable("keyring".to_owned()))
            }
        },
        Backend::Command(config) => {
            if profile.command {
                Ok(super::Backend::Command(config))
            } else {
                Err(Error::FeatureUnavailable("command".to_owned()))
            }
        },
    }
}

} // verus!
