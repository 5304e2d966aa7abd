//! Remove a password from a store.

use vstd::prelude::*;
use vstd::string::StringExecFns;

use crate::config::{spec_lookup, Config};
use crate::error::Error;
use crate::keyring::DriverPort;
use crate::profile::Profile;

verus! {

/// Remove a password from the store.
pub struct RemovePasswordCommand {
    /// Name of the store in the configuration file.
    pub store: String,
}

/// The outcome of a removal: whether an entry existed to remove.
pub struct PasswordRemoved {
    pub store: String,
    pub removed: bool,
}

/// The human-readable line for a removal outcome.
pub open spec fn spec_removed_message(p: PasswordRemoved) -> Seq<char> {
    if p.removed {
        "Password successfully removed from "@ + p.store@
    } else {
        "No password found in "@ + p.store@ + ", nothing was removed"@
    }
}

impl PasswordRemoved {
    pub fn message(&self) -> (m: String)
        ensures
            m@ == spec_removed_message(*self),
    {
        if self.removed {
            let mut m = "Password successfully removed from ".to_owned();
            m.append(self.store.as_str());
            m
        } else {
            let mut m = "No password found in ".to_owned();
            m.append(self.store.as_str());
            m.append(", nothing was removed");
            assert(m@ =~= spec_removed_message(*self));
            m
        }
    }
}

impl RemovePasswordCommand {
    /// Looks the store up and removes its secret; an absent entry is
    /// reported as `removed == false`, never as an error.
    pub fn execute<D: DriverPort>(&self, config: &Config, profile: &Profile, port: &mut D) -> (r:
        Result<PasswordRemoved, Error>)
        ensures
            spec_lookup(config.stores@, self.store@) is None ==> (r matches Err(e) && e matches
                Error::ConfigurationError(n) && n@ == self.store@),
            spec_lookup(config.stores@, self.store@) matches Some(st) ==> (!st.spec_gate_open(
                *profile,
            ) ==> (r matches Err(e) && st.spec_gate_err(*profile, e))),
            r matches Ok(p) ==> p.store@ == self.store@,
            r matches Err(e) ==> !(e is SpawnError || e is CommandFailure || e is EncodingError
                || e is NotFound),
    {
        let store = match config.get_store(&self.store) {
            Ok(s) => s,
            Err(e) => {
                return Err(e);
            },
        };
        let removed = match store.remove(profile, port) {
            Ok(removed) => removed,
            Err(e) => {
                return Err(e);
            },
        };
        Ok(PasswordRemoved { store: self.store.clone(), removed })
    }
}

} // verus!
