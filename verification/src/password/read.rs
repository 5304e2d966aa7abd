//! Read a password from a store.

use vstd::prelude::*;

use crate::config::{spec_lookup, Config};
use crate::error::Error;
use crate::keyring::DriverPort;
use crate::profile::Profile;
use crate::secret::Secret;

verus! {

/// Read a password from the store, to be printed raw so it pipes
/// cleanly into other commands.
pub struct ReadPasswordCommand {
    /// Name of the store in the configuration file.
    pub store: String,
}

/// A read password, exposed as one structured field and as its bare
/// text: the caller explicitly asked to read it, so nothing is masked
/// at this boundary.
pub struct Password(pub Secret);

impl Password {
    /// The single human-readable line: the secret's bare text.
    pub fn text(&self) -> (t: &str)
        ensures
            t@ == self.0@,
    {
        self.0.expose_secret()
    }
}

impl ReadPasswordCommand {
    /// Looks the store up and reads its secret.
    pub fn execute<D: DriverPort>(&self, config: &Config, profile: &Profile, port: &mut D) -> (r:
        Result<Password, Error>)
        ensures
            spec_lookup(config.stores@, self.store@) is None ==> (r matches Err(e) && e matches
                Error::ConfigurationError(n) && n@ == self.store@),
            spec_lookup(config.stores@, self.store@) matches Some(st) ==> (!st.spec_gate_open(
                *profile,
            ) ==> (r matches Err(e) && st.spec_gate_err(*profile, e))),
            r matches Err(e) ==> !(e is SpawnError || e is CommandFailure || e is EncodingError),
    {
        let store = match config.get_store(&self.store) {
            Ok(s) => s,
            Err(e) => {
                return Err(e);
            },
        };
        match store.read(profile, port) {
            Ok(secret) => Ok(Password(secret)),
            Err(e) => Err(e),
        }
    }
}

} // verus!
