//! Write a password into a store.

use vstd::prelude::*;
use vstd::string::StringExecFns;

use crate::codec::{decode_utf8, spec_trim_newlines, trim_newlines, utf8_decode};
use crate::config::{spec_lookup, Config};
use crate::error::Error;
use crate::keyring::DriverPort;
use crate::profile::Profile;
use crate::secret::Secret;

verus! {

/// Set a secret in the store.
///
/// A literal argument is the secret itself and is stored exactly as
/// given. When the argument names an existing file, or when no
/// argument was given, the secret is read from that file or from
/// standard input instead; probing and reading are the caller's job,
/// and those raw bytes arrive through `execute`'s `raw` parameter.
pub struct WritePasswordCommand {
    /// Name of the store in the configuration file.
    pub store: String,
    /// The secret, or a path to a file containing the secret.
    pub password: Option<Secret>,
}

/// The outcome of a successful write.
pub struct PasswordWritten {
    pub store: String,
}

impl PasswordWritten {
    pub fn message(&self) -> (m: String)
        ensures
            m@ == "Password successfully written to "@ + self.store@,
    {
        let mut m = "Password successfully written to ".to_owned();
        m.append(self.store.as_str());
        m
    }
}

impl WritePasswordCommand {
    /// Looks the store up and writes the secret. Bytes read from a
    /// file or from standard input (`raw`) have their trailing line
    /// feeds and carriage returns removed and must decode as UTF-8; a
    /// literal argument (`self.password`, taken when `raw` is `None`)
    /// is written exactly as given, untrimmed.
    pub fn execute<D: DriverPort>(
        self,
        config: &Config,
        profile: &Profile,
        port: &mut D,
        raw: Option<Vec<u8>>,
    ) -> (r: Result<PasswordWritten, Error>)
        requires
            raw is Some || self.password is Some,
        ensures
            spec_lookup(config.stores@, self.store@) is None ==> (r matches Err(e) && e matches
                Error::ConfigurationError(n) && n@ == self.store@),
            raw matches Some(b) ==> (spec_lookup(config.stores@, self.store@) is Some
                ==> (utf8_decode(spec_trim_newlines(b@)) is None ==> (r matches Err(e)
                && e is EncodingError))),
            raw is None ==> (r matches Err(e) ==> !(e is EncodingError)),
            raw is None ==> (spec_lookup(config.stores@, self.store@) matches Some(st) ==> (
            !st.spec_gate_open(*profile) ==> (r matches Err(e) && st.spec_gate_err(*profile, e)))),
            raw matches Some(b) ==> (spec_lookup(config.stores@, self.store@) matches Some(st)
                ==> (utf8_decode(spec_trim_newlines(b@)) is Some ==> (!st.spec_gate_open(*profile)
                ==> (r matches Err(e) && st.spec_gate_err(*profile, e))))),
            r matches Ok(p) ==> p.store@ == self.store@,
            r matches Err(e) ==> !(e is SpawnError || e is CommandFailure || e is NotFound),
    {
        let WritePasswordCommand { store: store_name, password } = self;
        let store = match config.get_store(&store_name) {
            Ok(s) => s,
            Err(e) => {
                return Err(e);
            },
        };
        let secret = match raw {
            Some(bytes) => {
                let mut bytes = bytes;
                trim_newlines(&mut bytes);
                match decode_utf8(bytes) {
                    Ok(text) => Secret::new(text),
                    Err(()) => {
                        return Err(Error::EncodingError);
                    },
                }
            },
            None => match password {
                Some(secret) => secret,
                None => vstd::pervasive::unreached(),
            },
        };
        match store.write(profile, port, secret) {
            Ok(()) => Ok(PasswordWritten { store: store_name }),
            Err(e) => Err(e),
        }
    }
}

} // verus!
