//! Set a password in a configured account's backend.

use vstd::prelude::*;

use crate::account::Account;
use crate::backend::spec_default_driver;
use crate::codec::{decode_utf8, spec_trim_newlines, trim_newlines, utf8_decode};
use crate::engine::EnginePort;
use crate::error::Error;
use crate::keyring::DriverPort;
use crate::profile::Profile;

verus! {

/// Set a password in the configured backend; the password arrives as
/// one line read by the caller.
pub struct SetPasswordCommand {}

impl SetPasswordCommand {
    /// Normalizes the line (trailing line feeds and carriage returns
    /// removed), decodes it, and hands it to the account's backend.
    pub fn execute<D: DriverPort, P: EnginePort>(
        &self,
        account: &Account,
        profile: &Profile,
        driver: &mut D,
        port: &mut P,
        line: Vec<u8>,
    ) -> (r: Result<(), Error>)
        ensures
            utf8_decode(spec_trim_newlines(line@)) is None ==> (r matches Err(e)
                && e is EncodingError),
            utf8_decode(spec_trim_newlines(line@)) is Some ==> (r matches Err(e) ==> !(
            e is EncodingError)),
            account.backend is Keyring && spec_default_driver(*profile) is None ==> (utf8_decode(
                spec_trim_newlines(line@),
            ) is Some ==> (r matches Err(e) && e matches Error::FeatureUnavailable(f) && f@
                == "dbus-secret-service, apple-native, or windows-native"@)),
    {
        let mut bytes = line;
        trim_newlines(&mut bytes);
        let text = match decode_utf8(bytes) {
            Ok(t) => t,
            Err(()) => {
                return Err(Error::EncodingError);
            },
        };
        account.backend.set_password(profile, driver, port, text.as_str())
    }
}

} // verus!
