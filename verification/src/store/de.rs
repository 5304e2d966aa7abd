//! The store resolver: between the tagged record form that
//! configuration files use and the concrete [`super::Store`].

use vstd::prelude::*;

use crate::error::Error;
use crate::profile::Profile;
use crate::store::keyutils::KeyutilsStore;
use crate::store::macos::MacosStore;
use crate::store::secret_service::SecretServiceStore;
use crate::store::windows::WindowsStore;

verus! {

/// The discriminant naming the intended backend kind.
#[derive(Clone, Copy, PartialEq, Eq, Structural)]
pub enum StoreKind {
    SecretService,
    LinuxKeyutils,
    AppleNative,
    WindowsNative,
}

/// A serialized store configuration: the discriminant plus one optional
/// companion block per kind. Only the block matching the discriminant
/// matters; extra blocks are ignored.
pub struct Store {
    pub store: StoreKind,
    pub secret_service: Option<SecretServiceStore>,
    pub linux_keyutils: Option<KeyutilsStore>,
    pub apple_native: Option<MacosStore>,
    pub windows_native: Option<WindowsStore>,
}

/// Whether the build carries a feature supporting the kind.
pub open spec fn spec_kind_enabled(kind: StoreKind, profile: Profile) -> bool {
    match kind {
        StoreKind::SecretService => profile.dbus_secret_service || profile.zbus_secret_service,
        StoreKind::LinuxKeyutils => profile.keyutils,
        StoreKind::AppleNative => profile.apple_native,
        StoreKind::WindowsNative => profile.windows_native,
    }
}

/// Whether the companion block matching the discriminant is present.
pub open spec fn spec_block_present(record: Store) -> bool {
    match record.store {
        StoreKind::SecretService => record.secret_service is Some,
        StoreKind::LinuxKeyutils => record.linux_keyutils is Some,
        StoreKind::AppleNative => record.apple_native is Some,
        StoreKind::WindowsNative => record.windows_native is Some,
    }
}

/// The store a record resolves to when its block is present and its
/// kind enabled; `None` when resolution must fail.
pub open spec fn spec_resolve(record: Store, profile: Profile) -> Option<super::Store> {
    if !spec_block_present(record) || !spec_kind_enabled(record.store, profile) {
        None
    } else {
        match record.store {
            StoreKind::SecretService => Some(
                super::Store::SecretService(record.secret_service->Some_0),
            ),
            StoreKind::LinuxKeyutils => Some(super::Store::Keyutils(record.linux_keyutils->Some_0)),
            StoreKind::AppleNative => Some(super::Store::Macos(record.apple_native->Some_0)),
            StoreKind::WindowsNative => Some(super::Store::Windows(record.windows_native->Some_0)),
        }
    }
}

/// The record a concrete store serializes back to: the matching
/// discriminant, its own block, and no other.
pub open spec fn spec_record_of(store: super::Store) -> Store {
    match store {
        super::Store::SecretService(s) => Store {
            store: StoreKind::SecretService,
            secret_service: Some(s),
            linux_keyutils: None,
            apple_native: None,
            windows_native: None,
        },
        super::Store::Keyutils(s) => Store {
            store: StoreKind::LinuxKeyutils,
            secret_service: None,
            linux_keyutils: Some(s),
            apple_native: None,
            windows_native: None,
        },
        super::Store::Macos(s) => Store {
            store: StoreKind::AppleNative,
            secret_service: None,
            linux_keyutils: None,
            apple_native: Some(s),
            windows_native: None,
        },
        super::Store::Windows(s) => Store {
            store: StoreKind::WindowsNative,
            secret_service: None,
            linux_keyutils: None,
            apple_native: None,
            windows_native: Some(s),
        },
    }
}

/// The feature name a kind's resolution error reports.
pub open spec fn spec_kind_feature(kind: StoreKind) -> Seq<char> {
    match kind {
        StoreKind::SecretService => "dbus-secret-service or zbus-secret-service"@,
        StoreKind::LinuxKeyutils => "linux-keyutils"@,
        StoreKind::AppleNative => "apple-native"@,
        StoreKind::WindowsNative => "windows-native"@,
    }
}

/// The block name a kind's missing-configuration error reports.
pub open spec fn spec_kind_block(kind: StoreKind) -> Seq<char> {
    match kind {
        StoreKind::SecretService => "secret-service"@,
        StoreKind::LinuxKeyutils => "linux-keyutils"@,
        StoreKind::AppleNative => "apple-native"@,
        StoreKind::WindowsNative => "windows-native"@,
    }
}

/// Materializes the one concrete backend a record names: a missing
/// companion block is a configuration error, a kind without a
/// supporting feature is a feature error naming that feature, and
/// nothing but the matching block is consulted.
pub fn resolve(record: Store, profile: &Profile) -> (r: Result<super::Store, Error>)
    ensures
        r matches Ok(s) ==> Some(s) == spec_resolve(record, *profile),
        r is Ok <==> spec_resolve(record, *profile) is Some,
        r matches Err(e) ==> (if !spec_block_present(record) {
            e matches Error::ConfigurationError(b) && b@ == spec_kind_block(record.store)
        } else {
            e matches Error::FeatureUnavailable(f) && f@ == spec_kind_feature(record.store)
        }),
{
    match record.store {
        StoreKind::SecretService => {
            let block = match record.secret_service {
                Some(b) => b,
                None => {
                    return Err(Error::ConfigurationError("secret-service".to_owned()));
                },
            };
            if !(profile.dbus_secret_service || profile.zbus_secret_service) {
                return Err(
                    Error::FeatureUnavailable(
                        "dbus-secret-service or zbus-secret-service".to_owned(),
                    ),
                );
            }
            Ok(super::Store::SecretService(block))
        },
        StoreKind::LinuxKeyutils => {
            let block = match record.linux_keyutils {
                Some(b) => b,
                None => {
                    return Err(Error::ConfigurationError("linux-keyutils".to_owned()));
                },
            };
            if !profile.keyutils {
                return Err(Error::FeatureUnavailable("linux-keyutils".to_owned()));
            }
            Ok(super::Store::Keyutils(block))
        },
        StoreKind::AppleNative => {
            let block = match record.apple_native {
                Some(b) => b,
                None => {
                    return Err(Error::ConfigurationError("apple-native".to_owned()));
                },
            };
            if !profile.apple_native {
                return Err(Error::FeatureUnavailable("apple-native".to_owned()));
            }
            Ok(super::Store::Macos(block))
        },
        StoreKind::WindowsNative => {
            let block = match record.windows_native {
                Some(b) => b,
                None => {
                    return Err(Error::ConfigurationError("windows-native".to_owned()));
                },
            };
            if !profile.windows_native {
                return Err(Error::FeatureUnavailable("windows-native".to_owned()));
            }
            Ok(super::Store::Windows(block))
        },
    }
}

/// Serializes a concrete store back to the tagged record form.
pub fn record_of(store: super::Store) -> (r: Store)
    ensures
        r == spec_record_of(store),
{
    match store {
        super::Store::SecretService(s) => Store {
            store: StoreKind::SecretService,
            secret_service: Some(s),
            linux_keyutils: None,
            apple_native: None,
            windows_native: None,
        },
        super::Store::Keyutils(s) => Store {
            store: StoreKind::LinuxKeyutils,
            secret_service: None,
            linux_keyutils: Some(s),
            apple_native: None,
            windows_native: None,
        },
        super::Store::Macos(s) => Store {
            store: StoreKind::AppleNative,
            secret_service: None,
            linux_keyutils: None,
            apple_native: Some(s),
            windows_native: None,
        },
        super::Store::Windows(s) => Store {
            store: StoreKind::WindowsNative,
            secret_service: None,
            linux_keyutils: None,
            apple_native: None,
            windows_native: Some(s),
        },
    }
}

/// Serializing a constructed backend and re-resolving it under any
/// profile that enables its kind reproduces it exactly: the same
/// discriminant, the same companion fields, and no leakage from other
/// kinds, whose blocks the serialized record leaves absent.
pub proof fn lemma_resolver_round_trip(store: super::Store, profile: Profile)
    requires
        spec_kind_enabled(spec_record_of(store).store, profile),
    ensures
        spec_resolve(spec_record_of(store), profile) == Some(store),
        spec_record_of(store).store is SecretService ==> spec_record_of(store).linux_keyutils
            is None && spec_record_of(store).apple_native is None && spec_record_of(
            store,
        ).windows_native is None,
        spec_record_of(store).store is LinuxKeyutils ==> spec_record_of(store).secret_service
            is None && spec_record_of(store).apple_native is None && spec_record_of(
            store,
        ).windows_native is None,
        spec_record_of(store).store is AppleNative ==> spec_record_of(store).secret_service
            is None && spec_record_of(store).linux_keyutils is None && spec_record_of(
            store,
        ).windows_native is None,
        spec_record_of(store).store is WindowsNative ==> spec_record_of(store).secret_service
            is None && spec_record_of(store).linux_keyutils is None && spec_record_of(
            store,
        ).apple_native is None,
{
}

/// A record that resolves carries exactly the discriminant and block
/// that serializing the result reproduces: resolution loses nothing but
/// the ignored extra blocks.
pub proof fn lemma_resolve_then_record(record: Store, profile: Profile, store: super::Store)
    requires
        spec_resolve(record, profile) == Some(store),
    ensures
        spec_record_of(store).store == record.store,
        spec_block_present(spec_record_of(store)),
        record.store is SecretService ==> spec_record_of(store).secret_service
            == record.secret_service,
        record.store is LinuxKeyutils ==> spec_record_of(store).linux_keyutils
            == record.linux_keyutils,
        record.store is AppleNative ==> spec_record_of(store).apple_native == record.apple_native,
        record.store is WindowsNative ==> spec_record_of(store).windows_native
            == record.windows_native,
{
}

} // verus!
