//! Keyring: one password per (service, username) pair in the macOS
//! keychain. The crate derives the credential that addresses a secret,
//! states each keychain request, and sorts the keychain's answers into a
//! small set of error kinds.

use vstd::prelude::*;

pub mod credential;
pub mod error;
pub mod macos;

use crate::credential::{default_credential, default_target, Platform, PlatformCredential};
pub use crate::error::ErrorKind;
use crate::macos::{current_platform, DeleteRequest, FindRequest, StoreRequest};

verus! {

/// The platform that this build of the crate serves.
pub fn platform() -> (os: Platform)
    ensures
        os == current_platform(),
{
    macos::platform()
}

/// A handle on one secret: it owns the credential that addresses it.
#[derive(Debug)]
pub struct Entry {
    target: PlatformCredential,
}

impl Entry {
    /// An entry's credential always addresses this platform's store.
    #[verifier::type_invariant]
    spec fn addresses_this_platform(self) -> bool {
        self.target@.platform() == current_platform()
    }

    /// The credential that the entry owns.
    pub closed spec fn credential(self) -> PlatformCredential {
        self.target
    }

    /// The credential that the entry owns. It addresses this platform's
    /// store, however the entry was made.
    pub fn target(&self) -> (target: &PlatformCredential)
        ensures
            *target == self.credential(),
            target@.platform() == current_platform(),
    {
        proof {
            use_type_invariant(self);
        }
        &self.target
    }

    /// The entry for a service and a user name, in this platform's default
    /// place.
    pub fn new(service: &str, username: &str) -> (entry: Entry)
        ensures
            entry.credential()@ == default_credential(
                current_platform(),
                None,
                service@,
                username@,
            ),
    {
        Entry { target: default_target(&platform(), None, service, username) }
    }

    /// The entry for a target, a service and a user name. On macOS the
    /// target names the keychain domain.
    pub fn new_with_target(target: &str, service: &str, username: &str) -> (entry: Entry)
        ensures
            entry.credential()@ == default_credential(
                current_platform(),
                Some(target@),
                service@,
                username@,
            ),
    {
        Entry { target: default_target(&platform(), Some(target), service, username) }
    }

    /// The entry that owns a copy of `target`, where `target` addresses this
    /// platform's store; `WrongCredentialPlatform` where it does not.
    pub fn new_with_credential(target: &PlatformCredential) -> (entry: Result<Entry, ErrorKind>)
        ensures
            target@.platform() == current_platform() ==> entry is Ok && entry->Ok_0.credential()
                == *target,
            target@.platform() != current_platform() ==> (entry matches Err(
                ErrorKind::WrongCredentialPlatform,
            )),
    {
        if target.matches_platform(&platform()) {
            Ok(Entry { target: target.clone() })
        } else {
            Err(ErrorKind::WrongCredentialPlatform)
        }
    }

    /// The request that stores `password` for this entry.
    pub fn set_password(&self, password: &str) -> (request: Result<StoreRequest, ErrorKind>)
        ensures
            request matches Ok(store) && PlatformCredential::Mac(store.item) == self.credential()
                && store.password@ == vstd::utf8::encode_utf8(password@),
    {
        proof {
            use_type_invariant(self);
        }
        macos::set_password(&self.target, password)
    }

    /// The request that finds this entry's password.
    pub fn get_password(&self) -> (request: Result<FindRequest, ErrorKind>)
        ensures
            request matches Ok(find) && PlatformCredential::Mac(find.item) == self.credential(),
    {
        proof {
            use_type_invariant(self);
        }
        let mut map = self.target.clone();
        macos::get_password(&mut map)
    }

    /// The request that finds this entry's password, and with it the
    /// credential as the backend left it: on macOS, a copy of the entry's
    /// own.
    pub fn get_password_and_credential(&self) -> (request: Result<
        (FindRequest, PlatformCredential),
        ErrorKind,
    >)
        ensures
            request matches Ok((find, address)) && PlatformCredential::Mac(find.item)
                == self.credential() && address == self.credential(),
    {
        proof {
            use_type_invariant(self);
        }
        let mut map = self.target.clone();
        match macos::get_password(&mut map) {
            Ok(find) => Ok((find, map)),
            Err(kind) => Err(kind),
        }
    }

    /// The request that deletes this entry's password. The entry itself
    /// lives on; only the stored secret goes.
    pub fn delete_password(&self) -> (request: Result<DeleteRequest, ErrorKind>)
        ensures
            request matches Ok(delete) && PlatformCredential::Mac(delete.item)
                == self.credential(),
    {
        proof {
            use_type_invariant(self);
        }
        macos::delete_password(&self.target)
    }
}

} // verus!
