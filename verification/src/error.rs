//! The failures that every operation reports.

use vstd::prelude::*;

verus! {

/// `security_framework::base::Error`, the error of every keychain call. Its
/// values are carried through as they are.
#[verifier::external_type_specification]
#[verifier::external_body]
pub struct ExNativeError(security_framework::base::Error);

/// The status code that a keychain error carries: what
/// `security_framework::base::Error::code` returns for it.
pub uninterp spec fn native_code(err: security_framework::base::Error) -> i32;

/// Calls `security_framework::base::Error::code`, which reads the status
/// code held in the error. The contract gives that code its name and claims
/// nothing of its value.
#[verifier::external_body]
pub(crate) fn code_of(err: &security_framework::base::Error) -> (code: i32)
    ensures
        code == native_code(*err),
{
    err.code()
}

/// Why an operation failed.
#[derive(Debug)]
pub enum ErrorKind {
    /// The keychain failed in a way that has no kind of its own.
    PlatformFailure(security_framework::base::Error),
    /// The keychain itself cannot be reached, is locked or is absent.
    NoStorageAccess(security_framework::base::Error),
    /// No secret is stored at the address.
    NoEntry,
    /// The stored secret is not UTF-8 text; its bytes are handed back.
    BadEncoding(Vec<u8>),
    /// The credential addresses another platform's store.
    WrongCredentialPlatform,
}

/// The keychain is not available.
pub const ERR_SEC_NOT_AVAILABLE: i32 = -25291;

/// The keychain can only be read.
pub const ERR_SEC_READ_ONLY: i32 = -25292;

/// There is no keychain of that name.
pub const ERR_SEC_NO_SUCH_KEYCHAIN: i32 = -25294;

/// The keychain is not a valid one.
pub const ERR_SEC_INVALID_KEYCHAIN: i32 = -25295;

/// The keychain holds no such item.
pub const ERR_SEC_ITEM_NOT_FOUND: i32 = -25300;

/// Whether a status code says that the keychain itself is out of reach.
pub open spec fn is_storage_code(code: i32) -> bool {
    code == ERR_SEC_NOT_AVAILABLE || code == ERR_SEC_READ_ONLY || code == ERR_SEC_NO_SUCH_KEYCHAIN
        || code == ERR_SEC_INVALID_KEYCHAIN
}

/// The kind of a keychain error `err` whose status code is `code`: the four
/// codes of `is_storage_code` are `NoStorageAccess`, the code for a missing
/// item is `NoEntry`, and every other code is `PlatformFailure`. The two
/// kinds that carry an error carry `err` itself.
pub open spec fn kind_for(code: i32, err: security_framework::base::Error) -> ErrorKind {
    if is_storage_code(code) {
        ErrorKind::NoStorageAccess(err)
    } else if code == ERR_SEC_ITEM_NOT_FOUND {
        ErrorKind::NoEntry
    } else {
        ErrorKind::PlatformFailure(err)
    }
}

/// The kind that a keychain error falls under, by the status code it
/// carries.
pub open spec fn error_kind(err: security_framework::base::Error) -> ErrorKind {
    kind_for(native_code(err), err)
}

/// A keychain's error is never lost and never mistaken: its kind is one of
/// the three that stand for a keychain's answer, the kinds that carry an
/// error carry this one, and the code for a missing item is `NoEntry` and no
/// other kind.
pub proof fn error_kind_is_total(err: security_framework::base::Error)
    ensures
        error_kind(err) is NoStorageAccess <==> is_storage_code(native_code(err)),
        error_kind(err) is NoEntry <==> native_code(err) == ERR_SEC_ITEM_NOT_FOUND,
        error_kind(err) is PlatformFailure <==> !is_storage_code(native_code(err)) && native_code(
            err,
        ) != ERR_SEC_ITEM_NOT_FOUND,
        error_kind(err) matches ErrorKind::NoStorageAccess(inner) ==> inner == err,
        error_kind(err) matches ErrorKind::PlatformFailure(inner) ==> inner == err,
{
}

} // verus!
