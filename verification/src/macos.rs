//! The macOS backend. It decides what the keychain is asked and what its
//! answer means; performing a request is left to the caller, who hands the
//! keychain's answer back.

use vstd::prelude::*;
use vstd::string::*;
use vstd::utf8::*;
use crate::credential::{MacCredential, Platform, PlatformCredential};
use crate::error::{
    code_of, error_kind, kind_for, ErrorKind, ERR_SEC_INVALID_KEYCHAIN, ERR_SEC_ITEM_NOT_FOUND,
    ERR_SEC_NOT_AVAILABLE, ERR_SEC_NO_SUCH_KEYCHAIN, ERR_SEC_READ_ONLY,
};

verus! {

/// `std::string::FromUtf8Error`, the error of `String::from_utf8`. Nothing
/// is read from it.
#[verifier::external_type_specification]
#[verifier::external_body]
pub struct ExFromUtf8Error(std::string::FromUtf8Error);

/// `String::from_utf8` is documented to fail exactly where the bytes are not
/// UTF-8, and otherwise to turn the vector into a string without changing a
/// byte: the string it returns encodes to the bytes it was given.
pub assume_specification[ String::from_utf8 ](vec: Vec<u8>) -> (text: Result<
    String,
    std::string::FromUtf8Error,
>)
    ensures
        text is Ok <==> valid_utf8(vec@),
        text is Ok ==> encode_utf8(text->Ok_0@) == vec@,
;

/// A request to store `password` as the generic password of the item's
/// service and account, in place of one that is there. Whoever performs a
/// request opens the default keychain of the item's domain first; where that
/// fails, the failure is the request's outcome.
#[derive(Debug, PartialEq, Eq)]
pub struct StoreRequest {
    pub item: MacCredential,
    pub password: Vec<u8>,
}

/// A request to find the generic password of the item's service and account,
/// and to hand out its bytes.
#[derive(Debug, PartialEq, Eq)]
pub struct FindRequest {
    pub item: MacCredential,
}

/// A request to find the generic password of the item's service and account,
/// and to delete it.
#[derive(Debug, PartialEq, Eq)]
pub struct DeleteRequest {
    pub item: MacCredential,
}

/// The platform of this backend.
pub open spec fn current_platform() -> Platform {
    Platform::MacOs
}

/// The platform of this backend.
pub fn platform() -> (os: Platform)
    ensures
        os == current_platform(),
{
    Platform::MacOs
}

/// Sorts a keychain error by a status code: the kind of `err`, were `code`
/// the code it carries.
pub fn decode_status(code: i32, err: security_framework::base::Error) -> (kind: ErrorKind)
    ensures
        kind == kind_for(code, err),
{
    if code == ERR_SEC_NOT_AVAILABLE || code == ERR_SEC_READ_ONLY || code
        == ERR_SEC_NO_SUCH_KEYCHAIN || code == ERR_SEC_INVALID_KEYCHAIN {
        ErrorKind::NoStorageAccess(err)
    } else if code == ERR_SEC_ITEM_NOT_FOUND {
        ErrorKind::NoEntry
    } else {
        ErrorKind::PlatformFailure(err)
    }
}

/// Sorts a keychain error into its kind, by the status code it carries.
pub fn decode_error(err: security_framework::base::Error) -> (kind: ErrorKind)
    ensures
        kind == error_kind(err),
{
    let code: i32 = code_of(&err);
    decode_status(code, err)
}

/// Reads a stored secret as text. The keychain takes any bytes, so a secret
/// that another program stored may not be UTF-8: such bytes come back
/// unchanged in `BadEncoding`.
pub fn decode_password(bytes: Vec<u8>) -> (password: Result<String, ErrorKind>)
    ensures
        valid_utf8(bytes@) ==> password is Ok && password->Ok_0@ == decode_utf8(bytes@),
        !valid_utf8(bytes@) ==> (password matches Err(ErrorKind::BadEncoding(raw)) && raw@
            == bytes@),
{
    match String::from_utf8(bytes.clone()) {
        Ok(text) => {
            proof {
                encode_utf8_decode_utf8(text@);
            }
            Ok(text)
        },
        Err(_) => Err(ErrorKind::BadEncoding(bytes)),
    }
}

/// The request that stores `password` at `map`. A credential of another
/// platform is refused, and nothing is asked of the keychain.
pub fn set_password(map: &PlatformCredential, password: &str) -> (request: Result<
    StoreRequest,
    ErrorKind,
>)
    ensures
        match *map {
            PlatformCredential::Mac(mac) => request matches Ok(store) && store.item == mac
                && store.password@ == encode_utf8(password@),
            _ => request matches Err(ErrorKind::WrongCredentialPlatform),
        },
{
    if let PlatformCredential::Mac(mac) = map {
        Ok(StoreRequest { item: mac.clone(), password: password.as_bytes_vec() })
    } else {
        Err(ErrorKind::WrongCredentialPlatform)
    }
}

/// The request that finds the secret stored at `map`. The keychain reports
/// nothing of an item beyond what the credential holds, so `map` stays as it
/// is. A credential of another platform is refused.
pub fn get_password(map: &mut PlatformCredential) -> (request: Result<FindRequest, ErrorKind>)
    ensures
        *final(map) == *old(map),
        match *old(map) {
            PlatformCredential::Mac(mac) => request matches Ok(find) && find.item == mac,
            _ => request matches Err(ErrorKind::WrongCredentialPlatform),
        },
{
    if let PlatformCredential::Mac(mac) = map {
        Ok(FindRequest { item: mac.clone() })
    } else {
        Err(ErrorKind::WrongCredentialPlatform)
    }
}

/// The request that deletes the secret stored at `map`. A credential of
/// another platform is refused.
pub fn delete_password(map: &PlatformCredential) -> (request: Result<DeleteRequest, ErrorKind>)
    ensures
        match *map {
            PlatformCredential::Mac(mac) => request matches Ok(delete) && delete.item == mac,
            _ => request matches Err(ErrorKind::WrongCredentialPlatform),
        },
{
    if let PlatformCredential::Mac(mac) = map {
        Ok(DeleteRequest { item: mac.clone() })
    } else {
        Err(ErrorKind::WrongCredentialPlatform)
    }
}

/// What a request to store came to: done, or the kind of the keychain's error.
pub fn set_password_result(outcome: Result<(), security_framework::base::Error>) -> (result:
    Result<(), ErrorKind>)
    ensures
        match outcome {
            Ok(_) => result is Ok,
            Err(err) => result == Err::<(), ErrorKind>(error_kind(err)),
        },
{
    match outcome {
        Ok(_) => Ok(()),
        Err(err) => Err(decode_error(err)),
    }
}

/// What a request to find came to: the secret as text, `BadEncoding` with the
/// bytes found where they are not UTF-8, or the kind of the keychain's error.
pub fn get_password_result(outcome: Result<Vec<u8>, security_framework::base::Error>) -> (result:
    Result<String, ErrorKind>)
    ensures
        match outcome {
            Ok(bytes) => if valid_utf8(bytes@) {
                result is Ok && result->Ok_0@ == decode_utf8(bytes@)
            } else {
                result matches Err(ErrorKind::BadEncoding(raw)) && raw@ == bytes@
            },
            Err(err) => result == Err::<String, ErrorKind>(error_kind(err)),
        },
{
    match outcome {
        Ok(bytes) => decode_password(bytes),
        Err(err) => Err(decode_error(err)),
    }
}

/// What a request to delete came to: done, or the kind of the keychain's
/// error. A keychain that holds no such item answers with the code for a
/// missing item, which is `NoEntry`.
pub fn delete_password_result(outcome: Result<(), security_framework::base::Error>) -> (result:
    Result<(), ErrorKind>)
    ensures
        match outcome {
            Ok(_) => result is Ok,
            Err(err) => result == Err::<(), ErrorKind>(error_kind(err)),
        },
{
    match outcome {
        Ok(_) => Ok(()),
        Err(err) => Err(decode_error(err)),
    }
}

/// A password that the keychain hands back as it was stored reads as the
/// same text: the bytes of a request to store `password` are valid UTF-8
/// and decode to `password`.
pub proof fn stored_password_reads_back(password: Seq<char>)
    ensures
        valid_utf8(encode_utf8(password)),
        decode_utf8(encode_utf8(password)) == password,
{
    encode_utf8_valid_utf8(password);
    encode_utf8_decode_utf8(password);
}

/// Bytes that begin with a continuation byte (`0x80` to `0xBF`) are not
/// UTF-8, however they go on: `decode_password` answers them with
/// `BadEncoding`.
pub proof fn leading_continuation_byte_is_bad_encoding(bytes: Seq<u8>)
    requires
        bytes.len() >= 1,
        is_continuation_byte(bytes[0]),
    ensures
        !valid_utf8(bytes),
{
}

/// Bytes that begin with an encoded surrogate (`0xED`, then a byte from
/// `0xA0` to `0xBF`) are not UTF-8, however they go on: `decode_password`
/// answers them with `BadEncoding`.
pub proof fn leading_surrogate_is_bad_encoding(bytes: Seq<u8>)
    requires
        bytes.len() >= 2,
        bytes[0] == 0xED,
        0xA0 <= bytes[1] <= 0xBF,
    ensures
        !valid_utf8(bytes),
{
    if bytes.len() >= 3 && is_continuation_byte(bytes[2]) {
        let first = bytes[0];
        let second = bytes[1];
        let third = bytes[2];
        let codepoint = codepoint_width_3(first, second, third);
        assert(0xD800 <= codepoint <= 0xDFFF) by (bit_vector)
            requires
                first == 0xED,
                0xA0 <= second <= 0xBF,
                codepoint == ((((first & 0x0F) as u32) << 12) | (((second & 0x3f) as u32) << 6) | ((
                third & 0x3f) as u32)),
        ;
        assert(!not_surrogate(decode_first_codepoint(bytes)));
    }
}

} // verus!
