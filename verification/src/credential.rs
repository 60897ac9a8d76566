//! Platform credentials: where a secret lives in each platform's store.

use vstd::prelude::*;
use vstd::string::*;

verus! {

/// The platforms whose secret stores can be addressed.
#[derive(Clone, Copy, Debug, PartialEq, Eq, Structural)]
pub enum Platform {
    Linux,
    Windows,
    MacOs,
}

/// The keychain domains of macOS.
#[derive(Clone, Copy, Debug, PartialEq, Eq, Structural)]
pub enum MacKeychainDomain {
    User,
    System,
    Common,
    Dynamic,
}

/// A Secret Service item: a collection and the two attributes that pick the
/// item in it.
#[derive(Debug, PartialEq, Eq)]
pub struct LinuxCredential {
    pub collection: String,
    pub service: String,
    pub account: String,
}

/// A Windows credential, found by its target name alone.
#[derive(Debug, PartialEq, Eq)]
pub struct WinCredential {
    pub target_name: String,
}

/// A generic password of a macOS keychain.
#[derive(Debug, PartialEq, Eq)]
pub struct MacCredential {
    pub domain: MacKeychainDomain,
    pub service: String,
    pub account: String,
}

/// The address of a secret, in the shape that one platform's store needs.
#[derive(Debug, PartialEq, Eq)]
pub enum PlatformCredential {
    Linux(LinuxCredential),
    Win(WinCredential),
    Mac(MacCredential),
}

/// The value of a credential: its variant and the text of each field.
pub enum CredentialView {
    Linux { collection: Seq<char>, service: Seq<char>, account: Seq<char> },
    Win { target_name: Seq<char> },
    Mac { domain: MacKeychainDomain, service: Seq<char>, account: Seq<char> },
}

impl CredentialView {
    /// The platform whose store the credential addresses.
    pub open spec fn platform(self) -> Platform {
        match self {
            CredentialView::Linux { .. } => Platform::Linux,
            CredentialView::Win { .. } => Platform::Windows,
            CredentialView::Mac { .. } => Platform::MacOs,
        }
    }
}

impl View for LinuxCredential {
    type V = CredentialView;

    open spec fn view(&self) -> CredentialView {
        CredentialView::Linux {
            collection: self.collection@,
            service: self.service@,
            account: self.account@,
        }
    }
}

impl View for WinCredential {
    type V = CredentialView;

    open spec fn view(&self) -> CredentialView {
        CredentialView::Win { target_name: self.target_name@ }
    }
}

impl View for MacCredential {
    type V = CredentialView;

    open spec fn view(&self) -> CredentialView {
        CredentialView::Mac {
            domain: self.domain,
            service: self.service@,
            account: self.account@,
        }
    }
}

impl View for PlatformCredential {
    type V = CredentialView;

    open spec fn view(&self) -> CredentialView {
        match self {
            PlatformCredential::Linux(linux) => linux@,
            PlatformCredential::Win(win) => win@,
            PlatformCredential::Mac(mac) => mac@,
        }
    }
}

impl Clone for LinuxCredential {
    fn clone(&self) -> (copy: Self)
        ensures
            copy == *self,
    {
        LinuxCredential {
            collection: self.collection.clone(),
            service: self.service.clone(),
            account: self.account.clone(),
        }
    }
}

impl Clone for WinCredential {
    fn clone(&self) -> (copy: Self)
        ensures
            copy == *self,
    {
        WinCredential { target_name: self.target_name.clone() }
    }
}

impl Clone for MacCredential {
    fn clone(&self) -> (copy: Self)
        ensures
            copy == *self,
    {
        MacCredential {
            domain: self.domain,
            service: self.service.clone(),
            account: self.account.clone(),
        }
    }
}

impl Clone for PlatformCredential {
    fn clone(&self) -> (copy: Self)
        ensures
            copy == *self,
    {
        match self {
            PlatformCredential::Linux(linux) => PlatformCredential::Linux(linux.clone()),
            PlatformCredential::Win(win) => PlatformCredential::Win(win.clone()),
            PlatformCredential::Mac(mac) => PlatformCredential::Mac(mac.clone()),
        }
    }
}

/// A letter of `A..=Z` becomes the same letter of `a..=z`; every other
/// character stays.
pub open spec fn ascii_lower(c: char) -> char {
    if 'A' <= c && c <= 'Z' {
        ((c as u8) + 32) as char
    } else {
        c
    }
}

/// The text with each of its characters lower-cased by `ascii_lower`.
pub open spec fn ascii_lowercase(text: Seq<char>) -> Seq<char> {
    Seq::new(text.len(), |i: int| ascii_lower(text[i]))
}

/// The keychain domain that a target names: `system`, `common` and `dynamic`
/// in any mix of upper and lower case name their domains, and every other
/// text names the user's domain.
pub open spec fn domain_of(target: Seq<char>) -> MacKeychainDomain {
    let name = ascii_lowercase(target);
    if name == "system"@ {
        MacKeychainDomain::System
    } else if name == "common"@ {
        MacKeychainDomain::Common
    } else if name == "dynamic"@ {
        MacKeychainDomain::Dynamic
    } else {
        MacKeychainDomain::User
    }
}

/// The collection of the Secret Service that holds a secret stored without a
/// target.
pub open spec fn default_collection() -> Seq<char> {
    "default"@
}

/// The target name of a Windows credential stored without a target: the
/// service, a full stop, the user name.
pub open spec fn default_target_name(service: Seq<char>, username: Seq<char>) -> Seq<char> {
    service + seq!['.'] + username
}

/// The text of a target, where there is one.
pub open spec fn target_text(target: Option<&str>) -> Option<Seq<char>> {
    match target {
        Some(name) => Some(name@),
        None => None,
    }
}

/// The credential that a platform derives from a target, a service and a
/// user name.
pub open spec fn default_credential(
    platform: Platform,
    target: Option<Seq<char>>,
    service: Seq<char>,
    username: Seq<char>,
) -> CredentialView {
    match platform {
        Platform::Linux => CredentialView::Linux {
            collection: match target {
                Some(name) => name,
                None => default_collection(),
            },
            service: service,
            account: username,
        },
        Platform::Windows => CredentialView::Win {
            target_name: match target {
                Some(name) => name,
                None => default_target_name(service, username),
            },
        },
        Platform::MacOs => CredentialView::Mac {
            domain: match target {
                Some(name) => domain_of(name),
                None => MacKeychainDomain::User,
            },
            service: service,
            account: username,
        },
    }
}

fn lower(c: char) -> (low: char)
    ensures
        low == ascii_lower(c),
{
    if 'A' <= c && c <= 'Z' {
        let code: u8 = (c as u8) + 32;
        code as char
    } else {
        c
    }
}

/// Whether `text`, lower-cased, is `word`.
fn lowercase_is(text: &str, word: &str) -> (same: bool)
    ensures
        same == (ascii_lowercase(text@) == word@),
{
    let n: usize = text.unicode_len();
    if n != word.unicode_len() {
        return false;
    }
    let mut i: usize = 0;
    while i < n
        invariant
            i <= n,
            n == text@.len(),
            n == word@.len(),
            forall|j: int| 0 <= j < i ==> ascii_lower(text@[j]) == word@[j],
        decreases n - i,
    {
        if lower(text.get_char(i)) != word.get_char(i) {
            assert(ascii_lowercase(text@)[i as int] != word@[i as int]);
            return false;
        }
        i += 1;
    }
    assert(ascii_lowercase(text@) =~= word@);
    true
}

impl MacKeychainDomain {
    /// The domain that `target` names; a text that names none gives the
    /// user's domain.
    pub fn from_name(target: &str) -> (domain: MacKeychainDomain)
        ensures
            domain == domain_of(target@),
    {
        if lowercase_is(target, "system") {
            MacKeychainDomain::System
        } else if lowercase_is(target, "common") {
            MacKeychainDomain::Common
        } else if lowercase_is(target, "dynamic") {
            MacKeychainDomain::Dynamic
        } else {
            MacKeychainDomain::User
        }
    }
}

impl PlatformCredential {
    /// Whether the credential addresses the store of `os`.
    pub fn matches_platform(&self, os: &Platform) -> (matches: bool)
        ensures
            matches == (self@.platform() == *os),
    {
        match self {
            PlatformCredential::Linux(_) => matches!(os, Platform::Linux),
            PlatformCredential::Win(_) => matches!(os, Platform::Windows),
            PlatformCredential::Mac(_) => matches!(os, Platform::MacOs),
        }
    }
}

/// Derives the credential that `platform` uses for a service and a user
/// name. Without a target the secret goes to the platform's default place.
/// With one, Linux takes it as the collection, Windows as the target name,
/// and macOS as the name of a keychain domain.
pub fn default_target(
    platform: &Platform,
    target: Option<&str>,
    service: &str,
    username: &str,
) -> (credential: PlatformCredential)
    ensures
        credential@ == default_credential(*platform, target_text(target), service@, username@),
{
    match platform {
        Platform::Linux => {
            let collection = match target {
                Some(name) => name.to_owned(),
                None => "default".to_owned(),
            };
            PlatformCredential::Linux(
                LinuxCredential {
                    collection,
                    service: service.to_owned(),
                    account: username.to_owned(),
                },
            )
        },
        Platform::Windows => {
            let target_name = match target {
                Some(name) => name.to_owned(),
                None => {
                    proof {
                        reveal_strlit(".");
                        assert("."@ =~= seq!['.']);
                    }
                    service.to_owned().concat(".").concat(username)
                },
            };
            PlatformCredential::Win(WinCredential { target_name })
        },
        Platform::MacOs => {
            let domain = match target {
                Some(name) => MacKeychainDomain::from_name(name),
                None => MacKeychainDomain::User,
            };
            PlatformCredential::Mac(
                MacCredential {
                    domain,
                    service: service.to_owned(),
                    account: username.to_owned(),
                },
            )
        },
    }
}

/// Deriving a credential is deterministic: two credentials derived from the
/// same platform, target, service and user name have the same value.
pub proof fn default_target_is_deterministic(
    first: PlatformCredential,
    second: PlatformCredential,
    platform: Platform,
    target: Option<Seq<char>>,
    service: Seq<char>,
    username: Seq<char>,
)
    requires
        first@ == default_credential(platform, target, service, username),
        second@ == default_credential(platform, target, service, username),
    ensures
        first@ == second@,
{
}

/// A derived credential addresses the platform it was derived for, so
/// `matches_platform` accepts it for that platform and for no other.
pub proof fn default_target_addresses_its_platform(
    platform: Platform,
    target: Option<Seq<char>>,
    service: Seq<char>,
    username: Seq<char>,
)
    ensures
        default_credential(platform, target, service, username).platform() == platform,
{
}

} // verus!
