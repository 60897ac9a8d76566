use keyring::credential::{
    default_target, LinuxCredential, MacCredential, MacKeychainDomain, Platform,
    PlatformCredential, WinCredential,
};
use keyring::error::ErrorKind;
use keyring::macos::{
    delete_password_result, get_password_result, set_password_result, DeleteRequest, FindRequest,
    StoreRequest,
};
use keyring::{platform, Entry};
use rand::{distributions::Alphanumeric, thread_rng, Rng};
use security_framework::base::Error as NativeError;

/// A keychain in memory: it answers requests as the real one does, with the
/// status code for a missing item where it holds none.
struct Keychain {
    items: Vec<(MacCredential, Vec<u8>)>,
}

impl Keychain {
    fn new() -> Keychain {
        Keychain { items: Vec::new() }
    }

    fn store(&mut self, request: StoreRequest) -> Result<(), NativeError> {
        self.items.retain(|(item, _)| *item != request.item);
        self.items.push((request.item, request.password));
        Ok(())
    }

    fn find(&self, request: FindRequest) -> Result<Vec<u8>, NativeError> {
        match self.items.iter().find(|(item, _)| *item == request.item) {
            Some((_, password)) => Ok(password.clone()),
            None => Err(NativeError::from_code(-25300)),
        }
    }

    fn delete(&mut self, request: DeleteRequest) -> Result<(), NativeError> {
        let before = self.items.len();
        self.items.retain(|(item, _)| *item != request.item);
        if self.items.len() < before {
            Ok(())
        } else {
            Err(NativeError::from_code(-25300))
        }
    }
}

fn succeeded<T>(result: Result<T, ErrorKind>) -> T {
    match result {
        Ok(value) => value,
        Err(ErrorKind::PlatformFailure(_)) => panic!("PlatformFailure"),
        Err(ErrorKind::NoStorageAccess(_)) => panic!("NoStorageAccess"),
        Err(ErrorKind::NoEntry) => panic!("NoEntry"),
        Err(ErrorKind::BadEncoding(raw)) => panic!("BadEncoding({:?})", raw),
        Err(ErrorKind::WrongCredentialPlatform) => panic!("WrongCredentialPlatform"),
    }
}

fn generate_random_string() -> String {
    thread_rng().sample_iter(&Alphanumeric).take(30).map(char::from).collect()
}

#[test]
fn test_default_initial_and_retrieved_map() {
    let mut keychain = Keychain::new();
    let name = generate_random_string();
    let expected_target = default_target(&platform(), None, &name, &name);
    let entry = Entry::new(&name, &name);
    assert_eq!(*entry.target(), expected_target);
    let store = succeeded(entry.set_password("ignored"));
    succeeded(set_password_result(keychain.store(store)));
    let (find, target) = succeeded(entry.get_password_and_credential());
    let _ = succeeded(get_password_result(keychain.find(find)));
    assert_eq!(target, expected_target);
    // don't leave password around.
    let delete = succeeded(entry.delete_password());
    succeeded(delete_password_result(keychain.delete(delete)));
}

#[test]
fn test_targeted_initial_and_retrieved_map() {
    let mut keychain = Keychain::new();
    let name = generate_random_string();
    let expected_target = default_target(&platform(), Some(&name), &name, &name);
    let entry = Entry::new_with_target(&name, &name, &name);
    assert_eq!(*entry.target(), expected_target);
    // can only test targeted credentials on Windows
    if matches!(platform(), Platform::Windows) {
        let store = succeeded(entry.set_password("ignored"));
        succeeded(set_password_result(keychain.store(store)));
        let (find, target) = succeeded(entry.get_password_and_credential());
        let _ = succeeded(get_password_result(keychain.find(find)));
        assert_eq!(target, expected_target);
        // don't leave password around.
        let delete = succeeded(entry.delete_password());
        succeeded(delete_password_result(keychain.delete(delete)));
    }
}

#[test]
fn current_platform_is_macos() {
    assert_eq!(platform(), Platform::MacOs);
    assert_eq!(platform(), keyring::macos::platform());
}

#[test]
fn new_entry_has_the_default_target() {
    let entry = Entry::new("mail", "alice");
    let expected = PlatformCredential::Mac(MacCredential {
        domain: MacKeychainDomain::User,
        service: "mail".to_string(),
        account: "alice".to_string(),
    });
    assert_eq!(*entry.target(), expected);
    assert_eq!(*entry.target(), default_target(&platform(), None, "mail", "alice"));
}

#[test]
fn targeted_entry_has_the_named_domain() {
    let entry = Entry::new_with_target("System", "mail", "alice");
    let expected = PlatformCredential::Mac(MacCredential {
        domain: MacKeychainDomain::System,
        service: "mail".to_string(),
        account: "alice".to_string(),
    });
    assert_eq!(*entry.target(), expected);
    assert_eq!(*entry.target(), default_target(&platform(), Some("System"), "mail", "alice"));
}

#[test]
fn entry_accepts_a_credential_of_this_platform() {
    let credential = PlatformCredential::Mac(MacCredential {
        domain: MacKeychainDomain::Common,
        service: "mail".to_string(),
        account: "alice".to_string(),
    });
    let entry = succeeded(Entry::new_with_credential(&credential));
    assert_eq!(*entry.target(), credential);
}

#[test]
fn entry_refuses_a_credential_of_another_platform() {
    let windows = PlatformCredential::Win(WinCredential { target_name: "mail.alice".to_string() });
    assert!(matches!(
        Entry::new_with_credential(&windows),
        Err(ErrorKind::WrongCredentialPlatform)
    ));
    let linux = PlatformCredential::Linux(LinuxCredential {
        collection: "default".to_string(),
        service: "mail".to_string(),
        account: "alice".to_string(),
    });
    assert!(matches!(Entry::new_with_credential(&linux), Err(ErrorKind::WrongCredentialPlatform)));
}

#[test]
fn entry_requests_address_its_target() {
    let entry = Entry::new_with_target("dynamic", "mail", "alice");
    let item = MacCredential {
        domain: MacKeychainDomain::Dynamic,
        service: "mail".to_string(),
        account: "alice".to_string(),
    };
    let store = succeeded(entry.set_password("secret"));
    assert_eq!(store, StoreRequest { item: item.clone(), password: b"secret".to_vec() });
    assert_eq!(succeeded(entry.get_password()), FindRequest { item: item.clone() });
    assert_eq!(succeeded(entry.delete_password()), DeleteRequest { item: item.clone() });
    let (find, credential) = succeeded(entry.get_password_and_credential());
    assert_eq!(find, FindRequest { item: item.clone() });
    assert_eq!(credential, PlatformCredential::Mac(item));
}

#[test]
fn password_round_trips_and_is_gone_after_delete() {
    let mut keychain = Keychain::new();
    let entry = Entry::new("mail", "alice");
    for password in ["first", "s\u{00e9}cond \u{1f511}", ""] {
        let store = succeeded(entry.set_password(password));
        succeeded(set_password_result(keychain.store(store)));
        let find = succeeded(entry.get_password());
        assert_eq!(succeeded(get_password_result(keychain.find(find))), password);
    }
    let delete = succeeded(entry.delete_password());
    succeeded(delete_password_result(keychain.delete(delete)));
    let find = succeeded(entry.get_password());
    assert!(matches!(get_password_result(keychain.find(find)), Err(ErrorKind::NoEntry)));
}

#[test]
fn deleting_a_nonexistent_entry_is_no_entry() {
    let mut keychain = Keychain::new();
    let entry = Entry::new("mail", "nobody");
    let delete = succeeded(entry.delete_password());
    assert!(matches!(delete_password_result(keychain.delete(delete)), Err(ErrorKind::NoEntry)));
}

#[test]
fn entries_with_different_addresses_do_not_share_a_secret() {
    let mut keychain = Keychain::new();
    let alice = Entry::new("mail", "alice");
    let bob = Entry::new("mail", "bob");
    let store = succeeded(alice.set_password("hers"));
    succeeded(set_password_result(keychain.store(store)));
    let find = succeeded(bob.get_password());
    assert!(matches!(get_password_result(keychain.find(find)), Err(ErrorKind::NoEntry)));
    let find = succeeded(alice.get_password());
    assert_eq!(succeeded(get_password_result(keychain.find(find))), "hers");
}
