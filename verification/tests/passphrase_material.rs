use crypto_ext::passphrase::generate_passphrase;
use crypto_ext::store::MaterialStore;

#[test]
fn passphrase() {
    let passphrase = generate_passphrase().unwrap();
    assert_eq!(passphrase.len(), 64);
}

#[test]
fn passphrase_is_hexadecimal() {
    let passphrase = generate_passphrase().unwrap();
    assert_eq!(passphrase.chars().count(), 64);
    for c in passphrase.chars() {
        assert!(c.is_ascii_hexdigit());
        assert!(!c.is_ascii_uppercase());
    }
}

#[test]
fn store_keeps_first_write() {
    let mut store = MaterialStore::new(String::new());
    let first = store.read_or_create_and_write("/s/file", &[1, 2, 3]).unwrap();
    assert_eq!(first, vec![1, 2, 3]);
    let second = store.read_or_create_and_write("/s/file", &[9, 9]).unwrap();
    assert_eq!(second, vec![1, 2, 3]);
    assert!(store.does_file_exist("/s/file"));
    assert!(!store.does_file_exist("/s/other"));
    assert_eq!(store.read_file("/s/file").unwrap(), vec![1, 2, 3]);
    assert!(store.read_file("/s/other").is_err());
}

#[test]
fn store_entries_are_enumerable() {
    let mut store = MaterialStore::new(String::from("/wd"));
    let _ = store.read_or_create_and_write("/wd/a", &[1]).unwrap();
    let _ = store.read_or_create_and_write("/wd/b", &[2]).unwrap();
    assert_eq!(store.len(), 2);
    let (path, content) = store.entry_at(0);
    assert_eq!(path.as_str(), "/wd/a");
    assert_eq!(content, &vec![1]);
    let resolved = store.get_static_filepath("/x").unwrap();
    assert_eq!(resolved, "/wd/x");
}
