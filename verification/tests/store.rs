use hsm_core::keystore::{Error, KeyId, KeyInfo, KeyStore, KeyType, MemoryKeyStore};

#[test]
fn memory_store_add_export_and_info() {
    let mut store = MemoryKeyStore::new();
    store
        .add_key(KeyId(1), KeyType::Symmetric192Bits, vec![0xabu8; 24], true)
        .unwrap();
    assert_eq!(
        store.key_info(KeyId(1)),
        Ok(KeyInfo { id: KeyId(1), ty: KeyType::Symmetric192Bits })
    );
    let mut dest = vec![0u8; 32];
    let n = store.export_key(KeyId(1), &mut dest).unwrap();
    assert_eq!(n, 24);
    assert_eq!(&dest[..24], &[0xabu8; 24]);
    assert_eq!(&dest[24..], &[0u8; 8]);
    // The combined capability returns the same bytes and metadata in one call.
    let mut dest2 = vec![0u8; 32];
    let (n2, info) = store.export_and_info(KeyId(1), &mut dest2).unwrap();
    assert_eq!(n2, 24);
    assert_eq!(dest2, dest);
    assert_eq!(info, KeyInfo { id: KeyId(1), ty: KeyType::Symmetric192Bits });
}

#[test]
fn memory_store_rejects_bad_inserts() {
    let mut store = MemoryKeyStore::new();
    // Byte length must match the declared type.
    assert_eq!(
        store.add_key(KeyId(1), KeyType::Symmetric128Bits, vec![0u8; 17], true),
        Err(Error::InvalidKeyType)
    );
    store
        .add_key(KeyId(1), KeyType::Symmetric128Bits, vec![0u8; 16], true)
        .unwrap();
    assert_eq!(
        store.add_key(KeyId(1), KeyType::Symmetric256Bits, vec![0u8; 32], true),
        Err(Error::KeyAlreadyExists)
    );
}

#[test]
fn memory_store_export_failure_modes() {
    let mut store = MemoryKeyStore::new();
    store
        .add_key(KeyId(2), KeyType::Symmetric256Bits, vec![9u8; 32], true)
        .unwrap();
    store
        .add_key(KeyId(3), KeyType::Symmetric128Bits, vec![9u8; 16], false)
        .unwrap();
    let mut dest = vec![0u8; 16];
    // Unknown identifier.
    assert_eq!(store.export(KeyId(9), &mut dest), Err(Error::KeyNotFound));
    // A 32-byte key does not fit a 16-byte buffer.
    assert_eq!(store.export(KeyId(2), &mut dest), Err(Error::BufferTooSmall));
    // Marked not exportable.
    assert_eq!(store.export(KeyId(3), &mut dest), Err(Error::NotExportable));
    assert_eq!(dest, vec![0u8; 16]);
}
