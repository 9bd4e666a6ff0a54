//! The key store capability consumed by the workers: export raw symmetric key
//! bytes by identifier into a caller-provided buffer, and fetch key metadata.
//! The store itself is long-lived and owned outside the workers; this module
//! states its interface contract and provides an in-memory store.

use vstd::prelude::*;

verus! {

/// Largest supported symmetric key in bytes; key export buffers are sized to it.
pub const MAX_SYMMETRIC_KEY_SIZE: usize = 32;

/// Opaque identifier naming a key inside the key store.
#[derive(Clone, Copy, Debug, PartialEq, Eq, Structural)]
pub struct KeyId(pub u32);

/// The type of a stored key. The symmetric types are the only ones this core
/// operates on; any other type is rejected per request.
#[derive(Clone, Copy, Debug, PartialEq, Eq, Structural)]
pub enum KeyType {
    Symmetric128Bits,
    Symmetric192Bits,
    Symmetric256Bits,
    EccKeypairNistP256,
    EccKeypairNistP384,
}

impl KeyType {
    /// Byte length of the raw key material of this type.
    pub open spec fn spec_key_size(self) -> nat {
        match self {
            KeyType::Symmetric128Bits => 16,
            KeyType::Symmetric192Bits => 24,
            KeyType::Symmetric256Bits => 32,
            KeyType::EccKeypairNistP256 => 32,
            KeyType::EccKeypairNistP384 => 48,
        }
    }

    /// Byte length of the raw key material of this type.
    pub fn key_size(self) -> (r: usize)
        ensures
            r == self.spec_key_size(),
    {
        match self {
            KeyType::Symmetric128Bits => 16,
            KeyType::Symmetric192Bits => 24,
            KeyType::Symmetric256Bits => 32,
            KeyType::EccKeypairNistP256 => 32,
            KeyType::EccKeypairNistP384 => 48,
        }
    }

    /// True for the key types that hold raw symmetric cipher keys.
    pub open spec fn is_symmetric(self) -> bool {
        match self {
            KeyType::Symmetric128Bits => true,
            KeyType::Symmetric192Bits => true,
            KeyType::Symmetric256Bits => true,
            _ => false,
        }
    }
}

/// Metadata describing a stored key, fetched without exposing key bytes.
#[derive(Clone, Copy, Debug, PartialEq, Eq, Structural)]
pub struct KeyInfo {
    pub id: KeyId,
    pub ty: KeyType,
}

/// Errors of the key store capability.
#[derive(Clone, Copy, Debug, PartialEq, Eq, Structural)]
pub enum Error {
    /// No key with the requested identifier exists in the store.
    KeyNotFound,
    /// The caller-provided export buffer cannot hold the key bytes.
    BufferTooSmall,
    /// The key exists but may not be exported.
    NotExportable,
    /// The key's type does not fit the requested operation.
    InvalidKeyType,
    /// A key with this identifier is already present.
    KeyAlreadyExists,
}

/// The narrow capability the workers consume. A concrete store is injected
/// behind this interface; the workers depend on nothing else of it.
pub trait KeyStore {
    /// Write the raw bytes of key `key_id` into a prefix of `dest` and return
    /// how many bytes were written.
    fn export(&mut self, key_id: KeyId, dest: &mut Vec<u8>) -> (r: Result<usize, Error>)
        ensures
            final(dest)@.len() == old(dest)@.len(),
            r matches Ok(n) ==> n <= final(dest)@.len(),
    ;

    /// Fetch type and size metadata of key `key_id` without exposing its bytes.
    fn get_key_info(&self, key_id: KeyId) -> (r: Result<KeyInfo, Error>)
        ensures
            r matches Ok(info) ==> info.id == key_id,
    ;

    /// Export the key bytes and fetch the key's metadata as one capability
    /// call, so a store shared behind a lock is entered once per request.
    fn export_and_info(&mut self, key_id: KeyId, dest: &mut Vec<u8>) -> (r: Result<
        (usize, KeyInfo),
        Error,
    >)
        ensures
            final(dest)@.len() == old(dest)@.len(),
            r matches Ok((n, info)) ==> n <= final(dest)@.len() && info.id == key_id,
    ;
}

/// One key held by the in-memory store.
pub struct StoredKey {
    pub id: KeyId,
    pub ty: KeyType,
    pub bytes: Vec<u8>,
    pub exportable: bool,
}

/// First entry of `keys` whose identifier is `id`, if any.
pub open spec fn lookup(keys: Seq<StoredKey>, id: KeyId) -> Option<StoredKey>
    decreases keys.len(),
{
    if keys.len() == 0 {
        None
    } else if keys[0].id == id {
        Some(keys[0])
    } else {
        lookup(keys.skip(1), id)
    }
}

proof fn lemma_lookup_found(keys: Seq<StoredKey>, id: KeyId, i: int)
    requires
        0 <= i < keys.len(),
        keys[i].id == id,
        forall|j: int| 0 <= j < i ==> keys[j].id != id,
    ensures
        lookup(keys, id) == Some(keys[i]),
    decreases i,
{
    if i > 0 {
        lemma_lookup_found(keys.skip(1), id, i - 1);
    }
}

proof fn lemma_lookup_missing(keys: Seq<StoredKey>, id: KeyId)
    requires
        forall|j: int| 0 <= j < keys.len() ==> keys[j].id != id,
    ensures
        lookup(keys, id) is None,
    decreases keys.len(),
{
    if keys.len() > 0 {
        lemma_lookup_missing(keys.skip(1), id);
    }
}

/// A simple in-memory key store: the provisioning path is outside this core,
/// so keys are loaded up front through `add_key`.
pub struct MemoryKeyStore {
    pub keys: Vec<StoredKey>,
}

impl MemoryKeyStore {
    pub fn new() -> (r: Self)
        ensures
            r.keys@.len() == 0,
    {
        MemoryKeyStore { keys: Vec::new() }
    }

    /// Load a key. Rejected when the byte length does not match the type or
    /// when the identifier is already present.
    pub fn add_key(&mut self, id: KeyId, ty: KeyType, bytes: Vec<u8>, exportable: bool) -> (r:
        Result<(), Error>)
        ensures
            r is Ok <==> bytes@.len() == ty.spec_key_size() && lookup(
                old(self).keys@,
                id,
            ) is None,
            r is Ok ==> final(self).keys@ == old(self).keys@.push(
                StoredKey { id, ty, bytes, exportable },
            ),
            r is Err ==> *final(self) == *old(self),
            r is Err ==> r == Err::<(), Error>(Error::InvalidKeyType) || r == Err::<(), Error>(
                Error::KeyAlreadyExists,
            ),
            lookup(old(self).keys@, id) is Some ==> r == Err::<(), Error>(Error::KeyAlreadyExists),
    {
        if self.find(id).is_some() {
            return Err(Error::KeyAlreadyExists);
        }
        if bytes.len() != ty.key_size() {
            return Err(Error::InvalidKeyType);
        }
        let entry = StoredKey { id, ty, bytes, exportable };
        self.keys.push(entry);
        Ok(())
    }

    /// Index of the first entry with identifier `id`.
    fn find(&self, id: KeyId) -> (r: Option<usize>)
        ensures
            match r {
                Some(i) => i < self.keys@.len() && lookup(self.keys@, id) == Some(
                    self.keys@[i as int],
                ),
                None => lookup(self.keys@, id) is None,
            },
    {
        let mut i: usize = 0;
        while i < self.keys.len()
            invariant
                i <= self.keys@.len(),
                forall|j: int| 0 <= j < i ==> self.keys@[j].id != id,
            decreases self.keys@.len() - i,
        {
            if self.keys[i].id == id {
                proof {
                    lemma_lookup_found(self.keys@, id, i as int);
                }
                return Some(i);
            }
            i += 1;
        }
        proof {
            lemma_lookup_missing(self.keys@, id);
        }
        None
    }

    /// Export the raw bytes of key `id` into a prefix of `dest`.
    pub fn export_key(&self, id: KeyId, dest: &mut Vec<u8>) -> (r: Result<usize, Error>)
        ensures
            final(dest)@.len() == old(dest)@.len(),
            match lookup(self.keys@, id) {
                None => r == Err::<usize, Error>(Error::KeyNotFound) && final(dest)@ == old(
                    dest,
                )@,
                Some(entry) => {
                    if !entry.exportable {
                        r == Err::<usize, Error>(Error::NotExportable) && final(dest)@ == old(
                            dest,
                        )@
                    } else if entry.bytes@.len() > old(dest)@.len() {
                        r == Err::<usize, Error>(Error::BufferTooSmall) && final(dest)@ == old(
                            dest,
                        )@
                    } else {
                        r matches Ok(n) && n == entry.bytes@.len() && final(dest)@
                            == entry.bytes@ + old(dest)@.skip(entry.bytes@.len() as int)
                    }
                },
            },
    {
        let found = self.find(id);
        match found {
            None => Err(Error::KeyNotFound),
            Some(idx) => {
                let entry_bytes_len = self.keys[idx].bytes.len();
                if !self.keys[idx].exportable {
                    return Err(Error::NotExportable);
                }
                if entry_bytes_len > dest.len() {
                    return Err(Error::BufferTooSmall);
                }
                let mut i: usize = 0;
                while i < entry_bytes_len
                    invariant
                        idx < self.keys@.len(),
                        entry_bytes_len == self.keys@[idx as int].bytes@.len(),
                        entry_bytes_len <= dest@.len(),
                        i <= entry_bytes_len,
                        dest@.len() == old(dest)@.len(),
                        forall|j: int|
                            0 <= j < i ==> dest@[j] == self.keys@[idx as int].bytes@[j],
                        forall|j: int| i <= j < dest@.len() ==> dest@[j] == old(dest)@[j],
                    decreases entry_bytes_len - i,
                {
                    let b = self.keys[idx].bytes[i];
                    dest[i] = b;
                    i += 1;
                }
                proof {
                    assert(dest@ =~= self.keys@[idx as int].bytes@ + old(dest)@.skip(
                        self.keys@[idx as int].bytes@.len() as int,
                    ));
                }
                Ok(entry_bytes_len)
            },
        }
    }

    /// Metadata of key `id`.
    pub fn key_info(&self, id: KeyId) -> (r: Result<KeyInfo, Error>)
        ensures
            match lookup(self.keys@, id) {
                None => r == Err::<KeyInfo, Error>(Error::KeyNotFound),
                Some(entry) => r == Ok::<KeyInfo, Error>(KeyInfo { id, ty: entry.ty }),
            },
    {
        match self.find(id) {
            None => Err(Error::KeyNotFound),
            Some(idx) => Ok(KeyInfo { id, ty: self.keys[idx].ty }),
        }
    }
}

impl KeyStore for MemoryKeyStore {
    fn export(&mut self, key_id: KeyId, dest: &mut Vec<u8>) -> (r: Result<usize, Error>) {
        self.export_key(key_id, dest)
    }

    fn get_key_info(&self, key_id: KeyId) -> (r: Result<KeyInfo, Error>) {
        self.key_info(key_id)
    }

    fn export_and_info(&mut self, key_id: KeyId, dest: &mut Vec<u8>) -> (r: Result<
        (usize, KeyInfo),
        Error,
    >) {
        let n = match self.export_key(key_id, dest) {
            Ok(n) => n,
            Err(e) => {
                return Err(e);
            },
        };
        let info = match self.key_info(key_id) {
            Ok(info) => info,
            Err(e) => {
                return Err(e);
            },
        };
        Ok((n, info))
    }
}

} // verus!
