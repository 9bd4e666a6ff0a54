use hsm_core::crypto;
use hsm_core::jobs::{ClientId, Error, Request, RequestId, Response};
use hsm_core::keystore::{KeyId, KeyType, MemoryKeyStore};
use hsm_core::aes_worker::AesWorkerCore;

fn store_with(id: u32, ty: KeyType, bytes: Vec<u8>, exportable: bool) -> MemoryKeyStore {
    let mut store = MemoryKeyStore::new();
    store.add_key(KeyId(id), ty, bytes, exportable).unwrap();
    store
}

fn worker_without_keys() -> AesWorkerCore<MemoryKeyStore> {
    AesWorkerCore::new(MemoryKeyStore::new())
}

fn gcm_encrypt_external(
    worker: &mut AesWorkerCore<MemoryKeyStore>,
    key: &[u8],
    iv: &[u8],
    aad: &[u8],
    plaintext: &[u8],
) -> Response {
    worker
        .process_request(Request::EncryptAesGcmExternalKey {
            client_id: ClientId(1),
            request_id: RequestId(2),
            key: key.to_vec(),
            iv: iv.to_vec(),
            buffer: plaintext.to_vec(),
            aad: aad.to_vec(),
            tag: vec![0u8; 16],
        })
}

fn gcm_decrypt_external(
    worker: &mut AesWorkerCore<MemoryKeyStore>,
    key: &[u8],
    iv: &[u8],
    aad: &[u8],
    ciphertext: &[u8],
    tag: &[u8],
) -> Response {
    worker
        .process_request(Request::DecryptAesGcmExternalKey {
            client_id: ClientId(1),
            request_id: RequestId(3),
            key: key.to_vec(),
            iv: iv.to_vec(),
            buffer: ciphertext.to_vec(),
            aad: aad.to_vec(),
            tag: tag.to_vec(),
        })
}

fn expect_error(response: Response) -> Error {
    match response {
        Response::Error { error, .. } => error,
        _ => panic!("expected an error response"),
    }
}

#[test]
fn aes_gcm_external_round_trip_both_sizes() {
    let mut worker = worker_without_keys();
    let plaintext = b"the quick brown fox jumps over the lazy dog";
    let iv = [0x24u8; 12];
    let aad = b"packet header";
    for key in [vec![0x11u8; 16], vec![0x22u8; 32]] {
        let (ciphertext, tag) = match gcm_encrypt_external(&mut worker, &key, &iv, aad, plaintext)
        {
            Response::EncryptAesGcm { buffer, tag, .. } => (buffer, tag),
            _ => panic!("expected a GCM encryption response"),
        };
        assert_eq!(ciphertext.len(), plaintext.len());
        assert_ne!(ciphertext.as_slice(), plaintext.as_slice());
        assert_eq!(tag.len(), 16);
        match gcm_decrypt_external(&mut worker, &key, &iv, aad, &ciphertext, &tag) {
            Response::DecryptAesGcm { buffer, .. } => {
                assert_eq!(buffer.as_slice(), plaintext.as_slice())
            }
            _ => panic!("expected a GCM decryption response"),
        }
    }
}

#[test]
fn aes_gcm_internal_round_trip_and_key_erasure() {
    let key = vec![0x42u8; 16];
    let store = store_with(7, KeyType::Symmetric128Bits, key, true);
    let mut worker = AesWorkerCore::new(store);
    let iv = [9u8; 12];
    let (ciphertext, tag) = match worker
        .process_request(Request::EncryptAesGcm {
            client_id: ClientId(5),
            request_id: RequestId(6),
            key_id: KeyId(7),
            iv: iv.to_vec(),
            buffer: b"secret payload".to_vec(),
            aad: Vec::new(),
            tag: vec![0u8; 16],
        })
    {
        Response::EncryptAesGcm { buffer, tag, .. } => (buffer, tag),
        _ => panic!("expected a GCM encryption response"),
    };
    assert_eq!(worker.key_buffer, vec![0u8; 32]);
    match worker
        .process_request(Request::DecryptAesGcm {
            client_id: ClientId(5),
            request_id: RequestId(8),
            key_id: KeyId(7),
            iv: iv.to_vec(),
            buffer: ciphertext,
            aad: Vec::new(),
            tag,
        })
    {
        Response::DecryptAesGcm { buffer, .. } => {
            assert_eq!(buffer.as_slice(), b"secret payload")
        }
        _ => panic!("expected a GCM decryption response"),
    }
    assert_eq!(worker.key_buffer, vec![0u8; 32]);
}

#[test]
fn aes_gcm_external_key_size_validated() {
    let mut worker = worker_without_keys();
    for bad in [0usize, 15, 17, 24, 31, 33] {
        let response = gcm_encrypt_external(&mut worker, &vec![7u8; bad], &[0u8; 12], b"", b"pt");
        assert_eq!(
            expect_error(response),
            Error::Crypto(crypto::Error::InvalidSymmetricKeySize)
        );
    }
}

#[test]
fn aes_gcm_iv_and_tag_sizes_validated() {
    let mut worker = worker_without_keys();
    let response = gcm_encrypt_external(&mut worker, &[1u8; 16], &[0u8; 11], b"", b"pt");
    assert_eq!(expect_error(response), Error::Crypto(crypto::Error::InvalidIvSize));
    let response = worker
        .process_request(Request::EncryptAesGcmExternalKey {
            client_id: ClientId(1),
            request_id: RequestId(2),
            key: vec![1u8; 16],
            iv: vec![0u8; 12],
            buffer: b"pt".to_vec(),
            aad: Vec::new(),
            tag: vec![0u8; 15],
        });
    assert_eq!(expect_error(response), Error::Crypto(crypto::Error::InvalidTagSize));
}

#[test]
fn aes_gcm_tamper_detected() {
    let mut worker = worker_without_keys();
    let key = [0x33u8; 32];
    let iv = [1u8; 12];
    let aad = b"bound context";
    let plaintext = b"authenticated message";
    let (ciphertext, tag) = match gcm_encrypt_external(&mut worker, &key, &iv, aad, plaintext) {
        Response::EncryptAesGcm { buffer, tag, .. } => (buffer, tag),
        _ => panic!("expected a GCM encryption response"),
    };

    let mut bad_ct = ciphertext.clone();
    bad_ct[3] ^= 0x40;
    let response = gcm_decrypt_external(&mut worker, &key, &iv, aad, &bad_ct, &tag);
    assert_eq!(expect_error(response), Error::Crypto(crypto::Error::Decrypt));

    let mut bad_tag = tag.clone();
    bad_tag[15] ^= 0x01;
    let response = gcm_decrypt_external(&mut worker, &key, &iv, aad, &ciphertext, &bad_tag);
    assert_eq!(expect_error(response), Error::Crypto(crypto::Error::Decrypt));

    let response = gcm_decrypt_external(&mut worker, &key, &iv, b"bound contexT", &ciphertext, &tag);
    assert_eq!(expect_error(response), Error::Crypto(crypto::Error::Decrypt));
}

#[test]
fn aes_gcm_rejects_192bit_stored_key() {
    let store = store_with(1, KeyType::Symmetric192Bits, vec![5u8; 24], true);
    let mut worker = AesWorkerCore::new(store);
    let response = worker
        .process_request(Request::EncryptAesGcm {
            client_id: ClientId(1),
            request_id: RequestId(1),
            key_id: KeyId(1),
            iv: vec![0u8; 12],
            buffer: b"data".to_vec(),
            aad: Vec::new(),
            tag: vec![0u8; 16],
        });
    assert_eq!(
        expect_error(response),
        Error::KeyStore(hsm_core::keystore::Error::InvalidKeyType)
    );
    assert_eq!(worker.key_buffer, vec![0u8; 32]);
}

#[test]
fn aes_cbc_accepts_192bit_stored_key() {
    let store = store_with(1, KeyType::Symmetric192Bits, vec![5u8; 24], true);
    let mut worker = AesWorkerCore::new(store);
    let mut buffer = b"abc".to_vec();
    buffer.extend_from_slice(&[0u8; 16]);
    let ciphertext = match worker
        .process_request(Request::EncryptAesCbc {
            client_id: ClientId(1),
            request_id: RequestId(1),
            key_id: KeyId(1),
            iv: vec![7u8; 16],
            buffer,
            plaintext_size: 3,
        })
    {
        Response::EncryptAesCbc { buffer, .. } => buffer,
        _ => panic!("expected a CBC encryption response"),
    };
    assert_eq!(ciphertext.len(), 16);
    let original_len = ciphertext.len();
    match worker
        .process_request(Request::DecryptAesCbc {
            client_id: ClientId(1),
            request_id: RequestId(2),
            key_id: KeyId(1),
            iv: vec![7u8; 16],
            buffer: ciphertext,
        })
    {
        Response::DecryptAesCbc { plaintext, .. } => {
            assert_eq!(plaintext.as_slice(), b"abc");
            assert!(plaintext.len() <= original_len);
            // The response reuses the request's storage: a fresh exact-size
            // allocation could not keep the ciphertext buffer's capacity.
            assert!(plaintext.capacity() >= original_len);
        }
        _ => panic!("expected a CBC decryption response"),
    }
}

#[test]
fn aes_cbc_rejects_non_symmetric_stored_key() {
    let store = store_with(6, KeyType::EccKeypairNistP256, vec![3u8; 32], true);
    let mut worker = AesWorkerCore::new(store);
    let response = worker
        .process_request(Request::EncryptAesCbc {
            client_id: ClientId(1),
            request_id: RequestId(1),
            key_id: KeyId(6),
            iv: vec![0u8; 16],
            buffer: vec![0u8; 32],
            plaintext_size: 4,
        });
    assert_eq!(
        expect_error(response),
        Error::KeyStore(hsm_core::keystore::Error::InvalidKeyType)
    );
}

#[test]
fn aes_cbc_external_round_trip_all_sizes() {
    let mut worker = worker_without_keys();
    let plaintext = b"fifteen byte pt";
    for key in [vec![1u8; 16], vec![2u8; 24], vec![3u8; 32]] {
        let mut buffer = plaintext.to_vec();
        buffer.extend_from_slice(&[0u8; 16]);
        let ciphertext = match worker
            .process_request(Request::EncryptAesCbcExternalKey {
                client_id: ClientId(1),
                request_id: RequestId(1),
                key: key.clone(),
                iv: vec![7u8; 16],
                buffer,
                plaintext_size: plaintext.len(),
            })
        {
            Response::EncryptAesCbc { buffer, .. } => buffer,
            _ => panic!("expected a CBC encryption response"),
        };
        assert_eq!(ciphertext.len(), 16);
        match worker
            .process_request(Request::DecryptAesCbcExternalKey {
                client_id: ClientId(1),
                request_id: RequestId(2),
                key,
                iv: vec![7u8; 16],
                buffer: ciphertext,
            })
        {
            Response::DecryptAesCbc { plaintext: recovered, .. } => {
                assert_eq!(recovered.as_slice(), plaintext)
            }
            _ => panic!("expected a CBC decryption response"),
        }
    }
}

#[test]
fn aes_cbc_padding_grows_aligned_and_empty_plaintexts() {
    let mut worker = worker_without_keys();
    for (plaintext, expected_ct_len) in [(vec![9u8; 16], 32usize), (Vec::new(), 16usize)] {
        let mut buffer = plaintext.clone();
        buffer.extend_from_slice(&[0u8; 16]);
        let ciphertext = match worker
            .process_request(Request::EncryptAesCbcExternalKey {
                client_id: ClientId(1),
                request_id: RequestId(1),
                key: vec![1u8; 16],
                iv: vec![0u8; 16],
                buffer,
                plaintext_size: plaintext.len(),
            })
        {
            Response::EncryptAesCbc { buffer, .. } => buffer,
            _ => panic!("expected a CBC encryption response"),
        };
        assert_eq!(ciphertext.len(), expected_ct_len);
        match worker
            .process_request(Request::DecryptAesCbcExternalKey {
                client_id: ClientId(1),
                request_id: RequestId(2),
                key: vec![1u8; 16],
                iv: vec![0u8; 16],
                buffer: ciphertext,
            })
        {
            Response::DecryptAesCbc { plaintext: recovered, .. } => {
                assert_eq!(recovered, plaintext)
            }
            _ => panic!("expected a CBC decryption response"),
        }
    }
}

#[test]
fn aes_cbc_size_errors() {
    let mut worker = worker_without_keys();
    // No room for padding: the buffer is exactly the plaintext.
    let response = worker
        .process_request(Request::EncryptAesCbcExternalKey {
            client_id: ClientId(1),
            request_id: RequestId(1),
            key: vec![1u8; 16],
            iv: vec![0u8; 16],
            buffer: b"hello".to_vec(),
            plaintext_size: 5,
        });
    assert_eq!(expect_error(response), Error::Crypto(crypto::Error::InvalidBufferSize));
    // Ciphertext not a multiple of the block size.
    let response = worker
        .process_request(Request::DecryptAesCbcExternalKey {
            client_id: ClientId(1),
            request_id: RequestId(2),
            key: vec![1u8; 16],
            iv: vec![0u8; 16],
            buffer: vec![0u8; 15],
        });
    assert_eq!(expect_error(response), Error::Crypto(crypto::Error::InvalidBufferSize));
    // Unsupported external key length.
    let response = worker
        .process_request(Request::EncryptAesCbcExternalKey {
            client_id: ClientId(1),
            request_id: RequestId(3),
            key: vec![1u8; 17],
            iv: vec![0u8; 16],
            buffer: vec![0u8; 32],
            plaintext_size: 4,
        });
    assert_eq!(
        expect_error(response),
        Error::Crypto(crypto::Error::InvalidSymmetricKeySize)
    );
}

#[test]
fn aes_cbc_bad_padding_detected() {
    let mut worker = worker_without_keys();
    // An all-zero block cannot decrypt to well-formed padding under this key.
    let response = worker
        .process_request(Request::DecryptAesCbcExternalKey {
            client_id: ClientId(1),
            request_id: RequestId(1),
            key: vec![0x5au8; 16],
            iv: vec![0u8; 16],
            buffer: vec![0u8; 16],
        });
    assert_eq!(expect_error(response), Error::Crypto(crypto::Error::InvalidPadding));
}

#[test]
fn aes_key_store_errors_reach_the_response() {
    let mut store = MemoryKeyStore::new();
    store
        .add_key(KeyId(2), KeyType::EccKeypairNistP384, vec![1u8; 48], true)
        .unwrap();
    store
        .add_key(KeyId(3), KeyType::Symmetric128Bits, vec![2u8; 16], false)
        .unwrap();
    let mut worker = AesWorkerCore::new(store);
    let request = |key_id: u32, request_id: u32| Request::EncryptAesGcm {
        client_id: ClientId(1),
        request_id: RequestId(request_id),
        key_id: KeyId(key_id),
        iv: vec![0u8; 12],
        buffer: b"data".to_vec(),
        aad: Vec::new(),
        tag: vec![0u8; 16],
    };
    let response = worker.process_request(request(9, 1));
    assert_eq!(
        expect_error(response),
        Error::KeyStore(hsm_core::keystore::Error::KeyNotFound)
    );
    // A 48-byte key cannot fit the 32-byte export buffer.
    let response = worker.process_request(request(2, 2));
    assert_eq!(
        expect_error(response),
        Error::KeyStore(hsm_core::keystore::Error::BufferTooSmall)
    );
    let response = worker.process_request(request(3, 3));
    assert_eq!(
        expect_error(response),
        Error::KeyStore(hsm_core::keystore::Error::NotExportable)
    );
}

#[test]
fn aes_worker_answers_misrouted_request() {
    let mut worker = worker_without_keys();
    let response = worker.process_request(Request::EncryptChaChaPolyExternalKey {
        client_id: ClientId(3),
        request_id: RequestId(33),
        key: vec![0u8; 32],
        nonce: vec![0u8; 12],
        plaintext: b"pt".to_vec(),
        aad: Vec::new(),
        tag: vec![0u8; 16],
    });
    match response {
        Response::Error { client_id, request_id, error } => {
            assert_eq!(client_id, ClientId(3));
            assert_eq!(request_id, RequestId(33));
            assert_eq!(error, Error::UnexpectedRequestType);
        }
        _ => panic!("expected an error response"),
    }
}

#[test]
fn aes_sequential_requests_are_isolated_and_correlated() {
    let mut worker = worker_without_keys();
    // First a malformed request from one client...
    let malformed = worker
        .process_request(Request::EncryptAesGcmExternalKey {
            client_id: ClientId(10),
            request_id: RequestId(100),
            key: vec![1u8; 15],
            iv: vec![0u8; 12],
            buffer: b"first".to_vec(),
            aad: Vec::new(),
            tag: vec![0u8; 16],
        });
    match malformed {
        Response::Error { client_id, request_id, error } => {
            assert_eq!(client_id, ClientId(10));
            assert_eq!(request_id, RequestId(100));
            assert_eq!(error, Error::Crypto(crypto::Error::InvalidSymmetricKeySize));
        }
        _ => panic!("expected an error response"),
    }
    // ...then a valid one from another client, unaffected by the first.
    let key = [9u8; 16];
    let iv = [4u8; 12];
    let valid = worker
        .process_request(Request::EncryptAesGcmExternalKey {
            client_id: ClientId(11),
            request_id: RequestId(101),
            key: key.to_vec(),
            iv: iv.to_vec(),
            buffer: b"second".to_vec(),
            aad: Vec::new(),
            tag: vec![0u8; 16],
        });
    let (client_id, request_id, ciphertext, tag) = match valid {
        Response::EncryptAesGcm { client_id, request_id, buffer, tag } => {
            (client_id, request_id, buffer, tag)
        }
        _ => panic!("expected a GCM encryption response"),
    };
    assert_eq!(client_id, ClientId(11));
    assert_eq!(request_id, RequestId(101));
    match gcm_decrypt_external(&mut worker, &key, &iv, b"", &ciphertext, &tag) {
        Response::DecryptAesGcm { buffer, .. } => assert_eq!(buffer.as_slice(), b"second"),
        _ => panic!("expected a GCM decryption response"),
    }
}

#[test]
fn verified_law_functions_run() {
    let recovered = hsm_core::laws::aes_gcm_round_trip(
        &[1u8; 16],
        &[2u8; 12],
        b"aad",
        b"payload".to_vec(),
    );
    assert_eq!(recovered.as_slice(), b"payload");
    let recovered = hsm_core::laws::aes_cbc_round_trip(&[1u8; 24], &[2u8; 16], b"payload".to_vec());
    assert_eq!(recovered.as_slice(), b"payload");
    let tampered = hsm_core::laws::aes_gcm_tag_tamper_detected(
        &[1u8; 32],
        &[2u8; 12],
        b"aad",
        b"payload".to_vec(),
        0,
        0x80,
    );
    assert_eq!(tampered, Err(crypto::Error::Decrypt));
}
