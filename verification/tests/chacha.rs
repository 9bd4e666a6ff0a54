use hsm_core::chachapoly_worker::ChaChaPolyWorkerCore;
use hsm_core::crypto;
use hsm_core::jobs::{ClientId, Error, Request, RequestId, Response};
use hsm_core::keystore::{KeyId, KeyType, MemoryKeyStore};

fn external_encrypt(
    worker: &mut ChaChaPolyWorkerCore<MemoryKeyStore>,
    key: &[u8],
    nonce: &[u8],
    aad: &[u8],
    plaintext: &[u8],
) -> Response {
    worker
        .process_request(Request::EncryptChaChaPolyExternalKey {
            client_id: ClientId(1),
            request_id: RequestId(2),
            key: key.to_vec(),
            nonce: nonce.to_vec(),
            plaintext: plaintext.to_vec(),
            aad: aad.to_vec(),
            tag: vec![0u8; 16],
        })
}

fn external_decrypt(
    worker: &mut ChaChaPolyWorkerCore<MemoryKeyStore>,
    key: &[u8],
    nonce: &[u8],
    aad: &[u8],
    ciphertext: &[u8],
    tag: &[u8],
) -> Response {
    worker
        .process_request(Request::DecryptChaChaPolyExternalKey {
            client_id: ClientId(1),
            request_id: RequestId(3),
            key: key.to_vec(),
            nonce: nonce.to_vec(),
            ciphertext: ciphertext.to_vec(),
            aad: aad.to_vec(),
            tag: tag.to_vec(),
        })
}

fn expect_error(response: Response) -> Error {
    match response {
        Response::Error { error, .. } => error,
        _ => panic!("expected an error response"),
    }
}

#[test]
fn chachapoly_external_round_trip() {
    let mut worker = ChaChaPolyWorkerCore::new(None);
    let key = [0x77u8; 32];
    let nonce = [3u8; 12];
    let aad = b"frame 1";
    let plaintext = b"stream data";
    let (ciphertext, tag) = match external_encrypt(&mut worker, &key, &nonce, aad, plaintext) {
        Response::EncryptChaChaPoly { ciphertext, tag, .. } => (ciphertext, tag),
        _ => panic!("expected an encryption response"),
    };
    assert_eq!(ciphertext.len(), plaintext.len());
    assert_ne!(ciphertext.as_slice(), plaintext.as_slice());
    assert_eq!(tag.len(), 16);
    match external_decrypt(&mut worker, &key, &nonce, aad, &ciphertext, &tag) {
        Response::DecryptChaChaPoly { plaintext: recovered, .. } => {
            assert_eq!(recovered.as_slice(), plaintext)
        }
        _ => panic!("expected a decryption response"),
    }
}

#[test]
fn chachapoly_empty_plaintext_round_trip() {
    let mut worker = ChaChaPolyWorkerCore::new(None);
    let key = [0x01u8; 32];
    let nonce = [0u8; 12];
    let (ciphertext, tag) = match external_encrypt(&mut worker, &key, &nonce, b"only aad", b"") {
        Response::EncryptChaChaPoly { ciphertext, tag, .. } => (ciphertext, tag),
        _ => panic!("expected an encryption response"),
    };
    assert!(ciphertext.is_empty());
    match external_decrypt(&mut worker, &key, &nonce, b"only aad", &ciphertext, &tag) {
        Response::DecryptChaChaPoly { plaintext, .. } => assert!(plaintext.is_empty()),
        _ => panic!("expected a decryption response"),
    }
}

#[test]
fn chachapoly_internal_round_trip_and_key_erasure() {
    let mut store = MemoryKeyStore::new();
    store
        .add_key(KeyId(4), KeyType::Symmetric256Bits, vec![0x5cu8; 32], true)
        .unwrap();
    let mut worker = ChaChaPolyWorkerCore::new(Some(store));
    let nonce = [8u8; 12];
    let (ciphertext, tag) = match worker
        .process_request(Request::EncryptChaChaPoly {
            client_id: ClientId(1),
            request_id: RequestId(1),
            key_id: KeyId(4),
            nonce: nonce.to_vec(),
            plaintext: b"vault record".to_vec(),
            aad: Vec::new(),
            tag: vec![0u8; 16],
        })
    {
        Response::EncryptChaChaPoly { ciphertext, tag, .. } => (ciphertext, tag),
        _ => panic!("expected an encryption response"),
    };
    assert_eq!(worker.key_buffer, vec![0u8; 32]);
    match worker
        .process_request(Request::DecryptChaChaPoly {
            client_id: ClientId(1),
            request_id: RequestId(2),
            key_id: KeyId(4),
            nonce: nonce.to_vec(),
            ciphertext,
            aad: Vec::new(),
            tag,
        })
    {
        Response::DecryptChaChaPoly { plaintext, .. } => {
            assert_eq!(plaintext.as_slice(), b"vault record")
        }
        _ => panic!("expected a decryption response"),
    }
    assert_eq!(worker.key_buffer, vec![0u8; 32]);
}

#[test]
fn chachapoly_no_key_store_mode() {
    let mut worker: ChaChaPolyWorkerCore<MemoryKeyStore> = ChaChaPolyWorkerCore::new(None);
    let encrypt = worker
        .process_request(Request::EncryptChaChaPoly {
            client_id: ClientId(9),
            request_id: RequestId(90),
            key_id: KeyId(1),
            nonce: vec![0u8; 12],
            plaintext: b"data".to_vec(),
            aad: Vec::new(),
            tag: vec![0u8; 16],
        });
    match encrypt {
        Response::Error { client_id, request_id, error } => {
            assert_eq!(client_id, ClientId(9));
            assert_eq!(request_id, RequestId(90));
            assert_eq!(error, Error::NoKeyStore);
        }
        _ => panic!("expected an error response"),
    }
    let decrypt = worker
        .process_request(Request::DecryptChaChaPoly {
            client_id: ClientId(9),
            request_id: RequestId(91),
            key_id: KeyId(1),
            nonce: vec![0u8; 12],
            ciphertext: b"data".to_vec(),
            aad: Vec::new(),
            tag: vec![0u8; 16],
        });
    assert_eq!(expect_error(decrypt), Error::NoKeyStore);
}

#[test]
fn chachapoly_tamper_detected() {
    let mut worker = ChaChaPolyWorkerCore::new(None);
    let key = [0x10u8; 32];
    let nonce = [5u8; 12];
    let aad = b"session 9";
    let plaintext = b"tamper evident";
    let (ciphertext, tag) = match external_encrypt(&mut worker, &key, &nonce, aad, plaintext) {
        Response::EncryptChaChaPoly { ciphertext, tag, .. } => (ciphertext, tag),
        _ => panic!("expected an encryption response"),
    };

    let mut bad_ct = ciphertext.clone();
    bad_ct[0] ^= 0x01;
    let response = external_decrypt(&mut worker, &key, &nonce, aad, &bad_ct, &tag);
    assert_eq!(expect_error(response), Error::Crypto(crypto::Error::Decrypt));

    let mut bad_tag = tag.clone();
    bad_tag[7] ^= 0x80;
    let response = external_decrypt(&mut worker, &key, &nonce, aad, &ciphertext, &bad_tag);
    assert_eq!(expect_error(response), Error::Crypto(crypto::Error::Decrypt));

    let response = external_decrypt(&mut worker, &key, &nonce, b"session 8", &ciphertext, &tag);
    assert_eq!(expect_error(response), Error::Crypto(crypto::Error::Decrypt));
}

#[test]
fn chachapoly_size_validation() {
    let mut worker = ChaChaPolyWorkerCore::new(None);
    let response = external_encrypt(&mut worker, &[1u8; 31], &[0u8; 12], b"", b"pt");
    assert_eq!(
        expect_error(response),
        Error::Crypto(crypto::Error::InvalidSymmetricKeySize)
    );
    let response = external_encrypt(&mut worker, &[1u8; 32], &[0u8; 8], b"", b"pt");
    assert_eq!(expect_error(response), Error::Crypto(crypto::Error::InvalidNonceSize));
    let response = worker
        .process_request(Request::EncryptChaChaPolyExternalKey {
            client_id: ClientId(1),
            request_id: RequestId(2),
            key: vec![1u8; 32],
            nonce: vec![0u8; 12],
            plaintext: b"pt".to_vec(),
            aad: Vec::new(),
            tag: vec![0u8; 8],
        });
    assert_eq!(expect_error(response), Error::Crypto(crypto::Error::InvalidTagSize));
}

#[test]
fn chachapoly_worker_answers_misrouted_request() {
    let mut worker: ChaChaPolyWorkerCore<MemoryKeyStore> = ChaChaPolyWorkerCore::new(None);
    let response = worker.process_request(Request::DecryptAesCbcExternalKey {
        client_id: ClientId(4),
        request_id: RequestId(44),
        key: vec![0u8; 16],
        iv: vec![0u8; 16],
        buffer: vec![0u8; 16],
    });
    match response {
        Response::Error { client_id, request_id, error } => {
            assert_eq!(client_id, ClientId(4));
            assert_eq!(request_id, RequestId(44));
            assert_eq!(error, Error::UnexpectedRequestType);
        }
        _ => panic!("expected an error response"),
    }
}

#[test]
fn chachapoly_law_functions_run() {
    let recovered = hsm_core::laws::chachapoly_round_trip(
        &[6u8; 32],
        &[7u8; 12],
        b"aad",
        b"law payload".to_vec(),
    );
    assert_eq!(recovered.as_slice(), b"law payload");
    let tampered = hsm_core::laws::chachapoly_tag_tamper_detected(
        &[6u8; 32],
        &[7u8; 12],
        b"aad",
        b"law payload".to_vec(),
        15,
        0x01,
    );
    assert_eq!(tampered, Err(crypto::Error::Decrypt));
}
