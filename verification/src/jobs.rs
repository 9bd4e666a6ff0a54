//! The job protocol: the closed set of request and response variants that the
//! workers exchange with their host. Every response carries the client and
//! request identifiers of the request it answers, and returns the caller's
//! data buffers (possibly truncated); the core never allocates new payload
//! storage behind the caller's back.

use vstd::prelude::*;

verus! {

use crate::crypto;
use crate::keystore;
use crate::keystore::KeyId;

/// Opaque identifier of the client that issued a request; carried through to
/// the response unchanged and never interpreted.
#[derive(Clone, Copy, Debug, PartialEq, Eq, Structural)]
pub struct ClientId(pub u32);

/// Opaque identifier correlating a response to its request; carried through
/// unchanged and never interpreted.
#[derive(Clone, Copy, Debug, PartialEq, Eq, Structural)]
pub struct RequestId(pub u32);

/// The error taxonomy of the job protocol.
#[derive(Clone, Copy, Debug, PartialEq, Eq, Structural)]
pub enum Error {
    /// The request source is exhausted; the worker's step cannot proceed.
    StreamTerminated,
    /// The response sink refused delivery of a completed response.
    Send,
    /// The request variant is not in this worker's declared set.
    UnexpectedRequestType,
    /// An internal-key request reached a worker configured without a key store.
    NoKeyStore,
    /// The key store failed the request.
    KeyStore(keystore::Error),
    /// The cryptographic layer failed the request.
    Crypto(crypto::Error),
}

/// One inbound job. Buffers are owned by the request and handed back through
/// the response, so the caller keeps a single point of ownership.
pub enum Request {
    EncryptAesGcm {
        client_id: ClientId,
        request_id: RequestId,
        key_id: KeyId,
        iv: Vec<u8>,
        buffer: Vec<u8>,
        aad: Vec<u8>,
        tag: Vec<u8>,
    },
    EncryptAesGcmExternalKey {
        client_id: ClientId,
        request_id: RequestId,
        key: Vec<u8>,
        iv: Vec<u8>,
        buffer: Vec<u8>,
        aad: Vec<u8>,
        tag: Vec<u8>,
    },
    DecryptAesGcm {
        client_id: ClientId,
        request_id: RequestId,
        key_id: KeyId,
        iv: Vec<u8>,
        buffer: Vec<u8>,
        aad: Vec<u8>,
        tag: Vec<u8>,
    },
    DecryptAesGcmExternalKey {
        client_id: ClientId,
        request_id: RequestId,
        key: Vec<u8>,
        iv: Vec<u8>,
        buffer: Vec<u8>,
        aad: Vec<u8>,
        tag: Vec<u8>,
    },
    EncryptAesCbc {
        client_id: ClientId,
        request_id: RequestId,
        key_id: KeyId,
        iv: Vec<u8>,
        buffer: Vec<u8>,
        plaintext_size: usize,
    },
    EncryptAesCbcExternalKey {
        client_id: ClientId,
        request_id: RequestId,
        key: Vec<u8>,
        iv: Vec<u8>,
        buffer: Vec<u8>,
        plaintext_size: usize,
    },
    DecryptAesCbc {
        client_id: ClientId,
        request_id: RequestId,
        key_id: KeyId,
        iv: Vec<u8>,
        buffer: Vec<u8>,
    },
    DecryptAesCbcExternalKey {
        client_id: ClientId,
        request_id: RequestId,
        key: Vec<u8>,
        iv: Vec<u8>,
        buffer: Vec<u8>,
    },
    EncryptChaChaPoly {
        client_id: ClientId,
        request_id: RequestId,
        key_id: KeyId,
        nonce: Vec<u8>,
        plaintext: Vec<u8>,
        aad: Vec<u8>,
        tag: Vec<u8>,
    },
    EncryptChaChaPolyExternalKey {
        client_id: ClientId,
        request_id: RequestId,
        key: Vec<u8>,
        nonce: Vec<u8>,
        plaintext: Vec<u8>,
        aad: Vec<u8>,
        tag: Vec<u8>,
    },
    DecryptChaChaPoly {
        client_id: ClientId,
        request_id: RequestId,
        key_id: KeyId,
        nonce: Vec<u8>,
        ciphertext: Vec<u8>,
        aad: Vec<u8>,
        tag: Vec<u8>,
    },
    DecryptChaChaPolyExternalKey {
        client_id: ClientId,
        request_id: RequestId,
        key: Vec<u8>,
        nonce: Vec<u8>,
        ciphertext: Vec<u8>,
        aad: Vec<u8>,
        tag: Vec<u8>,
    },
}

impl Request {
    /// The client that issued this request.
    pub open spec fn client(self) -> ClientId {
        match self {
            Request::EncryptAesGcm { client_id, .. } => client_id,
            Request::EncryptAesGcmExternalKey { client_id, .. } => client_id,
            Request::DecryptAesGcm { client_id, .. } => client_id,
            Request::DecryptAesGcmExternalKey { client_id, .. } => client_id,
            Request::EncryptAesCbc { client_id, .. } => client_id,
            Request::EncryptAesCbcExternalKey { client_id, .. } => client_id,
            Request::DecryptAesCbc { client_id, .. } => client_id,
            Request::DecryptAesCbcExternalKey { client_id, .. } => client_id,
            Request::EncryptChaChaPoly { client_id, .. } => client_id,
            Request::EncryptChaChaPolyExternalKey { client_id, .. } => client_id,
            Request::DecryptChaChaPoly { client_id, .. } => client_id,
            Request::DecryptChaChaPolyExternalKey { client_id, .. } => client_id,
        }
    }

    /// The correlation identifier of this request.
    pub open spec fn request(self) -> RequestId {
        match self {
            Request::EncryptAesGcm { request_id, .. } => request_id,
            Request::EncryptAesGcmExternalKey { request_id, .. } => request_id,
            Request::DecryptAesGcm { request_id, .. } => request_id,
            Request::DecryptAesGcmExternalKey { request_id, .. } => request_id,
            Request::EncryptAesCbc { request_id, .. } => request_id,
            Request::EncryptAesCbcExternalKey { request_id, .. } => request_id,
            Request::DecryptAesCbc { request_id, .. } => request_id,
            Request::DecryptAesCbcExternalKey { request_id, .. } => request_id,
            Request::EncryptChaChaPoly { request_id, .. } => request_id,
            Request::EncryptChaChaPolyExternalKey { request_id, .. } => request_id,
            Request::DecryptChaChaPoly { request_id, .. } => request_id,
            Request::DecryptChaChaPolyExternalKey { request_id, .. } => request_id,
        }
    }

    /// The client and correlation identifiers carried by every variant.
    pub fn identifiers(&self) -> (r: (ClientId, RequestId))
        ensures
            r.0 == self.client(),
            r.1 == self.request(),
    {
        match self {
            Request::EncryptAesGcm { client_id, request_id, .. } => (*client_id, *request_id),
            Request::EncryptAesGcmExternalKey { client_id, request_id, .. } => (
                *client_id,
                *request_id,
            ),
            Request::DecryptAesGcm { client_id, request_id, .. } => (*client_id, *request_id),
            Request::DecryptAesGcmExternalKey { client_id, request_id, .. } => (
                *client_id,
                *request_id,
            ),
            Request::EncryptAesCbc { client_id, request_id, .. } => (*client_id, *request_id),
            Request::EncryptAesCbcExternalKey { client_id, request_id, .. } => (
                *client_id,
                *request_id,
            ),
            Request::DecryptAesCbc { client_id, request_id, .. } => (*client_id, *request_id),
            Request::DecryptAesCbcExternalKey { client_id, request_id, .. } => (
                *client_id,
                *request_id,
            ),
            Request::EncryptChaChaPoly { client_id, request_id, .. } => (*client_id, *request_id),
            Request::EncryptChaChaPolyExternalKey { client_id, request_id, .. } => (
                *client_id,
                *request_id,
            ),
            Request::DecryptChaChaPoly { client_id, request_id, .. } => (*client_id, *request_id),
            Request::DecryptChaChaPolyExternalKey { client_id, request_id, .. } => (
                *client_id,
                *request_id,
            ),
        }
    }

    /// True for the variants the AES worker declares.
    pub open spec fn is_aes(self) -> bool {
        match self {
            Request::EncryptAesGcm { .. } => true,
            Request::EncryptAesGcmExternalKey { .. } => true,
            Request::DecryptAesGcm { .. } => true,
            Request::DecryptAesGcmExternalKey { .. } => true,
            Request::EncryptAesCbc { .. } => true,
            Request::EncryptAesCbcExternalKey { .. } => true,
            Request::DecryptAesCbc { .. } => true,
            Request::DecryptAesCbcExternalKey { .. } => true,
            _ => false,
        }
    }

    /// True for the variants the ChaCha20-Poly1305 worker declares.
    pub open spec fn is_chachapoly(self) -> bool {
        match self {
            Request::EncryptChaChaPoly { .. } => true,
            Request::EncryptChaChaPolyExternalKey { .. } => true,
            Request::DecryptChaChaPoly { .. } => true,
            Request::DecryptChaChaPolyExternalKey { .. } => true,
            _ => false,
        }
    }

    /// True for the AES-worker variants that resolve their key in the store.
    pub open spec fn is_aes_internal_key(self) -> bool {
        match self {
            Request::EncryptAesGcm { .. } => true,
            Request::DecryptAesGcm { .. } => true,
            Request::EncryptAesCbc { .. } => true,
            Request::DecryptAesCbc { .. } => true,
            _ => false,
        }
    }

    /// True for the ChaCha20-Poly1305 variants that resolve their key in the store.
    pub open spec fn is_chachapoly_internal_key(self) -> bool {
        match self {
            Request::EncryptChaChaPoly { .. } => true,
            Request::DecryptChaChaPoly { .. } => true,
            _ => false,
        }
    }
}

/// One outbound answer. Mirrors its request, either with the mutated caller
/// buffers or as the generic error case carrying the original identifiers.
pub enum Response {
    Error { client_id: ClientId, request_id: RequestId, error: Error },
    EncryptAesGcm { client_id: ClientId, request_id: RequestId, buffer: Vec<u8>, tag: Vec<u8> },
    DecryptAesGcm { client_id: ClientId, request_id: RequestId, buffer: Vec<u8> },
    EncryptAesCbc { client_id: ClientId, request_id: RequestId, buffer: Vec<u8> },
    DecryptAesCbc { client_id: ClientId, request_id: RequestId, plaintext: Vec<u8> },
    EncryptChaChaPoly {
        client_id: ClientId,
        request_id: RequestId,
        ciphertext: Vec<u8>,
        tag: Vec<u8>,
    },
    DecryptChaChaPoly { client_id: ClientId, request_id: RequestId, plaintext: Vec<u8> },
}

impl Response {
    /// The client a response is addressed to.
    pub open spec fn client(self) -> ClientId {
        match self {
            Response::Error { client_id, .. } => client_id,
            Response::EncryptAesGcm { client_id, .. } => client_id,
            Response::DecryptAesGcm { client_id, .. } => client_id,
            Response::EncryptAesCbc { client_id, .. } => client_id,
            Response::DecryptAesCbc { client_id, .. } => client_id,
            Response::EncryptChaChaPoly { client_id, .. } => client_id,
            Response::DecryptChaChaPoly { client_id, .. } => client_id,
        }
    }

    /// The request a response answers.
    pub open spec fn request(self) -> RequestId {
        match self {
            Response::Error { request_id, .. } => request_id,
            Response::EncryptAesGcm { request_id, .. } => request_id,
            Response::DecryptAesGcm { request_id, .. } => request_id,
            Response::EncryptAesCbc { request_id, .. } => request_id,
            Response::DecryptAesCbc { request_id, .. } => request_id,
            Response::EncryptChaChaPoly { request_id, .. } => request_id,
            Response::DecryptChaChaPoly { request_id, .. } => request_id,
        }
    }
}

/// The error response for the given request identifiers.
pub open spec fn error_response(c: ClientId, q: RequestId, e: Error) -> Response {
    Response::Error { client_id: c, request_id: q, error: e }
}

/// A response answers exactly the request it was produced for.
pub open spec fn correlated(request: Request, response: Response) -> bool {
    response.client() == request.client() && response.request() == request.request()
}

} // verus!
