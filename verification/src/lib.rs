//! Cryptographic processing core of an embedded hardware-security-module
//! firmware: request-driven workers that perform authenticated and
//! confidential symmetric encryption on behalf of clients, using keys resident
//! in a protected key store or keys supplied inline with a request.

pub mod aes_worker;
pub mod cbc_mode;
pub mod chachapoly;
pub mod chachapoly_worker;
pub mod crypto;
pub mod gcm;
pub mod jobs;
pub mod keystore;
pub mod laws;
pub mod secret;
