//! Cryptographic core of a peer-to-peer messenger: a post-quantum handshake,
//! in-session re-keying, and password-protected storage of the secrets.
//!
//! The library is verified with Verus. Its contracts are stated over the
//! views of its types and over four functions that name what the primitives
//! compute: the encapsulation key of a seed and the secret that a seed
//! decapsulates ([`kem`]), what AES-256-GCM opens ([`aes`]), and the key that
//! Argon2id derives ([`argon2`]). The calls into the primitives are the
//! `external_body` functions of those three modules; everything else is
//! proved from their contracts.
//!
//! - [`types`]: the data model and its views.
//! - [`codec`]: the binary layouts, with [`roundtrip`] for their laws.
//! - [`sealed`]: sealing and opening, under a key and under a password.
//! - [`session`]: the handshake and the re-key rounds, with [`convergence`]
//!   for their laws.
//! - [`envelope`]: containers for a public key, an encrypted seed and a
//!   single message.
//! - [`bytes`], [`error`]: byte buffers and the error kinds.

pub mod aes;
pub mod argon2;
pub mod bytes;
pub mod codec;
pub mod convergence;
pub mod envelope;
pub mod error;
pub mod kem;
pub mod roundtrip;
pub mod sealed;
pub mod session;
pub mod types;
