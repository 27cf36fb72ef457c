//! A TLS abstraction over a platform engine: credentials, PKCS#12 import
//! results, and a resumable handshake lifecycle.
//!
//! The engine itself (record encryption, certificate validation, keychain
//! storage) and the transport's I/O stay outside. The library decides what
//! each engine report means: which bundle an import gives, and whether a
//! handshake attempt completes, is suspended, or fails.

pub mod builder;
pub mod credential;
pub mod error;
pub mod handshake;
pub mod pkcs12;
