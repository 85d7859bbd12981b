//! Configuration and session-security core of a small web backend.
//!
//! The crate resolves one immutable configuration snapshot from layered
//! sources, derives and validates cryptographic session-signing key material
//! from several textual encodings, computes cookie security policy from the
//! snapshot, and models the lifecycle of an optional external rendering
//! subprocess.

pub mod ascii;
pub mod b64;
pub mod config;
pub mod hex;
pub mod numtext;
pub mod secret;
pub mod ssr;
