//! Key custody for the gravity orchestrator: validated key names, key
//! documents, the keystore backends' decisions, the derivation of chain keys
//! from a stored secp256k1 key, and the configuration tree.

pub mod config;
pub mod derivation;
pub mod document;
pub mod error;
pub mod keystore;
pub mod name;
