//! Durable stores, apart from the disk.
//!
//! A store keeps one protected file per site for the retained identity and one
//! per publisher for the accepted-manifest history:
//!
//! ```text
//! <root>/store-meta.json              protection mode, and a salt if encrypted
//! <root>/store-key                    integrity mode only: the HMAC key
//! <root>/identities/<site>.json       the retained identity
//! <root>/history/<publisher>.json     the accepted-manifest history
//! ```
//!
//! What is kept is public, so the threat is tampering. Every file is
//! authenticated, or encrypted and authenticated, and a file that does not
//! verify is an error. It is never read as "nothing is retained".
//!
//! These modules hold the decisions: what is written, what is made of what was
//! read, and when either is refused. The shell reads and writes the files and
//! turns JSON into the values used here.
pub mod dto;
pub mod protect;
pub mod root;
pub mod identity;
pub mod history;
