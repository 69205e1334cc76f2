//! A minimal identity and signature store.
//!
//! The library generates Ed25519 signing keypairs, derives public-only
//! identities from them, signs and verifies detached signatures over byte
//! payloads, and plans the permission-hardened directory tree under which
//! the single root identity is persisted.  All filesystem and environment
//! work is left to the embedding application; this crate hands it plain
//! paths, modes and record bytes.

pub mod config;
pub mod idents;
pub mod record;
pub mod runes;
pub mod sodium;
pub mod tome;
pub mod words;

pub use config::UnixenConfig;
pub use idents::Cryptoname;
pub use idents::Oldname;
pub use idents::Truename;
pub use runes::Eraname;
pub use runes::Loudname;
pub use runes::Usename;
pub use runes::usename;
pub use tome::DirPlan;
pub use tome::RootPlan;
pub use tome::Tome;
pub use words::Oldword;
pub use words::Stuff;
