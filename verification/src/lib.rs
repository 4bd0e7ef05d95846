//! A tool-serving gateway core: WebAssembly guest modules contribute pure
//! validators, the host supplies the side-effecting capabilities, and every
//! capability call is admitted only when both the guest validator and the
//! host policy accept the input.
//!
//! Text is carried as UTF-8 bytes (`Vec<u8>`) throughout, so that the string
//! logic can be specified and proved over `Seq<u8>`.

pub mod capability;
pub mod config;
pub mod digest;
pub mod discovery;
pub mod dispatch;
pub mod executor;
pub mod guest;
pub mod header;
pub mod manager;
pub mod signature;
pub mod text;
pub mod utf8;
