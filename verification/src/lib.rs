//! A bridge between a directory server's plugin interface and typed handler
//! functions.
//!
//! The directory server hands a plugin one parameter block per call and
//! expects a status code back. This crate holds the rules of that exchange:
//! which status code stands for which error, which callbacks a plugin
//! installs when it registers, how a callback finds the plugin's handlers
//! again through the block's private data, and when that data is released.

/// The constants that the directory server's plugin interface defines.
pub mod constants;
/// The error kinds of the bridge and their status codes.
pub mod error;
/// Entries that the directory server returns from a search.
pub mod entry;
/// The operation that a parameter block belongs to.
pub mod operation;
/// The store that keeps a plugin's private data between calls.
pub mod private_data;
/// The parameter block.
pub mod pblock;
/// Sending messages to the directory server's error log.
pub mod log;
/// The callback table, the callbacks and the registration of a plugin.
pub mod plugin;
