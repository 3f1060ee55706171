//! Update/restore orchestration for a locally or remotely installed
//! input-method engine.
//!
//! The library holds the decision logic of the updater: which release
//! assets belong to a device, how the store of versioned backups is
//! rotated, and how the update and restore flows move from state to
//! state.  All file, network and process work is left to the caller,
//! which feeds observed facts (directory listings, process output,
//! download results) into the functions here and carries out the
//! actions they return.

pub mod backup;
pub mod config;
pub mod device;
pub mod error;
pub mod fcitx5;
pub mod flow;
pub mod hamster;
pub mod im;
pub mod parse;
pub mod paths;
pub mod release;
pub mod squirrel;
pub mod text;
pub mod weasel;

pub use error::Error;
