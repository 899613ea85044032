//! The architecture-independent description of a memory mapping and the codec
//! that packs it into page-table entries.

pub mod address;
pub mod cache;
pub mod callback_queue;
pub mod entry;
pub mod entry_flags;
pub mod pcie;
pub mod protections;
pub mod triple;
pub mod settings;
