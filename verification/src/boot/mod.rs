//! Boot: what a starting server decides from its configuration and its disk.

pub mod placement;
pub mod recovery;
pub mod superblock;
pub mod tuning;
