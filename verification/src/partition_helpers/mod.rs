//! Materialising a partition, from what its directory holds or afresh.

pub mod error;
pub mod fence;
pub mod files;
pub mod offsets;
pub mod steps;
pub mod superblock;
