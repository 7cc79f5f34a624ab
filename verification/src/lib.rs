//! Interactive hierarchical selection engine for exporting a three-level
//! dataset (accounts, vaults, items): the tree model, the flatten/reconstruct
//! codec, the exclusion set, the cascading visibility projection, and the
//! navigator state machine that key events and background results drive.
pub mod export;
pub mod format;
pub mod model;
pub mod op;
