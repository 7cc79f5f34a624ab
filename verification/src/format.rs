//! Data formats: the records the credential store's command-line client
//! reports (`cli`) and the export tree assembled from them (`ux`).
pub mod cli;
pub mod ux;
