//! Incremental one-way synchronisation of a remote file-hosting drive into an
//! object-storage bucket: chunk planning, reconciliation, change-feed paging,
//! credential lifecycle and the decisions of the transfer protocol.

pub mod chunk;
pub mod text;
pub mod errors;
pub mod aws_manager;
pub mod clock;
pub mod onedrive_model;
pub mod onedrive_manager;
pub mod initialization;
pub mod token_manager;
pub mod cloud_sync;
