//! Storage and retrieval core of a multi-tenant log service: request
//! validation, the one-line record codec, the newest-first paging of the
//! event log, the rotation policy of its active segment, and the
//! tenant-scoped layout of uploaded files.

pub mod page;
pub mod record;
pub mod rotation;
pub mod store;
pub mod codec;
pub mod events;
pub mod ingest;
