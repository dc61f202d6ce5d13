//! A managed attachment file store: an identifier-keyed binary content store
//! kept in a single managed directory, with path confinement on reads and
//! deletes and garbage collection against a caller-supplied set of live
//! identifiers.
//!
//! The store's decision logic is verified: identifier validation, extension
//! normalization, path construction, the choice of files to sweep before a
//! write, the confinement check on reads and deletes, and the choice of
//! files to garbage-collect. The host process performs the actual filesystem
//! work and feeds plain values — directory listings, canonicalized paths,
//! process output — into these functions, acting only on what they return.

pub mod codec;
pub mod confine;
pub mod daemon;
pub mod errors;
pub mod ext;
pub mod gc;
pub mod ident;
pub mod ingest;
pub mod laws;
pub mod listing;
pub mod paths;
pub mod text;
pub mod update;
pub mod zoom;

pub use codec::{decode_inline_payload, encode_file_payload};
pub use confine::{authorize_managed_path, delete_decision, is_confined, PathResolution};
pub use daemon::choose_login_shell;
pub use errors::StoreError;
pub use ext::normalize_extension;
pub use gc::collect_targets;
pub use ident::validate_attachment_id;
pub use ingest::{plan_copy_write, plan_inline_write, CopyPlan, WritePlan};
pub use listing::{sweep_targets, DirEntry};
pub use paths::{attachment_dir_path, build_attachment_path};
