//! Core of a CDN front door: the verified upload pipeline.
//!
//! The library takes a caller-supplied URL pointing at externally hosted
//! content, re-hosts that content on an S3-compatible object store, and
//! records per-file metadata (size, content hash, public identifier) so the
//! content can be served from a stable CDN URL afterward.  Everything that
//! decides or computes lives here, verified; the surrounding HTTP server,
//! the outbound fetch and the object-store writes are plain I/O driven by an
//! unverified binary that calls into this crate.

mod api;
mod batch;
mod codec;
mod counters;
mod digest;
mod errors;
mod filename;
mod files;
mod host;
mod keys;
mod proxy;
mod records;
mod session;
mod store;
mod urls;

pub use api::ApiDoc;
pub use batch::collect_batch;
pub use batch::project_deployed_urls;
pub use batch::project_file_urls;
pub use codec::decode_counter;
pub use codec::decode_record;
pub use codec::encode_counter;
pub use codec::encode_record;
pub use codec::RecordFields;
pub use counters::next_counter;
pub use errors::APIError;
pub use errors::ErrorKind;
pub use filename::derive_filename;
pub use files::authorize_delete;
pub use files::DeleteDecision;
pub use host::is_restricted_host;
pub use host::require_download_credential;
pub use host::str_contains;
pub use proxy::forwardable_header;
pub use records::FileRow;
pub use records::UploadResult;
pub use session::UploadSession;
pub use store::get_totals;
pub use store::increment_totals;
pub use store::init_totals;
pub use store::store_file;
pub use store::totals_from_records;
pub use urls::compose_deployed_url;
