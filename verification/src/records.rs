//! The record of one successfully stored item.

use vstd::prelude::*;

verus! {

/// One successfully stored item, as reported to the caller and handed to
/// the metadata publisher.
///
/// `size` is the byte count the object-store sink reported — never the
/// length the remote server advertised.  `file` is the server-generated
/// public identifier.  `sha` is present exactly when hashing was
/// requested for the item, and then holds the lowercase-hex SHA-1 of
/// the stored bytes.
#[derive(Debug, Clone)]
pub struct UploadResult {
    pub deployed_url: String,
    pub size: usize,
    pub file: String,
    pub sha: Option<String>,
}

/// The relational deployment's metadata row for one stored file,
/// associated with its owning account.
///
/// The row carries both identities: `storage_key`, used only as the
/// object-store key and never exposed, and `public_id`, the identifier
/// the deployed URL carries — so storage keys can rotate without
/// breaking public URLs, and public URLs never enumerate storage keys.
/// `filename` is the display name derived from the source URL.
#[derive(Debug, Clone)]
pub struct FileRow {
    pub user_id: i32,
    pub storage_key: String,
    pub public_id: String,
    pub filename: String,
    pub size: usize,
    pub url: String,
    pub sha: Option<String>,
}

} // verus!
