//! The key-value metadata store: per-file records plus the two
//! aggregate counters.
//!
//! The store itself is the outside embedded database; everything it is
//! asked to do is computed here, verified, and handed over: records are
//! encoded with the fixed codec before insertion, and counter updates
//! go through the atomic fetch-and-update primitive with the verified
//! step function, so a concurrent writer can never make an increment
//! read a stale value.  A record or counter write that fails is
//! swallowed: by the time metadata is published the object write has
//! already succeeded, and the upload is not failed twice.

use vstd::bytes::spec_u64_from_le_bytes;
use vstd::prelude::*;
use vstd::string::StrSliceExecFns;

use crate::codec::decode_counter;
use crate::codec::encode_counter;
use crate::codec::encode_record;
use crate::codec::RecordFields;
use crate::counters::next_counter;
use crate::records::UploadResult;

verus! {

#[verifier::external_type_specification]
#[verifier::external_body]
pub struct ExDb(sled::Db);

/// Relies on sled::Tree::insert: associates the value with the key.
/// What the database ends up holding depends on the disk and on
/// concurrent writers, so nothing is promised beyond the success flag.
#[verifier::external_body]
fn db_insert(db: &sled::Db, key: &str, value: Vec<u8>) -> bool {
    db.insert(key, value).is_ok()
}

/// Relies on sled::Tree::get: returns the value stored under the key,
/// `None` when the key is absent or the read fails.  The result depends
/// on what is on disk, so nothing is promised of it.
#[verifier::external_body]
fn db_get(db: &sled::Db, key: &str) -> Option<Vec<u8>> {
    match db.get(key) {
        Ok(Some(value)) => Some(value.to_vec()),
        _ => None,
    }
}

/// Relies on sled::Tree::contains_key.
#[verifier::external_body]
fn db_contains(db: &sled::Db, key: &str) -> bool {
    db.contains_key(key).unwrap_or(false)
}

/// Relies on sled::Tree::fetch_and_update: reads the current value,
/// applies the step function, and installs the result only if no
/// concurrent writer changed the value since the read, retrying until
/// it succeeds.  The step is the verified counter increment; which
/// value it was applied to cannot be stated here, so nothing is
/// promised beyond the success flag.
#[verifier::external_body]
fn db_fetch_and_update_counter(db: &sled::Db, key: &str, add: u64) -> bool {
    db.fetch_and_update(key, |cur: Option<&[u8]>| next_counter(cur, add)).is_ok()
}

/// Adds one file and `size` bytes to the aggregate counters, each by
/// one atomic read-modify-write against the store.
pub fn increment_totals(db: &sled::Db, size: u64) {
    db_fetch_and_update_counter(db, "num_files", 1);
    db_fetch_and_update_counter(db, "size_files", size);
}

/// Decodes a counter-store snapshot from the two raw records: both
/// must be present and of the fixed width, and the values are their
/// little-endian readings — file count first, byte total second.
pub fn totals_from_records(num: Option<Vec<u8>>, size: Option<Vec<u8>>) -> (totals: Option<
    (u64, u64),
>)
    ensures
        totals is Some <==> (num is Some && num->0@.len() == 8 && size is Some && size->0@.len()
            == 8),
        totals is Some ==> ({
            let t = totals->0;
            t.0 == spec_u64_from_le_bytes(num->0@) && t.1 == spec_u64_from_le_bytes(size->0@)
        }),
{
    match (num, size) {
        (Some(num_bytes), Some(size_bytes)) => {
            match (decode_counter(num_bytes.as_slice()), decode_counter(size_bytes.as_slice())) {
                (Some(files), Some(bytes)) => Some((files, bytes)),
                _ => None,
            }
        },
        _ => None,
    }
}

/// Reads a snapshot of the aggregate counters: file count and byte
/// total.  The snapshot may be momentarily stale relative to concurrent
/// writers but is never torn: each counter is a single fixed-width
/// record read whole.  `None` means a counter record is missing or
/// malformed — a fatal condition, since the store is pre-populated
/// before serving traffic.
pub fn get_totals(db: &sled::Db) -> Option<(u64, u64)> {
    let num = db_get(db, "num_files");
    let size = db_get(db, "size_files");
    totals_from_records(num, size)
}

/// Pre-populates both aggregate counters to zero, leaving already
/// present records untouched.  Must run before the store serves any
/// traffic: a missing counter is fatal and is never created on the
/// write path.
pub fn init_totals(db: &sled::Db) {
    if !db_contains(db, "num_files") {
        db_insert(db, "num_files", encode_counter(0));
    }
    if !db_contains(db, "size_files") {
        db_insert(db, "size_files", encode_counter(0));
    }
}

/// Publishes one upload's metadata: the record, under the fixed codec,
/// keyed by the result's identifier, then the aggregate counters.  An
/// insert failure swallows the error and skips the counter update, as
/// the object bytes are already durably stored and retrievable.
pub fn store_file(db: &sled::Db, result: &UploadResult) {
    let url_bytes = result.deployed_url.as_str().as_bytes_vec();
    let file_bytes = result.file.as_str().as_bytes_vec();
    let sha_bytes: Option<Vec<u8>> = match &result.sha {
        Some(sha) => Some(sha.as_str().as_bytes_vec()),
        None => None,
    };
    let fields = RecordFields {
        url: url_bytes,
        size: result.size as u64,
        file: file_bytes,
        sha: sha_bytes,
    };
    let record = encode_record(&fields);
    if db_insert(db, result.file.as_str(), record) {
        increment_totals(db, result.size as u64);
    }
}

} // verus!
