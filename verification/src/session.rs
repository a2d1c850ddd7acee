//! The upload orchestrator for one item.
//!
//! One upload runs as a session: `begin` validates the credential
//! requirement before any network work and generates fresh identifiers;
//! `absorb` observes every chunk of the remote body, in order, exactly
//! as it flows to the object-store sink; `complete` takes the byte
//! count the sink reported and builds the final record.  The session
//! itself performs no I/O: the caller fetches chunks and writes them to
//! storage, and hands this state machine the facts.

use vstd::prelude::*;

use crate::digest::hex_encode;
use crate::digest::hex_of;
use crate::digest::sha1_max_input_len;
use crate::digest::sha1_of;
use crate::digest::Sha1Stream;
use crate::errors::APIError;
use crate::errors::ErrorKind;
use crate::filename::derive_filename;
use crate::filename::spec_display_filename;
use crate::host::require_download_credential;
use crate::host::spec_is_restricted_host;
use crate::keys::fresh_object_key;
use crate::records::FileRow;
use crate::records::UploadResult;
use crate::urls::compose_deployed_url;
use crate::urls::spec_deployed_url;

verus! {

/// The in-flight state of one upload: the generated identifiers, the
/// hash request, and the running digest over the bytes streamed so far.
pub struct UploadSession {
    storage_key: String,
    public_id: String,
    hash: bool,
    tee: Sha1Stream,
    streamed: Ghost<Seq<u8>>,
}

impl UploadSession {
    /// The session's digest state mirrors exactly the bytes streamed.
    pub closed spec fn wf(&self) -> bool {
        self.hash ==> self.tee.bytes_seen() == self.streamed@
    }

    /// Whether a digest was requested for this item.
    pub closed spec fn wants_hash(&self) -> bool {
        self.hash
    }

    /// The bytes that have flowed through the session, in order.
    pub closed spec fn streamed(&self) -> Seq<u8> {
        self.streamed@
    }

    /// The key the object is stored under (internal, never exposed).
    pub closed spec fn spec_storage_key(&self) -> Seq<char> {
        self.storage_key@
    }

    /// The identifier embedded in the deployed URL.
    pub closed spec fn spec_public_id(&self) -> Seq<char> {
        self.public_id@
    }

    /// Starts an upload whose public identifier is the storage key
    /// itself.  A restricted-host URL without a credential is rejected
    /// as a `BadRequest` here, before any network call; no identifier
    /// or digest state exists in that case.
    pub fn begin(url: &str, hash: bool, has_credential: bool) -> (r: Result<
        UploadSession,
        APIError,
    >)
        ensures
            r is Ok <==> (has_credential || !spec_is_restricted_host(url@)),
            r is Err ==> r->Err_0.kind == ErrorKind::BadRequest,
            r is Ok ==> {
                let s = r->Ok_0;
                &&& s.wf()
                &&& s.wants_hash() == hash
                &&& s.streamed() == Seq::<u8>::empty()
                &&& s.spec_public_id() == s.spec_storage_key()
            },
    {
        match require_download_credential(url, has_credential) {
            Ok(()) => {
                let storage_key = fresh_object_key();
                let public_id = storage_key.clone();
                Ok(
                    UploadSession {
                        storage_key,
                        public_id,
                        hash,
                        tee: Sha1Stream::new(),
                        streamed: Ghost(Seq::empty()),
                    },
                )
            },
            Err(e) => Err(e),
        }
    }

    /// Starts an upload whose public identifier is generated separately
    /// from the storage key, so public URLs never expose storage keys.
    pub fn begin_with_public_identity(url: &str, hash: bool, has_credential: bool) -> (r: Result<
        UploadSession,
        APIError,
    >)
        ensures
            r is Ok <==> (has_credential || !spec_is_restricted_host(url@)),
            r is Err ==> r->Err_0.kind == ErrorKind::BadRequest,
            r is Ok ==> {
                let s = r->Ok_0;
                &&& s.wf()
                &&& s.wants_hash() == hash
                &&& s.streamed() == Seq::<u8>::empty()
            },
    {
        match require_download_credential(url, has_credential) {
            Ok(()) => Ok(
                UploadSession {
                    storage_key: fresh_object_key(),
                    public_id: fresh_object_key(),
                    hash,
                    tee: Sha1Stream::new(),
                    streamed: Ghost(Seq::empty()),
                },
            ),
            Err(e) => Err(e),
        }
    }

    /// The key to write the object under.
    pub fn storage_key(&self) -> (key: &String)
        ensures
            key@ == self.spec_storage_key(),
    {
        &self.storage_key
    }

    /// The identifier the deployed URL will carry.
    pub fn public_id(&self) -> (id: &String)
        ensures
            id@ == self.spec_public_id(),
    {
        &self.public_id
    }

    /// Observes one chunk of the remote body.  The chunk is folded into
    /// the running digest (when one was requested) before the caller
    /// passes it on to the sink, so the digest reflects exactly the
    /// bytes written, in order.
    pub fn absorb(&mut self, chunk: &[u8])
        requires
            old(self).wf(),
            old(self).streamed().len() + chunk@.len() <= sha1_max_input_len(),
        ensures
            final(self).wf(),
            final(self).streamed() == old(self).streamed() + chunk@,
            final(self).wants_hash() == old(self).wants_hash(),
            final(self).spec_storage_key() == old(self).spec_storage_key(),
            final(self).spec_public_id() == old(self).spec_public_id(),
    {
        if self.hash {
            self.tee.update(chunk);
        }
        proof {
            self.streamed@ = self.streamed@ + chunk@;
        }
    }

    /// Finishes the session once the sink has consumed the whole
    /// stream and reported how many bytes it wrote.  The record's size
    /// is that reported count — never a length advertised by the remote
    /// server — and its digest, when one was requested, is the
    /// lowercase-hex SHA-1 of exactly the bytes streamed.
    pub fn complete(self, cdn_base: &str, written: usize) -> (res: UploadResult)
        requires
            self.wf(),
            self.streamed().len() <= sha1_max_input_len(),
        ensures
            res.size == written,
            res.deployed_url@ == spec_deployed_url(cdn_base@, self.spec_public_id()),
            res.file@ == self.spec_public_id(),
            res.sha is Some <==> self.wants_hash(),
            self.wants_hash() ==> res.sha->0@ == hex_of(sha1_of(self.streamed())),
    {
        let UploadSession { storage_key: _, public_id, hash, tee, streamed: _ } = self;
        let sha = if hash {
            let digest = tee.finish();
            Some(hex_encode(digest.as_slice()))
        } else {
            None
        };
        let deployed_url = compose_deployed_url(cdn_base, public_id.as_str());
        UploadResult { deployed_url, size: written, file: public_id, sha }
    }

    /// Finishes the session for the relational deployment: the record
    /// handed back to the caller, plus the metadata row to persist,
    /// associated with the authenticated owner.  The row carries both
    /// identities, the display filename derived from the source URL,
    /// and the same authoritative size and digest as the record.
    pub fn complete_record(
        self,
        cdn_base: &str,
        written: usize,
        source_url: &str,
        user_id: i32,
    ) -> (out: (UploadResult, FileRow))
        requires
            self.wf(),
            self.streamed().len() <= sha1_max_input_len(),
        ensures
            ({
                let (res, row) = out;
                &&& res.size == written
                &&& res.deployed_url@ == spec_deployed_url(cdn_base@, self.spec_public_id())
                &&& res.file@ == self.spec_public_id()
                &&& (res.sha is Some <==> self.wants_hash())
                &&& (self.wants_hash() ==> res.sha->0@ == hex_of(sha1_of(self.streamed())))
                &&& row.user_id == user_id
                &&& row.storage_key@ == self.spec_storage_key()
                &&& row.public_id@ == self.spec_public_id()
                &&& row.filename@ == spec_display_filename(source_url@)
                &&& row.size == written
                &&& row.url@ == res.deployed_url@
                &&& row.sha == res.sha
            }),
    {
        let storage_key = self.storage_key().clone();
        let public_id = self.public_id().clone();
        let result = self.complete(cdn_base, written);
        let sha = match &result.sha {
            Some(digest) => Some(digest.clone()),
            None => None,
        };
        let row = FileRow {
            user_id,
            storage_key,
            public_id,
            filename: derive_filename(source_url),
            size: result.size,
            url: result.deployed_url.clone(),
            sha,
        };
        (result, row)
    }
}

} // verus!
