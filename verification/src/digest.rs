//! The hashing tee: a streaming legacy SHA-1 digest.
//!
//! Hashing must cost O(1) extra memory, so the digest state is fed one
//! chunk at a time, in order, as the same chunks flow to the object
//! store; the hex digest is produced once, after the stream is drained.
//! The digest computation itself is the outside crate's; this module
//! tracks, as ghost state, exactly which bytes have been folded in, and
//! the final digest is pinned to that byte sequence by name.

use vstd::prelude::*;

verus! {

/// The SHA-1 digest (20 bytes) of a byte sequence, as computed by the
/// outside crate.  The digest is a function of the input bytes alone.
pub uninterp spec fn sha1_of(data: Seq<u8>) -> Seq<u8>;

/// The largest input ring's SHA-1 accepts: its bit count must fit in 64
/// bits, so one byte below 2^61 bytes.
pub open spec fn sha1_max_input_len() -> nat {
    0x1fff_ffff_ffff_ffff as nat
}

#[verifier::external_type_specification]
#[verifier::external_body]
pub struct ExDigestContext(ring::digest::Context);

/// Relies on ring::digest::Context::new with the legacy SHA-1
/// algorithm: a fresh digest state over no input.
#[verifier::external_body]
fn sha1_context_new() -> (ctx: ring::digest::Context) {
    ring::digest::Context::new(&ring::digest::SHA1_FOR_LEGACY_USE_ONLY)
}

/// A running SHA-1 digest over a stream of byte chunks.  `bytes_seen()`
/// is the exact concatenation, in order, of every chunk folded in so
/// far.
pub struct Sha1Stream {
    ctx: ring::digest::Context,
    processed: Ghost<Seq<u8>>,
}

impl Sha1Stream {
    /// A digest over the empty stream.
    pub fn new() -> (s: Sha1Stream)
        ensures
            s.bytes_seen() == Seq::<u8>::empty(),
    {
        Sha1Stream { ctx: sha1_context_new(), processed: Ghost(Seq::empty()) }
    }

    /// The bytes folded into the digest so far, in order.
    pub closed spec fn bytes_seen(&self) -> Seq<u8> {
        self.processed@
    }

    /// Folds one chunk into the running digest.
    ///
    /// Relies on ring::digest::Context::update: extends the digested
    /// input by exactly `chunk`, in order, and never fails.
    #[verifier::external_body]
    pub fn update(&mut self, chunk: &[u8])
        ensures
            final(self).bytes_seen() == old(self).bytes_seen() + chunk@,
    {
        self.ctx.update(chunk);
    }

    /// Finalizes the digest of everything folded in.
    ///
    /// Relies on ring::digest::Context::finish: returns the 20-byte
    /// SHA-1 digest of the bytes fed to update, a function of those
    /// bytes alone.  ring refuses an input whose bit count overflows 64
    /// bits, so such inputs are excluded here.
    #[verifier::external_body]
    pub fn finish(self) -> (digest: Vec<u8>)
        requires
            self.bytes_seen().len() <= sha1_max_input_len(),
        ensures
            digest@ == sha1_of(self.bytes_seen()),
            digest@.len() == 20,
    {
        self.ctx.finish().as_ref().to_vec()
    }
}

/// The sixteen lowercase hex digits, in value order.
pub open spec fn hex_digits() -> Seq<char> {
    seq!['0', '1', '2', '3', '4', '5', '6', '7', '8', '9', 'a', 'b', 'c', 'd', 'e', 'f']
}

/// The lowercase-hex encoding of a byte sequence: two digits per byte,
/// high nibble first.
pub open spec fn hex_of(data: Seq<u8>) -> Seq<char>
    decreases data.len(),
{
    if data.len() == 0 {
        Seq::empty()
    } else {
        seq![
            hex_digits()[data.first() as int / 16],
            hex_digits()[data.first() as int % 16],
        ] + hex_of(data.drop_first())
    }
}

/// Relies on hex::encode: lowercase hex, two digits per byte, high
/// nibble first.
#[verifier::external_body]
pub fn hex_encode(data: &[u8]) -> (encoded: String)
    ensures
        encoded@ == hex_of(data@),
{
    hex::encode(data)
}

} // verus!
