//! The fixed binary codec of the metadata store.
//!
//! Aggregate counters are stored as fixed-width records: exactly eight
//! bytes, the counter value in little-endian order.  A stored file's
//! metadata record is a flat length-prefixed encoding of its fields.
//! Nothing here is variable-width or self-describing: a reader that
//! knows the layout recovers every field exactly.

use vstd::bytes::spec_u64_from_le_bytes;
use vstd::bytes::spec_u64_to_le_bytes;
use vstd::bytes::u64_from_le_bytes;
use vstd::bytes::u64_to_le_bytes;
use vstd::prelude::*;
use vstd::slice::slice_index_get;
use vstd::slice::slice_subrange;
use vstd::slice::slice_to_vec;

verus! {

/// The stored form of one aggregate counter: eight bytes,
/// little-endian.
pub open spec fn spec_counter_bytes(n: u64) -> Seq<u8> {
    spec_u64_to_le_bytes(n)
}

/// Encodes a counter value as its fixed-width record.
pub fn encode_counter(n: u64) -> (out: Vec<u8>)
    ensures
        out@ == spec_counter_bytes(n),
        out@.len() == 8,
{
    u64_to_le_bytes(n)
}

/// Decodes a counter record.  Exactly the eight-byte records decode;
/// the value is the little-endian reading of the bytes.
pub fn decode_counter(bytes: &[u8]) -> (r: Option<u64>)
    ensures
        r is Some <==> bytes@.len() == 8,
        r is Some ==> r->0 == spec_u64_from_le_bytes(bytes@),
{
    if bytes.len() == 8 {
        Some(u64_from_le_bytes(bytes))
    } else {
        None
    }
}

/// Encoding then decoding a counter value gives the value back.
pub proof fn lemma_counter_roundtrip(n: u64)
    ensures
        spec_counter_bytes(n).len() == 8,
        spec_u64_from_le_bytes(spec_counter_bytes(n)) == n,
{
    vstd::bytes::lemma_auto_spec_u64_to_from_le_bytes();
}

/// The stored form of one file's metadata record: every byte field is
/// prefixed with its length as a little-endian u64, the size stands on
/// its own, and the optional digest is tagged with one flag byte.
pub open spec fn spec_record_bytes(
    url: Seq<u8>,
    size: u64,
    file: Seq<u8>,
    sha: Option<Seq<u8>>,
) -> Seq<u8> {
    spec_u64_to_le_bytes(url.len() as u64) + url + spec_u64_to_le_bytes(size)
        + spec_u64_to_le_bytes(file.len() as u64) + file + match sha {
        Option::None => seq![0u8],
        Option::Some(digest) => seq![1u8] + spec_u64_to_le_bytes(digest.len() as u64) + digest,
    }
}

/// Where each piece of a record encoding sits: the layout is rigid, so
/// every field is a fixed arithmetic offset from the field lengths.
proof fn lemma_record_layout(bytes: Seq<u8>, url: Seq<u8>, size: u64, file: Seq<u8>, sha: Option<
    Seq<u8>,
>)
    requires
        bytes == spec_record_bytes(url, size, file, sha),
    ensures
        ({
            let u = url.len() as int;
            let f = file.len() as int;
            &&& bytes.len() == 25 + u + f + (match sha {
                Option::None => 0int,
                Option::Some(digest) => 8 + digest.len() as int,
            })
            &&& bytes.subrange(0, 8) == spec_u64_to_le_bytes(url.len() as u64)
            &&& bytes.subrange(8, 8 + u) == url
            &&& bytes.subrange(8 + u, 16 + u) == spec_u64_to_le_bytes(size)
            &&& bytes.subrange(16 + u, 24 + u) == spec_u64_to_le_bytes(file.len() as u64)
            &&& bytes.subrange(24 + u, 24 + u + f) == file
            &&& bytes[24 + u + f] == (if sha is Some {
                1u8
            } else {
                0u8
            })
            &&& (sha is Some ==> bytes.subrange(25 + u + f, 33 + u + f) == spec_u64_to_le_bytes(
                sha->0.len() as u64,
            ))
            &&& (sha is Some ==> bytes.subrange(33 + u + f, bytes.len() as int) == sha->0)
        }),
{
    vstd::bytes::lemma_auto_spec_u64_to_from_le_bytes();
    let u = url.len() as int;
    let f = file.len() as int;
    assert(bytes.subrange(0, 8) =~= spec_u64_to_le_bytes(url.len() as u64));
    assert(bytes.subrange(8, 8 + u) =~= url);
    assert(bytes.subrange(8 + u, 16 + u) =~= spec_u64_to_le_bytes(size));
    assert(bytes.subrange(16 + u, 24 + u) =~= spec_u64_to_le_bytes(file.len() as u64));
    assert(bytes.subrange(24 + u, 24 + u + f) =~= file);
    match sha {
        Option::None => {},
        Option::Some(digest) => {
            assert(bytes.subrange(25 + u + f, 33 + u + f) =~= spec_u64_to_le_bytes(
                digest.len() as u64,
            ));
            assert(bytes.subrange(33 + u + f, bytes.len() as int) =~= digest);
        },
    }
}

/// Appends a byte slice to a buffer.
fn push_bytes(out: &mut Vec<u8>, data: &[u8])
    ensures
        final(out)@ == old(out)@ + data@,
{
    let mut i: usize = 0;
    while i < data.len()
        invariant
            i <= data@.len(),
            out@ == old(out)@ + data@.subrange(0, i as int),
        decreases data@.len() - i,
    {
        out.push(data[i]);
        proof {
            assert(old(out)@ + data@.subrange(0, i as int) + seq![data@[i as int]] =~= old(out)@
                + data@.subrange(0, i + 1));
        }
        i += 1;
    }
    proof {
        assert(data@.subrange(0, data@.len() as int) =~= data@);
    }
}

/// The fields of one file's metadata record, as stored: the deployed
/// URL and identifier as raw bytes, the authoritative size, and the
/// optional hex digest bytes.
#[derive(Debug, PartialEq)]
pub struct RecordFields {
    pub url: Vec<u8>,
    pub size: u64,
    pub file: Vec<u8>,
    pub sha: Option<Vec<u8>>,
}

impl RecordFields {
    /// The encoding these fields produce.
    pub open spec fn encoding(&self) -> Seq<u8> {
        spec_record_bytes(
            self.url@,
            self.size,
            self.file@,
            match self.sha {
                Option::None => None,
                Option::Some(digest) => Some(digest@),
            },
        )
    }
}

/// `bytes` is the encoding of some record.
pub open spec fn is_record_encoding(bytes: Seq<u8>) -> bool {
    exists|url: Seq<u8>, size: u64, file: Seq<u8>, sha: Option<Seq<u8>>|
        {
            &&& url.len() <= usize::MAX
            &&& file.len() <= usize::MAX
            &&& (sha is Some ==> sha->0.len() <= usize::MAX)
            &&& bytes == #[trigger] spec_record_bytes(url, size, file, sha)
        }
}

/// Encodes one file's metadata record.
pub fn encode_record(fields: &RecordFields) -> (out: Vec<u8>)
    ensures
        out@ == fields.encoding(),
{
    let mut out: Vec<u8> = Vec::new();

    let mut piece = u64_to_le_bytes(fields.url.len() as u64);
    out.append(&mut piece);
    push_bytes(&mut out, fields.url.as_slice());

    let mut piece = u64_to_le_bytes(fields.size);
    out.append(&mut piece);

    let mut piece = u64_to_le_bytes(fields.file.len() as u64);
    out.append(&mut piece);
    push_bytes(&mut out, fields.file.as_slice());

    match &fields.sha {
        None => {
            out.push(0u8);
            proof {
                assert(out@ =~= fields.encoding());
            }
        },
        Some(digest) => {
            out.push(1u8);
            let mut piece = u64_to_le_bytes(digest.len() as u64);
            out.append(&mut piece);
            push_bytes(&mut out, digest.as_slice());
            proof {
                assert(out@ =~= fields.encoding());
            }
        },
    }
    out
}

/// Everything the shape of an encoding forces on its raw bytes: the
/// facts the decoder's bound checks test, each read off the layout.
proof fn lemma_encoding_facts(bytes: Seq<u8>)
    ensures
        is_record_encoding(bytes) ==> ({
            let u = spec_u64_from_le_bytes(bytes.subrange(0, 8)) as int;
            let f = spec_u64_from_le_bytes(bytes.subrange(16 + u, 24 + u)) as int;
            &&& bytes.len() >= 25
            &&& spec_u64_from_le_bytes(bytes.subrange(0, 8)) <= usize::MAX
            &&& bytes.len() >= 25 + u
            &&& spec_u64_from_le_bytes(bytes.subrange(16 + u, 24 + u)) <= usize::MAX
            &&& bytes.len() >= 25 + u + f
            &&& (bytes[24 + u + f] == 0 || bytes[24 + u + f] == 1)
            &&& (bytes[24 + u + f] == 0 ==> bytes.len() == 25 + u + f)
            &&& (bytes[24 + u + f] == 1 ==> bytes.len() >= 33 + u + f && ({
                let d = spec_u64_from_le_bytes(bytes.subrange(25 + u + f, 33 + u + f)) as int;
                &&& spec_u64_from_le_bytes(bytes.subrange(25 + u + f, 33 + u + f)) <= usize::MAX
                &&& bytes.len() == 33 + u + f + d
            }))
        }),
{
    if is_record_encoding(bytes) {
        let (url, size, file, sha): (Seq<u8>, u64, Seq<u8>, Option<Seq<u8>>) = choose|
            url: Seq<u8>,
            size: u64,
            file: Seq<u8>,
            sha: Option<Seq<u8>>,
        |
            {
                &&& url.len() <= usize::MAX
                &&& file.len() <= usize::MAX
                &&& (sha is Some ==> sha->0.len() <= usize::MAX)
                &&& bytes == #[trigger] spec_record_bytes(url, size, file, sha)
            };
        lemma_record_layout(bytes, url, size, file, sha);
        vstd::bytes::lemma_auto_spec_u64_to_from_le_bytes();
        assert(spec_u64_from_le_bytes(bytes.subrange(0, 8)) == url.len() as u64);
        let u = url.len() as int;
        assert(spec_u64_from_le_bytes(bytes.subrange(16 + u, 24 + u)) == file.len() as u64);
        let f = file.len() as int;
        if sha is Some {
            assert(spec_u64_from_le_bytes(bytes.subrange(25 + u + f, 33 + u + f)) == sha->0.len()
                as u64);
        }
    }
}

/// Decodes a metadata record.  Exactly the byte strings the encoder
/// can produce decode, and decoding recovers the encoded fields: the
/// codec is a bijection between records and their encodings.
pub fn decode_record(bytes: &[u8]) -> (r: Option<RecordFields>)
    ensures
        r is Some <==> is_record_encoding(bytes@),
        r is Some ==> r->0.encoding() == bytes@,
{
    proof {
        lemma_encoding_facts(bytes@);
    }
    let n: usize = bytes.len();
    if n < 8 {
        return None;
    }
    let url_len_word = u64_from_le_bytes(slice_subrange(bytes, 0, 8));
    if url_len_word > usize::MAX as u64 {
        return None;
    }
    let url_len = url_len_word as usize;
    if url_len > n - 8 || n - 8 - url_len < 17 {
        return None;
    }
    let url = slice_to_vec(slice_subrange(bytes, 8, 8 + url_len));

    let size = u64_from_le_bytes(slice_subrange(bytes, 8 + url_len, 16 + url_len));

    let file_len_word = u64_from_le_bytes(slice_subrange(bytes, 16 + url_len, 24 + url_len));
    if file_len_word > usize::MAX as u64 {
        return None;
    }
    let file_len = file_len_word as usize;
    if file_len > n - 25 - url_len {
        return None;
    }
    let file = slice_to_vec(slice_subrange(bytes, 24 + url_len, 24 + url_len + file_len));

    let flag_at = 24 + url_len + file_len;
    let flag = *slice_index_get(bytes, flag_at);
    if flag == 0 {
        if n != flag_at + 1 {
            return None;
        }
        let fields = RecordFields { url, size, file, sha: None };
        proof {
            let u = url_len as int;
            let f = file_len as int;
            assert(bytes@ =~= bytes@.subrange(0, 8) + bytes@.subrange(8, 8 + u) + bytes@.subrange(
                8 + u,
                16 + u,
            ) + bytes@.subrange(16 + u, 24 + u) + bytes@.subrange(24 + u, 24 + u + f)
                + bytes@.subrange(24 + u + f, n as int));
            assert(bytes@.subrange(24 + u + f, n as int) =~= seq![0u8]);
            vstd::bytes::lemma_auto_spec_u64_to_from_le_bytes();
            assert(fields.url@.len() as u64 == url_len_word);
            assert(spec_u64_to_le_bytes(fields.url@.len() as u64) == bytes@.subrange(0, 8));
            assert(spec_u64_to_le_bytes(size) == bytes@.subrange(8 + u, 16 + u));
            assert(fields.file@.len() as u64 == file_len_word);
            assert(spec_u64_to_le_bytes(fields.file@.len() as u64) == bytes@.subrange(
                16 + u,
                24 + u,
            ));
            assert(fields.encoding() == bytes@);
        }
        Some(fields)
    } else if flag == 1 {
        if n - flag_at - 1 < 8 {
            return None;
        }
        let sha_len_word = u64_from_le_bytes(slice_subrange(bytes, flag_at + 1, flag_at + 9));
        if sha_len_word > usize::MAX as u64 {
            return None;
        }
        let sha_len = sha_len_word as usize;
        if sha_len != n - flag_at - 9 {
            return None;
        }
        let sha = slice_to_vec(slice_subrange(bytes, flag_at + 9, flag_at + 9 + sha_len));
        let fields = RecordFields { url, size, file, sha: Some(sha) };
        proof {
            let u = url_len as int;
            let f = file_len as int;
            assert(bytes@ =~= bytes@.subrange(0, 8) + bytes@.subrange(8, 8 + u) + bytes@.subrange(
                8 + u,
                16 + u,
            ) + bytes@.subrange(16 + u, 24 + u) + bytes@.subrange(24 + u, 24 + u + f) + seq![1u8]
                + bytes@.subrange(25 + u + f, 33 + u + f) + bytes@.subrange(
                33 + u + f,
                n as int,
            ));
            vstd::bytes::lemma_auto_spec_u64_to_from_le_bytes();
            assert(fields.url@.len() as u64 == url_len_word);
            assert(spec_u64_to_le_bytes(fields.url@.len() as u64) == bytes@.subrange(0, 8));
            assert(spec_u64_to_le_bytes(size) == bytes@.subrange(8 + u, 16 + u));
            assert(fields.file@.len() as u64 == file_len_word);
            assert(spec_u64_to_le_bytes(fields.file@.len() as u64) == bytes@.subrange(
                16 + u,
                24 + u,
            ));
            assert(fields.sha->0@.len() as u64 == sha_len_word);
            assert(spec_u64_to_le_bytes(fields.sha->0@.len() as u64) == bytes@.subrange(
                25 + u + f,
                33 + u + f,
            ));
            assert(fields.encoding() == bytes@);
        }
        Some(fields)
    } else {
        None
    }
}

/// The record codec never encodes two different records alike: every
/// field of a record can be read back off its encoding.
pub proof fn lemma_record_encoding_injective(a: RecordFields, b: RecordFields)
    requires
        a.encoding() == b.encoding(),
    ensures
        a.url@ == b.url@,
        a.size == b.size,
        a.file@ == b.file@,
        a.sha is Some <==> b.sha is Some,
        a.sha is Some ==> a.sha->0@ == b.sha->0@,
{
    let bytes = a.encoding();
    let sha_a = match a.sha {
        Option::None => None,
        Option::Some(digest) => Some(digest@),
    };
    let sha_b = match b.sha {
        Option::None => None,
        Option::Some(digest) => Some(digest@),
    };
    lemma_record_layout(bytes, a.url@, a.size, a.file@, sha_a);
    lemma_record_layout(bytes, b.url@, b.size, b.file@, sha_b);
    vstd::bytes::lemma_auto_spec_u64_to_from_le_bytes();
    assert(a.url.len() == a.url@.len());
    assert(b.url.len() == b.url@.len());
    assert(a.file.len() == a.file@.len());
    assert(b.file.len() == b.file@.len());
    assert(a.url@.len() as u64 == b.url@.len() as u64) by {
        assert(spec_u64_from_le_bytes(bytes.subrange(0, 8)) == a.url@.len() as u64);
        assert(spec_u64_from_le_bytes(bytes.subrange(0, 8)) == b.url@.len() as u64);
    }
    assert(a.url@.len() == b.url@.len());
    let u = a.url@.len() as int;
    assert(a.url@ == bytes.subrange(8, 8 + u));
    assert(a.size == b.size) by {
        assert(spec_u64_from_le_bytes(bytes.subrange(8 + u, 16 + u)) == a.size);
        assert(spec_u64_from_le_bytes(bytes.subrange(8 + u, 16 + u)) == b.size);
    }
    assert(a.file@.len() as u64 == b.file@.len() as u64) by {
        assert(spec_u64_from_le_bytes(bytes.subrange(16 + u, 24 + u)) == a.file@.len() as u64);
        assert(spec_u64_from_le_bytes(bytes.subrange(16 + u, 24 + u)) == b.file@.len() as u64);
    }
    assert(a.file@.len() == b.file@.len());
    let f = a.file@.len() as int;
    assert(a.file@ == bytes.subrange(24 + u, 24 + u + f));
    assert(sha_a is Some <==> sha_b is Some) by {
        assert(bytes[24 + u + f] == (if sha_a is Some {
            1u8
        } else {
            0u8
        }));
        assert(bytes[24 + u + f] == (if sha_b is Some {
            1u8
        } else {
            0u8
        }));
    }
    if sha_a is Some {
        assert(sha_a->0 == bytes.subrange(33 + u + f, bytes.len() as int));
        assert(sha_b->0 == bytes.subrange(33 + u + f, bytes.len() as int));
    }
}

} // verus!
