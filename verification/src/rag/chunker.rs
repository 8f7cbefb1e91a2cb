//! Cutting a text into overlapping chunks.
//!
//! Sizes are counted in bytes of the UTF-8 encoding. The first chunk starts
//! at the beginning; each further chunk starts `overlap` bytes before the
//! end of the one before it; the last chunk ends with the text.

use vstd::prelude::*;
use vstd::string::StringSliceAdditionalSpecFns;
use vstd::utf8::{
    encode_utf8, encode_utf8_valid_utf8, is_char_boundary,
    is_char_boundary_iff_not_is_continuation_byte, is_char_boundary_start_end_of_seq, valid_utf8,
    valid_utf8_split,
};

verus! {

/// The chunks of `bytes` from position `start` on. A chunk takes
/// `chunk_size` bytes, or what is left if that is less; the next chunk
/// starts `overlap` bytes before the end of this one.
pub open spec fn chunks_from(bytes: Seq<u8>, start: int, chunk_size: nat, overlap: nat) -> Seq<
    Seq<u8>,
>
    decreases bytes.len() - start,
{
    if start < 0 || start >= bytes.len() {
        Seq::empty()
    } else if bytes.len() - start <= chunk_size {
        seq![bytes.subrange(start, bytes.len() as int)]
    } else if overlap < chunk_size {
        seq![bytes.subrange(start, start + chunk_size)] + chunks_from(
            bytes,
            start + chunk_size - overlap,
            chunk_size,
            overlap,
        )
    } else {
        Seq::empty()
    }
}

/// Whether every chunk from position `start` on begins and ends between
/// two characters.
pub open spec fn cuts_fit(bytes: Seq<u8>, start: int, chunk_size: nat, overlap: nat) -> bool
    decreases bytes.len() - start,
{
    if start < 0 || start >= bytes.len() {
        true
    } else if bytes.len() - start <= chunk_size {
        is_char_boundary(bytes, start)
    } else if overlap < chunk_size {
        &&& is_char_boundary(bytes, start)
        &&& is_char_boundary(bytes, start + chunk_size)
        &&& cuts_fit(bytes, start + chunk_size - overlap, chunk_size, overlap)
    } else {
        true
    }
}

/// Whether the chunking ends: the text fits into one chunk, or each chunk
/// starts after the one before it.
pub open spec fn chunking_ends(len: nat, chunk_size: nat, overlap: nat) -> bool {
    len <= chunk_size || overlap < chunk_size
}

/// The texts of `chunks` as byte sequences.
pub open spec fn encoded(chunks: Seq<String>) -> Seq<Seq<u8>> {
    Seq::new(chunks.len(), |i: int| encode_utf8(chunks[i]@))
}

/// A position between two characters of a text stays one in the rest of
/// the text after an earlier such position.
proof fn lemma_boundary_in_tail(bytes: Seq<u8>, start: int, end: int)
    requires
        valid_utf8(bytes),
        0 <= start <= end <= bytes.len(),
        is_char_boundary(bytes, start),
        is_char_boundary(bytes, end),
    ensures
        valid_utf8(bytes.subrange(start, bytes.len() as int)),
        is_char_boundary(bytes.subrange(start, bytes.len() as int), end - start),
{
    let tail = bytes.subrange(start, bytes.len() as int);
    valid_utf8_split(bytes, start);
    if end == bytes.len() {
        is_char_boundary_start_end_of_seq(tail);
    } else {
        is_char_boundary_iff_not_is_continuation_byte(bytes, end);
        is_char_boundary_iff_not_is_continuation_byte(tail, end - start);
        assert(tail[end - start] == bytes[end]);
    }
}

/// Cuts a text into chunks, checking as it goes. Yields nothing if the
/// chunking would not end or if a cut would fall inside a character.
pub fn try_chunk_text(content: &str, chunk_size: usize, overlap: usize) -> (chunks: Option<
    Vec<String>,
>)
    ensures
        chunks is Some == (chunking_ends(
            content.spec_bytes().len(),
            chunk_size as nat,
            overlap as nat,
        ) && cuts_fit(content.spec_bytes(), 0, chunk_size as nat, overlap as nat)),
        chunks matches Some(list) ==> encoded(list@) == chunks_from(
            content.spec_bytes(),
            0,
            chunk_size as nat,
            overlap as nat,
        ),
{
    let len = content.as_bytes().len();
    let ghost bytes = content.spec_bytes();
    proof {
        encode_utf8_valid_utf8(content@);
    }
    if len > chunk_size && overlap >= chunk_size {
        return None;
    }
    let mut list: Vec<String> = Vec::new();
    let mut start: usize = 0;
    assert(encoded(list@) =~= Seq::<Seq<u8>>::empty());
    while start < len
        invariant
            bytes == content.spec_bytes(),
            valid_utf8(bytes),
            len == bytes.len(),
            chunking_ends(len as nat, chunk_size as nat, overlap as nat),
            start <= len,
            cuts_fit(bytes, 0, chunk_size as nat, overlap as nat) == cuts_fit(
                bytes,
                start as int,
                chunk_size as nat,
                overlap as nat,
            ),
            encoded(list@) + chunks_from(bytes, start as int, chunk_size as nat, overlap as nat)
                == chunks_from(bytes, 0, chunk_size as nat, overlap as nat),
        decreases len - start,
    {
        let last = len - start <= chunk_size;
        let end: usize = if last {
            len
        } else {
            start + chunk_size
        };
        if !content.is_char_boundary(start) || !content.is_char_boundary(end) {
            proof {
                if last {
                    is_char_boundary_start_end_of_seq(bytes);
                }
            }
            return None;
        }
        proof {
            lemma_boundary_in_tail(bytes, start as int, end as int);
        }
        let (_, tail) = content.split_at(start);
        let (piece, _) = tail.split_at(end - start);
        let chunk = piece.to_owned();
        proof {
            assert(piece.spec_bytes() =~= bytes.subrange(start as int, end as int));
            assert(encode_utf8(chunk@) == piece.spec_bytes());
        }
        let ghost before = encoded(list@);
        list.push(chunk);
        assert(encoded(list@) =~= before + seq![bytes.subrange(start as int, end as int)]);
        if last {
            assert(encoded(list@) =~= chunks_from(bytes, 0, chunk_size as nat, overlap as nat));
            proof {
                assert(cuts_fit(bytes, len as int, chunk_size as nat, overlap as nat));
            }
            return Some(list);
        }
        assert(before + (seq![bytes.subrange(start as int, end as int)] + chunks_from(
            bytes,
            end - overlap,
            chunk_size as nat,
            overlap as nat,
        )) =~= encoded(list@) + chunks_from(
            bytes,
            end - overlap,
            chunk_size as nat,
            overlap as nat,
        ));
        start = end - overlap;
    }
    Some(list)
}

/// Cuts a text into chunks of `chunk_size` bytes, each starting `overlap`
/// bytes before the end of the one before it.
pub fn chunk_text(content: &str, chunk_size: usize, overlap: usize) -> (chunks: Vec<String>)
    requires
        chunking_ends(content.spec_bytes().len(), chunk_size as nat, overlap as nat),
        cuts_fit(content.spec_bytes(), 0, chunk_size as nat, overlap as nat),
    ensures
        encoded(chunks@) == chunks_from(
            content.spec_bytes(),
            0,
            chunk_size as nat,
            overlap as nat,
        ),
{
    match try_chunk_text(content, chunk_size, overlap) {
        Some(list) => list,
        None => Vec::new(),
    }
}

} // verus!
