use vstd::prelude::*;
use vstd::string::StrSliceExecFns;
use vstd::utf8::encode_utf8;

use crate::address::Address;
use crate::error::NoteError;

verus! {

/// The Keccak-256 digest of a byte string (32 bytes).
pub uninterp spec fn keccak256(data: Seq<u8>) -> Seq<u8>;

/// Relies on solana_program::keccak::hashv: the slices are fed to one
/// Keccak-256 hasher in order, so the digest is that of their concatenation.
#[verifier::external_body]
fn keccak_hashv(a: &[u8], b: &[u8]) -> (r: [u8; 32])
    ensures
        r@ == keccak256(a@ + b@),
{
    anchor_lang::solana_program::keccak::hashv(&[a, b]).to_bytes()
}

/// The UTF-8 bytes of a text.
pub open spec fn text_bytes(s: Seq<char>) -> Seq<u8> {
    encode_utf8(s)
}

/// The bytes that a leaf is the digest of: the note text, then the sender.
/// The sender always has 32 bytes, so no separator is needed.
pub open spec fn leaf_preimage(content: Seq<u8>, sender: Seq<u8>) -> Seq<u8> {
    content + sender
}

/// The leaf value of a note written by `sender`.
pub open spec fn leaf_of(content: Seq<u8>, sender: Seq<u8>) -> Seq<u8> {
    keccak256(leaf_preimage(content, sender))
}

/// Hashes the note text followed by the sender's identity into a leaf.
pub fn encode_leaf(content: &str, sender: &Address) -> (r: [u8; 32])
    ensures
        r@ == leaf_of(text_bytes(content@), sender@),
{
    let bytes = content.as_bytes_vec();
    keccak_hashv(bytes.as_slice(), sender.bytes.as_slice())
}

} // verus!

verus! {

/// The log record mirrored to the side-log for every leaf written.
#[derive(Clone, Debug)]
pub struct NoteLog {
    /// The leaf value of the note.
    pub leaf_node: [u8; 32],
    /// The note's owner, its sender.
    pub owner: Address,
    /// The note text.
    pub note: String,
}

/// Builds the log record of a note.
pub fn create_note_log(leaf_node: [u8; 32], owner: Address, note: String) -> (r: NoteLog)
    ensures
        r.leaf_node == leaf_node,
        r.owner == owner,
        r.note@ == note@,
{
    NoteLog { leaf_node, owner, note }
}

/// The four little-endian bytes of `n`.
pub open spec fn u32_le(n: nat) -> Seq<u8> {
    seq![
        (n % 256) as u8,
        (n / 256 % 256) as u8,
        (n / 65536 % 256) as u8,
        (n / 16777216 % 256) as u8,
    ]
}

/// The wire form of a log record: the leaf, the owner, the byte length of
/// the text as four little-endian bytes, then the text's bytes.
pub open spec fn note_log_bytes(leaf: Seq<u8>, owner: Seq<u8>, note: Seq<u8>) -> Seq<u8> {
    leaf + owner + u32_le(note.len()) + note
}

/// Whether a text of this many bytes fits in a log record.
pub open spec fn note_fits(len: nat) -> bool {
    len <= u32::MAX
}

fn push_all(out: &mut Vec<u8>, src: &[u8])
    ensures
        final(out)@ == old(out)@ + src@,
{
    let mut i: usize = 0;
    while i < src.len()
        invariant
            i <= src@.len(),
            out@ == old(out)@ + src@.subrange(0, i as int),
        decreases src@.len() - i,
    {
        out.push(src[i]);
        i = i + 1;
        assert(out@ =~= old(out)@ + src@.subrange(0, i as int));
    }
    assert(src@.subrange(0, i as int) =~= src@);
}

impl NoteLog {
    /// The record's wire bytes; fails when the text is too long for the
    /// four-byte length prefix.
    pub fn to_bytes(&self) -> (r: Result<Vec<u8>, NoteError>)
        ensures
            note_fits(text_bytes(self.note@).len()) <==> r is Ok,
            match r {
                Ok(v) => v@ == note_log_bytes(self.leaf_node@, self.owner@, text_bytes(self.note@)),
                Err(e) => e == NoteError::NoteTooLong && !note_fits(text_bytes(self.note@).len()),
            },
    {
        let text = self.note.as_str().as_bytes_vec();
        if text.len() > 0xffff_ffffusize {
            return Err(NoteError::NoteTooLong);
        }
        let n: u32 = text.len() as u32;
        let mut out: Vec<u8> = Vec::new();
        push_all(&mut out, self.leaf_node.as_slice());
        push_all(&mut out, self.owner.bytes.as_slice());
        out.push((n % 256) as u8);
        out.push((n / 256 % 256) as u8);
        out.push((n / 65536 % 256) as u8);
        out.push((n / 16777216 % 256) as u8);
        push_all(&mut out, text.as_slice());
        assert(out@ =~= note_log_bytes(self.leaf_node@, self.owner@, text_bytes(self.note@)));
        Ok(out)
    }
}

} // verus!

verus! {

/// Whether two texts are the same, compared by their UTF-8 bytes.
pub fn same_text(a: &str, b: &str) -> (r: bool)
    ensures
        r == (a@ == b@),
{
    let x = a.as_bytes_vec();
    let y = b.as_bytes_vec();
    proof {
        vstd::utf8::encode_utf8_decode_utf8(a@);
        vstd::utf8::encode_utf8_decode_utf8(b@);
    }
    assert(x@ == text_bytes(a@));
    assert(y@ == text_bytes(b@));
    if x.len() != y.len() {
        return false;
    }
    let mut i: usize = 0;
    while i < x.len()
        invariant
            x@.len() == y@.len(),
            x@ == text_bytes(a@),
            y@ == text_bytes(b@),
            i <= x@.len(),
            forall|j: int| 0 <= j < i ==> x@[j] == y@[j],
        decreases x@.len() - i,
    {
        if x[i] != y[i] {
            assert(x@[i as int] != y@[i as int]);
            return false;
        }
        i = i + 1;
    }
    assert(x@ =~= y@);
    assert(vstd::utf8::decode_utf8(x@) == vstd::utf8::decode_utf8(y@));
    true
}

} // verus!
