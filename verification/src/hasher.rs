//! The hash state that schema items are folded into.
//!
//! A [`ChecksumHasher`] records the bytes written to it, in order, and hashes
//! them with SipHash-1-3 under the all-zero key when it is finished.

use siphasher::sip::SipHasher13;
use vstd::prelude::*;

verus! {

/// The eight bytes of `x`, least significant first.
pub open spec fn u64_le_bytes(x: u64) -> Seq<u8> {
    seq![
        (x & 0xff) as u8,
        ((x >> 8) & 0xff) as u8,
        ((x >> 16) & 0xff) as u8,
        ((x >> 24) & 0xff) as u8,
        ((x >> 32) & 0xff) as u8,
        ((x >> 40) & 0xff) as u8,
        ((x >> 48) & 0xff) as u8,
        ((x >> 56) & 0xff) as u8,
    ]
}

/// The SipHash-1-3 digest of `bytes` under the key `(0, 0)`.
pub uninterp spec fn siphash13(bytes: Seq<u8>) -> u64;

/// The low 16 bits of a digest.
pub open spec fn low_16_bits(hash: u64) -> u16 {
    (hash as int % 0x1_0000) as u16
}

/// The checksum that a canonical encoding stands for: the low 16 bits of its
/// SipHash-1-3 digest.
pub open spec fn checksum_of(bytes: Seq<u8>) -> u16 {
    low_16_bits(siphash13(bytes))
}

/// Hashes `bytes` with `siphasher::sip::SipHasher13::new().hash(..)`.
///
/// Trusted: the digest is a function of the bytes alone. `new` fixes both key
/// words to zero, and `hash` feeds the whole slice to a copy of that state and
/// finalizes it, so nothing but the slice's contents enters the result.
#[verifier::external_body]
fn siphash13_digest(bytes: &[u8]) -> (hash: u64)
    ensures
        hash == siphash13(bytes@),
{
    SipHasher13::new().hash(bytes)
}

/// Keeps the low 16 bits of a 64-bit digest.
pub fn truncate_digest(hash: u64) -> (sum: u16)
    ensures
        sum == low_16_bits(hash),
{
    assert(hash & 0xFFFF == hash % 0x1_0000) by (bit_vector);
    (hash & 0xFFFF) as u16
}

/// A hash state: the bytes written so far.
pub struct ChecksumHasher {
    bytes: Vec<u8>,
}

impl View for ChecksumHasher {
    type V = Seq<u8>;

    closed spec fn view(&self) -> Seq<u8> {
        self.bytes@
    }
}

impl ChecksumHasher {
    /// A state to which nothing has been written.
    pub fn new() -> (state: Self)
        ensures
            state@ == Seq::<u8>::empty(),
    {
        ChecksumHasher { bytes: Vec::new() }
    }

    /// Appends `bytes`.
    pub fn write(&mut self, bytes: &[u8])
        ensures
            final(self)@ == old(self)@ + bytes@,
    {
        self.bytes.extend_from_slice(bytes);
    }

    /// Appends one byte.
    pub fn write_u8(&mut self, byte: u8)
        ensures
            final(self)@ == old(self)@ + seq![byte],
    {
        self.bytes.push(byte);
        assert(self.bytes@ =~= old(self).bytes@ + seq![byte]);
    }

    /// Appends the eight bytes of `x`, least significant first.
    pub fn write_u64(&mut self, x: u64)
        ensures
            final(self)@ == old(self)@ + u64_le_bytes(x),
    {
        assert({
            &&& x & 0xff < 256
            &&& (x >> 8) & 0xff < 256
            &&& (x >> 16) & 0xff < 256
            &&& (x >> 24) & 0xff < 256
            &&& (x >> 32) & 0xff < 256
            &&& (x >> 40) & 0xff < 256
            &&& (x >> 48) & 0xff < 256
            &&& (x >> 56) & 0xff < 256
        }) by (bit_vector);
        self.bytes.push((x & 0xff) as u8);
        self.bytes.push(((x >> 8) & 0xff) as u8);
        self.bytes.push(((x >> 16) & 0xff) as u8);
        self.bytes.push(((x >> 24) & 0xff) as u8);
        self.bytes.push(((x >> 32) & 0xff) as u8);
        self.bytes.push(((x >> 40) & 0xff) as u8);
        self.bytes.push(((x >> 48) & 0xff) as u8);
        self.bytes.push(((x >> 56) & 0xff) as u8);
        assert(self.bytes@ =~= old(self).bytes@ + u64_le_bytes(x));
    }

    /// Appends a length as a 64-bit integer.
    pub fn write_len(&mut self, len: usize)
        ensures
            final(self)@ == old(self)@ + u64_le_bytes(len as u64),
    {
        self.write_u64(len as u64);
    }

    /// The bytes written so far.
    pub fn as_bytes(&self) -> (bytes: &[u8])
        ensures
            bytes@ == self@,
    {
        self.bytes.as_slice()
    }

    /// The SipHash-1-3 digest of everything written so far.
    pub fn finish(&self) -> (hash: u64)
        ensures
            hash == siphash13(self@),
    {
        siphash13_digest(self.bytes.as_slice())
    }
}

} // verus!
