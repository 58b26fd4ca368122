//! Values of fixed layout, as the audio HAL sees them in memory.
//!
//! The HAL hands properties over as untyped memory: an address and a number of
//! bytes. A [`PropertyValue`] says how many bytes a value takes, how its address
//! must be aligned, and which bytes stand for which value. Integers are laid out
//! little-endian, the byte order of every machine that runs the audio server.
use vstd::bytes::*;
use vstd::prelude::*;
use vstd::slice::*;

verus! {

/// A value with a fixed size, a natural alignment and an exact byte encoding.
///
/// An implementation has three things to prove: the bounds of its layout, and
/// that encoding and decoding undo each other in both directions. They are
/// the whole of what the property containers rely on.
pub trait PropertyValue: Sized {
    /// The number of bytes that a value occupies.
    spec fn spec_size() -> nat;

    /// The alignment that an address of a value must have.
    spec fn spec_align() -> nat;

    /// The bytes that stand for the value.
    spec fn spec_encode(&self) -> Seq<u8>;

    /// The value that the bytes stand for.
    spec fn spec_decode(bytes: Seq<u8>) -> Self;

    /// The size is at least one byte and fits in 32 bits, and the alignment is
    /// not zero.
    proof fn layout_bounds()
        ensures
            1 <= Self::spec_size() <= u32::MAX,
            1 <= Self::spec_align() <= usize::MAX,
    ;

    /// A value's encoding has exactly the size, and decodes to the value.
    proof fn decode_of_encode(&self)
        ensures
            self.spec_encode().len() == Self::spec_size(),
            Self::spec_decode(self.spec_encode()) == *self,
    ;

    /// Bytes of the right number encode the value that they decode to.
    proof fn encode_of_decode(bytes: Seq<u8>)
        requires
            bytes.len() == Self::spec_size(),
        ensures
            Self::spec_decode(bytes).spec_encode() == bytes,
    ;

    fn size() -> (size: u32)
        ensures
            size == Self::spec_size(),
    ;

    fn align() -> (align: usize)
        ensures
            align == Self::spec_align(),
    ;

    /// Writes the value's bytes into `dst`, starting at index `at`.
    fn encode(&self, dst: &mut [u8], at: usize)
        requires
            at + Self::spec_size() <= old(dst)@.len(),
        ensures
            final(dst)@ == splice(old(dst)@, at as int, self.spec_encode()),
    ;

    /// Reads a value from the bytes of `src` that start at index `at`.
    fn decode(src: &[u8], at: usize) -> (value: Self)
        requires
            at + Self::spec_size() <= src@.len(),
        ensures
            value == Self::spec_decode(src@.subrange(at as int, at + Self::spec_size())),
    ;
}

/// `base` with the elements from index `at` on overwritten by those of `patch`.
pub open spec fn splice(base: Seq<u8>, at: int, patch: Seq<u8>) -> Seq<u8> {
    base.take(at) + patch + base.skip(at + patch.len())
}

/// Copies `src` over the bytes of `dst` that start at index `at`.
pub fn write_at(dst: &mut [u8], at: usize, src: &[u8])
    requires
        at + src@.len() <= old(dst)@.len(),
    ensures
        final(dst)@ == splice(old(dst)@, at as int, src@),
{
    let count = src.len();
    let room = dst.len();
    let mut i: usize = 0;
    while i < count
        invariant
            i <= count,
            room == dst@.len(),
            count == src@.len(),
            at + count <= dst@.len(),
            dst@.len() == old(dst)@.len(),
            dst@ == splice(old(dst)@, at as int, src@.take(i as int)),
        decreases count - i,
    {
        let ghost before = dst@;
        dst[at + i] = src[i];
        assert(dst@ == splice(old(dst)@, at as int, src@.take(i + 1))) by {
            let after = splice(old(dst)@, at as int, src@.take(i + 1));
            assert(dst@.len() == after.len());
            assert forall|k: int| 0 <= k < dst@.len() implies dst@[k] == after[k] by {
                if k != at + i {
                    assert(dst@[k] == before[k]);
                }
            }
        }
        i = i + 1;
    }
    assert(src@.take(count as int) == src@);
}

impl PropertyValue for u8 {
    open spec fn spec_size() -> nat {
        1
    }

    open spec fn spec_align() -> nat {
        1
    }

    open spec fn spec_encode(&self) -> Seq<u8> {
        seq![*self]
    }

    open spec fn spec_decode(bytes: Seq<u8>) -> Self {
        bytes[0]
    }

    proof fn layout_bounds() {
    }

    proof fn decode_of_encode(&self) {
    }

    proof fn encode_of_decode(bytes: Seq<u8>) {
        assert(seq![bytes[0]] =~= bytes);
    }

    fn size() -> (size: u32) {
        1
    }

    fn align() -> (align: usize) {
        1
    }

    fn encode(&self, dst: &mut [u8], at: usize) {
        let ghost before = dst@;
        dst[at] = *self;
        assert(dst@ =~= splice(before, at as int, seq![*self]));
    }

    fn decode(src: &[u8], at: usize) -> (value: Self) {
        src[at]
    }
}

impl PropertyValue for u16 {
    open spec fn spec_size() -> nat {
        2
    }

    open spec fn spec_align() -> nat {
        2
    }

    open spec fn spec_encode(&self) -> Seq<u8> {
        spec_u16_to_le_bytes(*self)
    }

    open spec fn spec_decode(bytes: Seq<u8>) -> Self {
        spec_u16_from_le_bytes(bytes)
    }

    proof fn layout_bounds() {
    }

    proof fn decode_of_encode(&self) {
        lemma_auto_spec_u16_to_from_le_bytes();
        assert(spec_u16_to_le_bytes(*self).len() == 2);
    }

    proof fn encode_of_decode(bytes: Seq<u8>) {
        lemma_auto_spec_u16_to_from_le_bytes();
    }

    fn size() -> (size: u32) {
        2
    }

    fn align() -> (align: usize) {
        2
    }

    fn encode(&self, dst: &mut [u8], at: usize) {
        let bytes = u16_to_le_bytes(*self);
        assert(bytes@.len() == 2 && <u16 as PropertyValue>::spec_size() == 2);
        assert(bytes@ == self.spec_encode());
        write_at(dst, at, bytes.as_slice());
        assert(dst@ == splice(old(dst)@, at as int, bytes@));
    }

    fn decode(src: &[u8], at: usize) -> (value: Self) {
        // A slice is no longer than `usize::MAX`, so the end below cannot overflow.
        let _len = src.len();
        u16_from_le_bytes(slice_subrange(src, at, at + 2))
    }
}

impl PropertyValue for u32 {
    open spec fn spec_size() -> nat {
        4
    }

    open spec fn spec_align() -> nat {
        4
    }

    open spec fn spec_encode(&self) -> Seq<u8> {
        spec_u32_to_le_bytes(*self)
    }

    open spec fn spec_decode(bytes: Seq<u8>) -> Self {
        spec_u32_from_le_bytes(bytes)
    }

    proof fn layout_bounds() {
    }

    proof fn decode_of_encode(&self) {
        lemma_auto_spec_u32_to_from_le_bytes();
        assert(spec_u32_to_le_bytes(*self).len() == 4);
    }

    proof fn encode_of_decode(bytes: Seq<u8>) {
        lemma_auto_spec_u32_to_from_le_bytes();
    }

    fn size() -> (size: u32) {
        4
    }

    fn align() -> (align: usize) {
        4
    }

    fn encode(&self, dst: &mut [u8], at: usize) {
        let bytes = u32_to_le_bytes(*self);
        assert(bytes@.len() == 4 && <u32 as PropertyValue>::spec_size() == 4);
        assert(bytes@ == self.spec_encode());
        write_at(dst, at, bytes.as_slice());
        assert(dst@ == splice(old(dst)@, at as int, bytes@));
    }

    fn decode(src: &[u8], at: usize) -> (value: Self) {
        // A slice is no longer than `usize::MAX`, so the end below cannot overflow.
        let _len = src.len();
        u32_from_le_bytes(slice_subrange(src, at, at + 4))
    }
}

impl PropertyValue for u64 {
    open spec fn spec_size() -> nat {
        8
    }

    open spec fn spec_align() -> nat {
        8
    }

    open spec fn spec_encode(&self) -> Seq<u8> {
        spec_u64_to_le_bytes(*self)
    }

    open spec fn spec_decode(bytes: Seq<u8>) -> Self {
        spec_u64_from_le_bytes(bytes)
    }

    proof fn layout_bounds() {
    }

    proof fn decode_of_encode(&self) {
        lemma_auto_spec_u64_to_from_le_bytes();
    }

    proof fn encode_of_decode(bytes: Seq<u8>) {
        lemma_auto_spec_u64_to_from_le_bytes();
    }

    fn size() -> (size: u32) {
        8
    }

    fn align() -> (align: usize) {
        8
    }

    fn encode(&self, dst: &mut [u8], at: usize) {
        let bytes = u64_to_le_bytes(*self);
        assert(bytes@.len() == 8 && <u64 as PropertyValue>::spec_size() == 8);
        assert(bytes@ == self.spec_encode());
        write_at(dst, at, bytes.as_slice());
        assert(dst@ == splice(old(dst)@, at as int, bytes@));
    }

    fn decode(src: &[u8], at: usize) -> (value: Self) {
        // A slice is no longer than `usize::MAX`, so the end below cannot overflow.
        let _len = src.len();
        u64_from_le_bytes(slice_subrange(src, at, at + 8))
    }
}

/// A string object of the host, held by the eight-byte reference through which
/// the HAL reads it.
#[derive(Debug, Clone, Copy, PartialEq, Eq, Structural)]
pub struct CFStringHandle {
    pub address: u64,
}

impl PropertyValue for CFStringHandle {
    open spec fn spec_size() -> nat {
        8
    }

    open spec fn spec_align() -> nat {
        8
    }

    open spec fn spec_encode(&self) -> Seq<u8> {
        spec_u64_to_le_bytes(self.address)
    }

    open spec fn spec_decode(bytes: Seq<u8>) -> Self {
        CFStringHandle { address: spec_u64_from_le_bytes(bytes) }
    }

    proof fn layout_bounds() {
    }

    proof fn decode_of_encode(&self) {
        lemma_auto_spec_u64_to_from_le_bytes();
    }

    proof fn encode_of_decode(bytes: Seq<u8>) {
        lemma_auto_spec_u64_to_from_le_bytes();
    }

    fn size() -> (size: u32) {
        8
    }

    fn align() -> (align: usize) {
        8
    }

    fn encode(&self, dst: &mut [u8], at: usize) {
        self.address.encode(dst, at);
    }

    fn decode(src: &[u8], at: usize) -> (value: Self) {
        CFStringHandle { address: u64::decode(src, at) }
    }
}

} // verus!
