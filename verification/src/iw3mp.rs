//! The host binary's image checks: the purity checksums over its text and
//! read-only data, and the executable-header flag that grants the image a
//! large address space, together with the one-time patch that sets it.
use vstd::prelude::*;

verus! {

/// Executable-header characteristics bits.
pub const IMAGE_FILE_RELOCS_STRIPPED: u16 = 0x0001;

pub const IMAGE_FILE_EXECUTABLE_IMAGE: u16 = 0x0002;

pub const IMAGE_FILE_LARGE_ADDRESS_AWARE: u16 = 0x0020;

pub const IMAGE_FILE_32BIT_MACHINE: u16 = 0x0100;

/// The characteristics the patch writes: the original flags of the binary
/// plus the large-address-aware bit.
pub const LAA_PATCH_FLAGS: u16 = 0x0123;

/// The low byte of [`LAA_PATCH_FLAGS`], as the patch writes it.
pub const LAA_PATCH_LO: u8 = 0x23;

/// The high byte of [`LAA_PATCH_FLAGS`], as the patch writes it.
pub const LAA_PATCH_HI: u8 = 0x01;

/// Where the characteristics word sits in this binary's header.
pub const COFF_FLAGS_OFFSET: usize = 286;

/// The checksum the host binary's text section must carry.
pub const PURE_TEXT_CHECKSUM: u32 = 0xD0D368F6;

/// The checksum the host binary's read-only data must carry.
pub const PURE_RDATA_CHECKSUM: u32 = 0xAA33BC12;

/// The running pair of the checksum: the low word and the high word after
/// folding in every byte.
pub open spec fn adler_pair(data: Seq<u8>) -> (nat, nat)
    decreases data.len(),
{
    if data.len() == 0 {
        (1nat, 0nat)
    } else {
        let p = adler_pair(data.drop_last());
        let a = ((p.0 + data.last()) % 65521) as nat;
        ((a, ((p.1 + a) % 65521) as nat))
    }
}

/// The checksum of a byte sequence: high word above low word.
pub open spec fn spec_adler32(data: Seq<u8>) -> nat {
    adler_pair(data).1 * 0x10000 + adler_pair(data).0
}

/// Computes the checksum of a byte sequence.
pub fn adler32(data: &[u8]) -> (r: u32)
    ensures
        r == spec_adler32(data@),
{
    let mut a: u32 = 1;
    let mut b: u32 = 0;
    let len = data.len();
    let mut i: usize = 0;
    proof {
        assert(data@.take(0) =~= Seq::empty());
    }
    while i < len
        invariant
            len == data@.len(),
            i <= len,
            a < 65521,
            b < 65521,
            (a as nat, b as nat) == adler_pair(data@.take(i as int)),
        decreases len - i,
    {
        proof {
            assert(data@.take(i + 1).drop_last() =~= data@.take(i as int));
            assert(data@.take(i + 1).last() == data@[i as int]);
        }
        a = (a + data[i] as u32) % 65521;
        b = (b + a) % 65521;
        i += 1;
    }
    proof {
        assert(data@.take(len as int) =~= data@);
        assert(b * 0x10000 + a < 0x100000000) by (nonlinear_arith)
            requires
                a < 65521,
                b < 65521,
        ;
    }
    b * 0x10000 + a
}

/// Whether the two image sections carry exactly the checksums of the
/// unmodified binary.
pub fn is_pure(text: &[u8], rdata: &[u8]) -> (r: bool)
    ensures
        r == (spec_adler32(text@) == PURE_TEXT_CHECKSUM && spec_adler32(rdata@)
            == PURE_RDATA_CHECKSUM),
{
    let text_checksum = adler32(text);
    if text_checksum != PURE_TEXT_CHECKSUM {
        return false;
    }
    let rdata_checksum = adler32(rdata);
    rdata_checksum == PURE_RDATA_CHECKSUM
}

/// The characteristics word of an image header, read little-endian at its
/// fixed offset; nothing for an image too short to carry one.
pub open spec fn spec_header_flags(data: Seq<u8>) -> Option<u16> {
    if data.len() >= COFF_FLAGS_OFFSET + 2 {
        Some((data[COFF_FLAGS_OFFSET as int] + data[COFF_FLAGS_OFFSET + 1] * 256) as u16)
    } else {
        None
    }
}

/// Reads the characteristics word out of an image's bytes.
pub fn header_flags(data: &[u8]) -> (r: Option<u16>)
    ensures
        r == spec_header_flags(data@),
{
    if data.len() >= 288 {
        let lo = data[COFF_FLAGS_OFFSET];
        let hi = data[COFF_FLAGS_OFFSET + 1];
        Some((hi as u16) * 256 + (lo as u16))
    } else {
        None
    }
}

/// Whether a characteristics word grants the large address space.
pub fn is_large_address_aware(flags: u16) -> (r: bool)
    ensures
        r == (flags & IMAGE_FILE_LARGE_ADDRESS_AWARE != 0),
{
    flags & IMAGE_FILE_LARGE_ADDRESS_AWARE != 0
}

/// An image's bytes after the one-time header patch: the characteristics
/// word is replaced by [`LAA_PATCH_FLAGS`]; an image too short to carry one
/// is left alone.
pub open spec fn patched_of(data: Seq<u8>) -> Seq<u8> {
    if data.len() >= COFF_FLAGS_OFFSET + 2 {
        data.update(COFF_FLAGS_OFFSET as int, LAA_PATCH_LO).update(
            COFF_FLAGS_OFFSET + 1,
            LAA_PATCH_HI,
        )
    } else {
        data
    }
}

/// Applies the one-time header patch to a staged image's bytes; reports
/// whether the image was long enough to patch.
pub fn make_large_address_aware(data: &mut Vec<u8>) -> (r: bool)
    ensures
        r == (old(data)@.len() >= COFF_FLAGS_OFFSET + 2),
        final (data)@ == patched_of(old(data)@),
{
    if data.len() >= 288 {
        data.set(COFF_FLAGS_OFFSET, LAA_PATCH_LO);
        data.set(COFF_FLAGS_OFFSET + 1, LAA_PATCH_HI);
        true
    } else {
        false
    }
}

/// The patched image always carries the large-address-aware flag.
pub proof fn lemma_patch_sets_flag(data: Seq<u8>)
    requires
        data.len() >= COFF_FLAGS_OFFSET + 2,
    ensures
        spec_header_flags(patched_of(data)) matches Some(flags) && flags
            & IMAGE_FILE_LARGE_ADDRESS_AWARE != 0,
{
    let p = patched_of(data);
    assert(p[COFF_FLAGS_OFFSET as int] == LAA_PATCH_LO);
    assert(p[COFF_FLAGS_OFFSET + 1] == LAA_PATCH_HI);
    assert(spec_header_flags(p) == Some(LAA_PATCH_FLAGS));
    assert(0x0123u16 & 0x0020u16 != 0) by (bit_vector);
}

} // verus!
