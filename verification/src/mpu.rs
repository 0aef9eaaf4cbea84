//! Register values for the Memory Protection Unit regions that cover the DMA
//! buffers and the SDRAM (ARMv7-M Architecture Reference Manual, B3.5).
//! The writes to the registers themselves happen at the hardware layer.

use vstd::prelude::*;
use vstd::arithmetic::power2::{pow2, lemma_pow2_strictly_increases, lemma2_to64};
use vstd::bits::{lemma_u32_shl_is_mul, lemma_usize_shl_is_mul, lemma_usize_pow2_no_overflow};

verus! {

/// The region number that covers the DMA buffers.
pub const DMA_REGION_NUMBER: u32 = 0;

/// The region number that covers the SDRAM.
pub const SDRAM_REGION_NUMBER: u32 = 1;

/// Access permission field: full access.
pub const REGION_FULL_ACCESS: u32 = 0x03;

/// Type extension field of the DMA region.
pub const REGION_TEX: u32 = 0b001;

/// Shareable bit of the DMA region.
pub const REGION_SHAREABLE: u32 = 0x01;

/// Cacheable and bufferable bits of the DMA region.
pub const REGION_CB: u32 = 0b00;

/// Region enable bit.
pub const REGION_ENABLE: u32 = 0x01;

/// The values to write into the region number (RNR), base address (RBAR)
/// and attribute and size (RASR) registers for one region.
#[derive(Debug, Clone, Copy, PartialEq, Eq, Structural)]
pub struct MpuRegion {
    pub number: u32,
    pub base: u32,
    /// the SIZE field: the region spans `2^(size_field + 1)` bytes
    pub size_field: u32,
    pub attributes: u32,
}

/// An RASR value: access permissions, type extension, shareable, cacheable
/// and bufferable bits, the size field, and the enable bit.
pub open spec fn rasr(access: u32, tex: u32, shareable: u32, cb: u32, size_field: u32) -> u32 {
    (access << 24u32) | (tex << 19u32) | (shareable << 18u32) | (cb << 16u32) | (size_field << 1u32)
        | REGION_ENABLE
}

/// A region size the setup accepts: a power of two from 32 bytes to 2 GiB.
pub open spec fn region_size_ok(size: int) -> bool {
    exists|e: nat| 5 <= e <= 31 && size == pow2(e)
}

/// The region base: the location with its low five bits cleared, so that it
/// is 32-byte aligned.
pub open spec fn region_base(location: u32) -> u32 {
    location & !0x1Fu32
}

/// `1 << e` is the power of two `2^e` for a `u32` exponent below 32.
proof fn lemma_u32_one_shl(e: u32)
    requires
        e < 32,
    ensures
        (1u32 << e) == pow2(e as nat),
{
    lemma_pow2_strictly_increases(e as nat, 32);
    lemma2_to64();
    lemma_u32_shl_is_mul(1, e);
}

/// The SIZE field for a region of `sz` bytes: `log2(sz) - 1`.
fn log2minus1(sz: u32) -> (r: u32)
    requires
        region_size_ok(sz as int),
    ensures
        4 <= r <= 30,
        pow2((r + 1) as nat) == sz,
{
    let mut x: u32 = 5;
    while x <= 31
        invariant
            5 <= x <= 32,
            region_size_ok(sz as int),
            forall|e: nat| 5 <= e < x ==> sz != pow2(e),
        decreases 32 - x,
    {
        proof {
            lemma_u32_one_shl(x);
        }
        if sz == (1u32 << x) {
            return x - 1;
        }
        x = x + 1;
    }
    proof {
        let e = choose|e: nat| 5 <= e <= 31 && sz == pow2(e);
        assert(sz != pow2(e));
    }
    0
}

/// A region size that fits in 32 bits.
proof fn lemma_region_size_fits(size: int)
    requires
        region_size_ok(size),
    ensures
        0 < size < 0x1_0000_0000,
{
    let e = choose|e: nat| 5 <= e <= 31 && size == pow2(e);
    lemma_pow2_strictly_increases(e, 32);
    lemma_pow2_strictly_increases(0, e);
    lemma2_to64();
}

/// The RASR value of a DMA region: full access, strongly ordered
/// (TEX 001, C and B clear), shareable, enabled.
fn dma_attributes(size_field: u32) -> (a: u32)
    ensures
        a == rasr(REGION_FULL_ACCESS, REGION_TEX, REGION_SHAREABLE, REGION_CB, size_field),
{
    (REGION_FULL_ACCESS << 24u32) | (REGION_TEX << 19u32) | (REGION_SHAREABLE << 18u32) | (
    REGION_CB << 16u32) | (size_field << 1u32) | REGION_ENABLE
}

/// Region 0, over `size` bytes of DMA buffers at `location`.
pub fn dma_region(location: u32, size: usize) -> (r: MpuRegion)
    requires
        region_size_ok(size as int),
    ensures
        r.number == DMA_REGION_NUMBER,
        r.base == region_base(location),
        4 <= r.size_field <= 30,
        pow2((r.size_field + 1) as nat) == size,
        r.attributes == rasr(
            REGION_FULL_ACCESS,
            REGION_TEX,
            REGION_SHAREABLE,
            REGION_CB,
            r.size_field,
        ),
{
    proof {
        lemma_region_size_fits(size as int);
    }
    let size_field = log2minus1(size as u32);
    MpuRegion {
        number: DMA_REGION_NUMBER,
        base: location & !0x1Fu32,
        size_field,
        attributes: dma_attributes(size_field),
    }
}

/// Region 1, over `size` bytes of SDRAM at `location`: full access,
/// normal memory attributes, enabled.
pub fn sdram_region(location: u32, size: usize) -> (r: MpuRegion)
    requires
        region_size_ok(size as int),
    ensures
        r.number == SDRAM_REGION_NUMBER,
        r.base == region_base(location),
        4 <= r.size_field <= 30,
        pow2((r.size_field + 1) as nat) == size,
        r.attributes == rasr(REGION_FULL_ACCESS, 0, 0, 0, r.size_field),
{
    proof {
        lemma_region_size_fits(size as int);
    }
    let size_field = log2minus1(size as u32);
    let attributes = (REGION_FULL_ACCESS << 24u32) | (size_field << 1u32) | REGION_ENABLE;
    assert(attributes == rasr(REGION_FULL_ACCESS, 0, 0, 0, size_field)) by (bit_vector)
        requires
            attributes == (REGION_FULL_ACCESS << 24u32) | (size_field << 1u32) | REGION_ENABLE,
            REGION_FULL_ACCESS == 3u32,
            REGION_ENABLE == 1u32,
    ;
    MpuRegion { number: SDRAM_REGION_NUMBER, base: location & !0x1Fu32, size_field, attributes }
}

/// A buffer that the audio DMA plays from.
#[derive(Debug, Clone, Copy, PartialEq, Eq, Structural)]
pub struct DmaPlaybackConfig {
    /// the buffer's address
    pub location: u32,
    /// the buffer's length in bytes
    pub size: usize,
}

/// A buffer that the audio DMA records into.
#[derive(Debug, Clone, Copy, PartialEq, Eq, Structural)]
pub struct DmaRecordConfig {
    /// the buffer's address
    pub location: u32,
    /// the buffer's length in bytes
    pub size: usize,
}

/// A power of two of at least 32 bytes.
pub open spec fn dma_size_ok(size: usize) -> bool {
    exists|e: nat| 5 <= e < usize::BITS && size == pow2(e)
}

impl DmaPlaybackConfig {
    /// The DMA region over the playback buffer: region 0, strongly
    /// ordered, shareable, full access. The size must be a power of two of
    /// at least 32 bytes.
    pub fn region(&self) -> (r: MpuRegion)
        requires
            dma_size_ok(self.size),
        ensures
            r.number == DMA_REGION_NUMBER,
            r.base == region_base(self.location),
            pow2((r.size_field + 1) as nat) == self.size,
            r.attributes == rasr(
                REGION_FULL_ACCESS,
                REGION_TEX,
                REGION_SHAREABLE,
                REGION_CB,
                r.size_field,
            ),
    {
        let mut x: u32 = 5;
        while x < usize::BITS
            invariant
                5 <= x <= usize::BITS,
                dma_size_ok(self.size),
                forall|e: nat| 5 <= e < x ==> self.size != pow2(e),
            decreases usize::BITS - x,
        {
            proof {
                lemma_usize_pow2_no_overflow(x as nat);
                lemma_usize_shl_is_mul(1, x as usize);
            }
            if self.size == (1usize << x) {
                let size_field = x - 1;
                return MpuRegion {
                    number: DMA_REGION_NUMBER,
                    base: self.location & !0x1Fu32,
                    size_field,
                    attributes: dma_attributes(size_field),
                };
            }
            x = x + 1;
        }
        proof {
            let e = choose|e: nat| 5 <= e < usize::BITS && self.size == pow2(e);
            assert(self.size != pow2(e));
        }
        MpuRegion { number: DMA_REGION_NUMBER, base: 0, size_field: 0, attributes: 0 }
    }
}

} // verus!
