//! Properties that relate the register-file operations to one another:
//! round trips, preservation of untouched bits, and the independence of
//! the two byte aliases of one cell.

use vstd::prelude::*;

verus! {

use crate::registers::byte_written;
use crate::registers::CPURegisters;
use crate::registers::RegisterIdentifier16Bit;
use crate::registers::RegisterIdentifier32Bit;
use crate::registers::RegisterIdentifier64Bit;
use crate::registers::RegisterIdentifier8Bit;

/// Writing a full cell and reading the same identifier back returns the
/// written value.
pub proof fn lemma_round_trip_64(s: CPURegisters, r: RegisterIdentifier64Bit, v: u64)
    ensures
        s.spec_set_64(r, v).spec_get_64(r) == v,
{
}

/// Writing a 32-bit view and reading the same identifier back returns the
/// written value.
pub proof fn lemma_round_trip_32(s: CPURegisters, r: RegisterIdentifier32Bit, v: u32)
    ensures
        s.spec_set_32(r, v).spec_get_32(r) == v,
{
    let cell = s.cell_value(r.cell());
    assert(((((cell & 0xFFFF_FFFF_0000_0000) | (v as u64)) & 0xFFFF_FFFF) as u32) == v)
        by (bit_vector);
}

/// Writing a 16-bit view and reading the same identifier back returns the
/// written value.
pub proof fn lemma_round_trip_16(s: CPURegisters, r: RegisterIdentifier16Bit, v: u16)
    ensures
        s.spec_set_16(r, v).spec_get_16(r) == v,
{
    let cell = s.cell_value(r.cell());
    assert(((((cell & 0xFFFF_FFFF_FFFF_0000) | (v as u64)) & 0xFFFF) as u16) == v)
        by (bit_vector);
}

/// Writing a byte view and reading the same identifier back returns the
/// written value.
pub proof fn lemma_round_trip_8(s: CPURegisters, r: RegisterIdentifier8Bit, v: u8)
    ensures
        s.spec_set_8(r, v).spec_get_8(r) == v,
{
    let cell = s.cell_value(r.cell());
    let sh = r.shift();
    assert(sh == 0 || sh == 8);
    assert((((byte_written(cell, sh, v) >> sh) & 0xFF) as u8) == v) by (bit_vector)
        requires
            sh == 0 || sh == 8,
    ;
}

/// A 64-bit write touches only its owning cell: every other cell is left
/// unchanged.
pub proof fn lemma_frame_64(s: CPURegisters, r: RegisterIdentifier64Bit, v: u64)
    ensures
        forall|c: RegisterIdentifier64Bit|
            c != r ==> #[trigger] s.spec_set_64(r, v).cell_value(c) == s.cell_value(c),
{
}

/// A 32-bit write changes no bit of its owning cell outside bits 0..32,
/// and leaves every other cell unchanged.
pub proof fn lemma_frame_32(s: CPURegisters, r: RegisterIdentifier32Bit, v: u32)
    ensures
        s.spec_set_32(r, v).cell_value(r.cell()) & 0xFFFF_FFFF_0000_0000 == s.cell_value(r.cell())
            & 0xFFFF_FFFF_0000_0000,
        forall|c: RegisterIdentifier64Bit|
            c != r.cell() ==> #[trigger] s.spec_set_32(r, v).cell_value(c) == s.cell_value(c),
{
    let cell = s.cell_value(r.cell());
    assert((((cell & 0xFFFF_FFFF_0000_0000) | (v as u64)) & 0xFFFF_FFFF_0000_0000) == cell
        & 0xFFFF_FFFF_0000_0000) by (bit_vector);
}

/// A 16-bit write changes no bit of its owning cell outside bits 0..16,
/// and leaves every other cell unchanged.
pub proof fn lemma_frame_16(s: CPURegisters, r: RegisterIdentifier16Bit, v: u16)
    ensures
        s.spec_set_16(r, v).cell_value(r.cell()) & 0xFFFF_FFFF_FFFF_0000 == s.cell_value(r.cell())
            & 0xFFFF_FFFF_FFFF_0000,
        forall|c: RegisterIdentifier64Bit|
            c != r.cell() ==> #[trigger] s.spec_set_16(r, v).cell_value(c) == s.cell_value(c),
{
    let cell = s.cell_value(r.cell());
    assert((((cell & 0xFFFF_FFFF_FFFF_0000) | (v as u64)) & 0xFFFF_FFFF_FFFF_0000) == cell
        & 0xFFFF_FFFF_FFFF_0000) by (bit_vector);
}

/// A byte write changes no bit of its owning cell outside the eight bits
/// at the identifier's offset, and leaves every other cell unchanged.
pub proof fn lemma_frame_8(s: CPURegisters, r: RegisterIdentifier8Bit, v: u8)
    ensures
        s.spec_set_8(r, v).cell_value(r.cell()) & !(0xFFu64 << r.shift()) == s.cell_value(r.cell())
            & !(0xFFu64 << r.shift()),
        forall|c: RegisterIdentifier64Bit|
            c != r.cell() ==> #[trigger] s.spec_set_8(r, v).cell_value(c) == s.cell_value(c),
{
    let cell = s.cell_value(r.cell());
    let sh = r.shift();
    assert((byte_written(cell, sh, v) & !(0xFFu64 << sh)) == cell & !(0xFFu64 << sh))
        by (bit_vector);
}

/// For a cell with two byte aliases, writing through one alias leaves the
/// value read through the other alias unchanged. For Accumulator, Base,
/// Counter and Data this says that the high and the low byte are
/// independent, in both directions.
pub proof fn lemma_byte_aliases_independent(
    s: CPURegisters,
    w: RegisterIdentifier8Bit,
    r: RegisterIdentifier8Bit,
    v: u8,
)
    requires
        w.cell() == r.cell(),
        w.shift() != r.shift(),
    ensures
        s.spec_set_8(w, v).spec_get_8(r) == s.spec_get_8(r),
{
    let cell = s.cell_value(w.cell());
    let sw = w.shift();
    let sr = r.shift();
    assert(sw == 0 || sw == 8);
    assert(sr == 0 || sr == 8);
    assert(((byte_written(cell, sw, v) >> sr) & 0xFF) == (cell >> sr) & 0xFF) by (bit_vector)
        requires
            sw == 0 || sw == 8,
            sr == 0 || sr == 8,
            sw != sr,
    ;
}

} // verus!
