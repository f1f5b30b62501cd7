//! The register file itself: eight 64-bit cells and the width-keyed
//! accessors onto them. Each width class has its own closed identifier
//! enumeration, so an invalid (identifier, width) pair is unrepresentable.

use vstd::prelude::*;

verus! {

/// Names one of the eight 64-bit storage cells. The 64-bit identifiers are
/// in one-to-one correspondence with the cells, so this enumeration doubles
/// as the canonical cell name in specifications.
#[derive(Clone, Copy, Debug)]
pub enum RegisterIdentifier64Bit {
    /// Accumulator
    RAX,
    /// Base
    RBX,
    /// Counter
    RCX,
    /// Stack pointer
    RSP,
    /// Stack base pointer
    RBP,
    /// Destination
    RDI,
    /// Source
    RSI,
    /// Data
    RDX,
}

/// Names the low 32 bits of one cell.
#[derive(Clone, Copy, Debug)]
pub enum RegisterIdentifier32Bit {
    EAX,
    EBX,
    ECX,
    ESP,
    EBP,
    EDI,
    ESI,
    EDX,
}

/// Names the low 16 bits of one cell.
#[derive(Clone, Copy, Debug)]
pub enum RegisterIdentifier16Bit {
    AX,
    BX,
    CX,
    SP,
    BP,
    DI,
    SI,
    DX,
}

/// Names one byte of a cell. Accumulator, Base, Counter and Data each have
/// a high-byte (bits 8..16) and a low-byte (bits 0..8) alias. The remaining
/// four cells have a single alias each, occupying bits 8..16 of the cell.
#[derive(Clone, Copy, Debug)]
pub enum RegisterIdentifier8Bit {
    AH,
    AL,
    BH,
    BL,
    CH,
    CL,
    SPL,
    BPL,
    DIL,
    SIL,
    DH,
    DL,
}

impl RegisterIdentifier32Bit {
    /// The cell that this 32-bit view reads and writes.
    pub open spec fn cell(self) -> RegisterIdentifier64Bit {
        match self {
            RegisterIdentifier32Bit::EAX => RegisterIdentifier64Bit::RAX,
            RegisterIdentifier32Bit::EBX => RegisterIdentifier64Bit::RBX,
            RegisterIdentifier32Bit::ECX => RegisterIdentifier64Bit::RCX,
            RegisterIdentifier32Bit::ESP => RegisterIdentifier64Bit::RSP,
            RegisterIdentifier32Bit::EBP => RegisterIdentifier64Bit::RBP,
            RegisterIdentifier32Bit::EDI => RegisterIdentifier64Bit::RDI,
            RegisterIdentifier32Bit::ESI => RegisterIdentifier64Bit::RSI,
            RegisterIdentifier32Bit::EDX => RegisterIdentifier64Bit::RDX,
        }
    }
}

impl RegisterIdentifier16Bit {
    /// The cell that this 16-bit view reads and writes.
    pub open spec fn cell(self) -> RegisterIdentifier64Bit {
        match self {
            RegisterIdentifier16Bit::AX => RegisterIdentifier64Bit::RAX,
            RegisterIdentifier16Bit::BX => RegisterIdentifier64Bit::RBX,
            RegisterIdentifier16Bit::CX => RegisterIdentifier64Bit::RCX,
            RegisterIdentifier16Bit::SP => RegisterIdentifier64Bit::RSP,
            RegisterIdentifier16Bit::BP => RegisterIdentifier64Bit::RBP,
            RegisterIdentifier16Bit::DI => RegisterIdentifier64Bit::RDI,
            RegisterIdentifier16Bit::SI => RegisterIdentifier64Bit::RSI,
            RegisterIdentifier16Bit::DX => RegisterIdentifier64Bit::RDX,
        }
    }
}

impl RegisterIdentifier8Bit {
    /// The cell that this byte view reads and writes.
    pub open spec fn cell(self) -> RegisterIdentifier64Bit {
        match self {
            RegisterIdentifier8Bit::AH => RegisterIdentifier64Bit::RAX,
            RegisterIdentifier8Bit::AL => RegisterIdentifier64Bit::RAX,
            RegisterIdentifier8Bit::BH => RegisterIdentifier64Bit::RBX,
            RegisterIdentifier8Bit::BL => RegisterIdentifier64Bit::RBX,
            RegisterIdentifier8Bit::CH => RegisterIdentifier64Bit::RCX,
            RegisterIdentifier8Bit::CL => RegisterIdentifier64Bit::RCX,
            RegisterIdentifier8Bit::SPL => RegisterIdentifier64Bit::RSP,
            RegisterIdentifier8Bit::BPL => RegisterIdentifier64Bit::RBP,
            RegisterIdentifier8Bit::DIL => RegisterIdentifier64Bit::RDI,
            RegisterIdentifier8Bit::SIL => RegisterIdentifier64Bit::RSI,
            RegisterIdentifier8Bit::DH => RegisterIdentifier64Bit::RDX,
            RegisterIdentifier8Bit::DL => RegisterIdentifier64Bit::RDX,
        }
    }

    /// The bit offset of the addressed byte within its cell: 8 for a
    /// high-byte alias, 0 for a low-byte alias.
    pub open spec fn shift(self) -> u64 {
        match self {
            RegisterIdentifier8Bit::AH => 8,
            RegisterIdentifier8Bit::AL => 0,
            RegisterIdentifier8Bit::BH => 8,
            RegisterIdentifier8Bit::BL => 0,
            RegisterIdentifier8Bit::CH => 8,
            RegisterIdentifier8Bit::CL => 0,
            RegisterIdentifier8Bit::SPL => 8,
            RegisterIdentifier8Bit::BPL => 8,
            RegisterIdentifier8Bit::DIL => 8,
            RegisterIdentifier8Bit::SIL => 8,
            RegisterIdentifier8Bit::DH => 8,
            RegisterIdentifier8Bit::DL => 0,
        }
    }
}

/// One cell's value after a byte is stored at the given bit offset: the
/// eight bits at the offset are cleared and the new byte is placed there;
/// every other bit is kept.
pub open spec fn byte_written(cell: u64, shift: u64, value: u8) -> u64 {
    (cell & !(0xFFu64 << shift)) | ((value as u64) << shift)
}

/// The register file of one virtual CPU core: eight independently owned
/// 64-bit cells, one per general-purpose register role.
pub struct CPURegisters {
    pub accumulator: u64,
    pub base: u64,
    pub counter: u64,
    pub stack_pointer: u64,
    pub stack_base_pointer: u64,
    pub destination: u64,
    pub source: u64,
    pub data: u64,
}

impl CPURegisters {
    /// The value of one cell.
    pub open spec fn cell_value(self, c: RegisterIdentifier64Bit) -> u64 {
        match c {
            RegisterIdentifier64Bit::RAX => self.accumulator,
            RegisterIdentifier64Bit::RBX => self.base,
            RegisterIdentifier64Bit::RCX => self.counter,
            RegisterIdentifier64Bit::RSP => self.stack_pointer,
            RegisterIdentifier64Bit::RBP => self.stack_base_pointer,
            RegisterIdentifier64Bit::RDI => self.destination,
            RegisterIdentifier64Bit::RSI => self.source,
            RegisterIdentifier64Bit::RDX => self.data,
        }
    }

    /// The register file with one cell replaced and every other cell kept.
    pub open spec fn with_cell(self, c: RegisterIdentifier64Bit, v: u64) -> CPURegisters {
        match c {
            RegisterIdentifier64Bit::RAX => CPURegisters { accumulator: v, ..self },
            RegisterIdentifier64Bit::RBX => CPURegisters { base: v, ..self },
            RegisterIdentifier64Bit::RCX => CPURegisters { counter: v, ..self },
            RegisterIdentifier64Bit::RSP => CPURegisters { stack_pointer: v, ..self },
            RegisterIdentifier64Bit::RBP => CPURegisters { stack_base_pointer: v, ..self },
            RegisterIdentifier64Bit::RDI => CPURegisters { destination: v, ..self },
            RegisterIdentifier64Bit::RSI => CPURegisters { source: v, ..self },
            RegisterIdentifier64Bit::RDX => CPURegisters { data: v, ..self },
        }
    }

    /// What a 64-bit read returns: the whole owning cell.
    pub open spec fn spec_get_64(self, r: RegisterIdentifier64Bit) -> u64 {
        self.cell_value(r)
    }

    /// What a 32-bit read returns: bits 0..32 of the owning cell.
    pub open spec fn spec_get_32(self, r: RegisterIdentifier32Bit) -> u32 {
        (self.cell_value(r.cell()) & 0xFFFF_FFFF) as u32
    }

    /// What a 16-bit read returns: bits 0..16 of the owning cell.
    pub open spec fn spec_get_16(self, r: RegisterIdentifier16Bit) -> u16 {
        (self.cell_value(r.cell()) & 0xFFFF) as u16
    }

    /// What a byte read returns: the byte at the identifier's offset,
    /// right-justified, with no sign extension.
    pub open spec fn spec_get_8(self, r: RegisterIdentifier8Bit) -> u8 {
        ((self.cell_value(r.cell()) >> r.shift()) & 0xFF) as u8
    }

    /// What a 64-bit write leaves behind: the owning cell overwritten.
    pub open spec fn spec_set_64(self, r: RegisterIdentifier64Bit, v: u64) -> CPURegisters {
        self.with_cell(r, v)
    }

    /// What a 32-bit write leaves behind: bits 0..32 of the owning cell
    /// replaced, bits 32..64 preserved (no zero-extension into the upper
    /// half), every other cell kept.
    pub open spec fn spec_set_32(self, r: RegisterIdentifier32Bit, v: u32) -> CPURegisters {
        self.with_cell(r.cell(), (self.cell_value(r.cell()) & 0xFFFF_FFFF_0000_0000) | (v as u64))
    }

    /// What a 16-bit write leaves behind: bits 0..16 of the owning cell
    /// replaced, all other bits preserved, every other cell kept.
    pub open spec fn spec_set_16(self, r: RegisterIdentifier16Bit, v: u16) -> CPURegisters {
        self.with_cell(r.cell(), (self.cell_value(r.cell()) & 0xFFFF_FFFF_FFFF_0000) | (v as u64))
    }

    /// What a byte write leaves behind: the byte at the identifier's offset
    /// replaced, all other bits preserved, every other cell kept.
    pub open spec fn spec_set_8(self, r: RegisterIdentifier8Bit, v: u8) -> CPURegisters {
        self.with_cell(r.cell(), byte_written(self.cell_value(r.cell()), r.shift(), v))
    }

    /// A register file with all eight cells zero-initialized.
    pub fn new() -> (out: CPURegisters)
        ensures
            forall|c: RegisterIdentifier64Bit| out.cell_value(c) == 0,
    {
        CPURegisters {
            accumulator: 0,
            base: 0,
            counter: 0,
            stack_pointer: 0,
            stack_base_pointer: 0,
            destination: 0,
            source: 0,
            data: 0,
        }
    }

    /// Reads the full 64-bit cell named by the identifier.
    pub fn get_64(&self, register: RegisterIdentifier64Bit) -> (out: u64)
        ensures
            out == self.spec_get_64(register),
    {
        match register {
            RegisterIdentifier64Bit::RAX => self.accumulator,
            RegisterIdentifier64Bit::RBX => self.base,
            RegisterIdentifier64Bit::RCX => self.counter,
            RegisterIdentifier64Bit::RSP => self.stack_pointer,
            RegisterIdentifier64Bit::RBP => self.stack_base_pointer,
            RegisterIdentifier64Bit::RDI => self.destination,
            RegisterIdentifier64Bit::RSI => self.source,
            RegisterIdentifier64Bit::RDX => self.data,
        }
    }

    /// Reads bits 0..32 of the owning cell, right-justified.
    pub fn get_32(&self, register: RegisterIdentifier32Bit) -> (out: u32)
        ensures
            out == self.spec_get_32(register),
    {
        let cell: u64 = match register {
            RegisterIdentifier32Bit::EAX => self.accumulator,
            RegisterIdentifier32Bit::EBX => self.base,
            RegisterIdentifier32Bit::ECX => self.counter,
            RegisterIdentifier32Bit::ESP => self.stack_pointer,
            RegisterIdentifier32Bit::EBP => self.stack_base_pointer,
            RegisterIdentifier32Bit::EDI => self.destination,
            RegisterIdentifier32Bit::ESI => self.source,
            RegisterIdentifier32Bit::EDX => self.data,
        };
        proof {
            assert((cell & 0xFFFF_FFFF) <= 0xFFFF_FFFFu64) by (bit_vector);
        }
        (cell & 0xFFFF_FFFF) as u32
    }

    /// Reads bits 0..16 of the owning cell, right-justified.
    pub fn get_16(&self, register: RegisterIdentifier16Bit) -> (out: u16)
        ensures
            out == self.spec_get_16(register),
    {
        let cell: u64 = match register {
            RegisterIdentifier16Bit::AX => self.accumulator,
            RegisterIdentifier16Bit::BX => self.base,
            RegisterIdentifier16Bit::CX => self.counter,
            RegisterIdentifier16Bit::SP => self.stack_pointer,
            RegisterIdentifier16Bit::BP => self.stack_base_pointer,
            RegisterIdentifier16Bit::DI => self.destination,
            RegisterIdentifier16Bit::SI => self.source,
            RegisterIdentifier16Bit::DX => self.data,
        };
        proof {
            assert((cell & 0xFFFF) <= 0xFFFFu64) by (bit_vector);
        }
        (cell & 0xFFFF) as u16
    }

    /// Reads the byte at the identifier's fixed offset within the owning
    /// cell, right-justified, with no sign extension.
    pub fn get_8(&self, register: RegisterIdentifier8Bit) -> (out: u8)
        ensures
            out == self.spec_get_8(register),
    {
        let cell: u64 = match register {
            RegisterIdentifier8Bit::AH => self.accumulator,
            RegisterIdentifier8Bit::AL => self.accumulator,
            RegisterIdentifier8Bit::BH => self.base,
            RegisterIdentifier8Bit::BL => self.base,
            RegisterIdentifier8Bit::CH => self.counter,
            RegisterIdentifier8Bit::CL => self.counter,
            RegisterIdentifier8Bit::SPL => self.stack_pointer,
            RegisterIdentifier8Bit::BPL => self.stack_base_pointer,
            RegisterIdentifier8Bit::DIL => self.destination,
            RegisterIdentifier8Bit::SIL => self.source,
            RegisterIdentifier8Bit::DH => self.data,
            RegisterIdentifier8Bit::DL => self.data,
        };
        let shift: u64 = match register {
            RegisterIdentifier8Bit::AH => 8,
            RegisterIdentifier8Bit::AL => 0,
            RegisterIdentifier8Bit::BH => 8,
            RegisterIdentifier8Bit::BL => 0,
            RegisterIdentifier8Bit::CH => 8,
            RegisterIdentifier8Bit::CL => 0,
            RegisterIdentifier8Bit::SPL => 8,
            RegisterIdentifier8Bit::BPL => 8,
            RegisterIdentifier8Bit::DIL => 8,
            RegisterIdentifier8Bit::SIL => 8,
            RegisterIdentifier8Bit::DH => 8,
            RegisterIdentifier8Bit::DL => 0,
        };
        proof {
            assert(((cell >> shift) & 0xFF) <= 0xFFu64) by (bit_vector);
        }
        ((cell >> shift) & 0xFF) as u8
    }

    /// Overwrites the full 64-bit cell named by the identifier.
    pub fn set_64(&mut self, register: RegisterIdentifier64Bit, value: u64)
        ensures
            *final(self) == old(self).spec_set_64(register, value),
    {
        match register {
            RegisterIdentifier64Bit::RAX => self.accumulator = value,
            RegisterIdentifier64Bit::RBX => self.base = value,
            RegisterIdentifier64Bit::RCX => self.counter = value,
            RegisterIdentifier64Bit::RSP => self.stack_pointer = value,
            RegisterIdentifier64Bit::RBP => self.stack_base_pointer = value,
            RegisterIdentifier64Bit::RDI => self.destination = value,
            RegisterIdentifier64Bit::RSI => self.source = value,
            RegisterIdentifier64Bit::RDX => self.data = value,
        }
    }

    /// Replaces bits 0..32 of the owning cell with the value; bits 32..64
    /// are preserved unchanged (the upper half is deliberately not
    /// zero-extended).
    pub fn set_32(&mut self, register: RegisterIdentifier32Bit, value: u32)
        ensures
            *final(self) == old(self).spec_set_32(register, value),
    {
        match register {
            RegisterIdentifier32Bit::EAX => {
                self.accumulator = (self.accumulator & 0xFFFF_FFFF_0000_0000) | (value as u64);
            },
            RegisterIdentifier32Bit::EBX => {
                self.base = (self.base & 0xFFFF_FFFF_0000_0000) | (value as u64);
            },
            RegisterIdentifier32Bit::ECX => {
                self.counter = (self.counter & 0xFFFF_FFFF_0000_0000) | (value as u64);
            },
            RegisterIdentifier32Bit::ESP => {
                self.stack_pointer = (self.stack_pointer & 0xFFFF_FFFF_0000_0000) | (value as u64);
            },
            RegisterIdentifier32Bit::EBP => {
                self.stack_base_pointer = (self.stack_base_pointer & 0xFFFF_FFFF_0000_0000) | (
                value as u64);
            },
            RegisterIdentifier32Bit::EDI => {
                self.destination = (self.destination & 0xFFFF_FFFF_0000_0000) | (value as u64);
            },
            RegisterIdentifier32Bit::ESI => {
                self.source = (self.source & 0xFFFF_FFFF_0000_0000) | (value as u64);
            },
            RegisterIdentifier32Bit::EDX => {
                self.data = (self.data & 0xFFFF_FFFF_0000_0000) | (value as u64);
            },
        }
    }

    /// Replaces bits 0..16 of the owning cell with the value; all other
    /// bits are preserved unchanged.
    pub fn set_16(&mut self, register: RegisterIdentifier16Bit, value: u16)
        ensures
            *final(self) == old(self).spec_set_16(register, value),
    {
        match register {
            RegisterIdentifier16Bit::AX => {
                self.accumulator = (self.accumulator & 0xFFFF_FFFF_FFFF_0000) | (value as u64);
            },
            RegisterIdentifier16Bit::BX => {
                self.base = (self.base & 0xFFFF_FFFF_FFFF_0000) | (value as u64);
            },
            RegisterIdentifier16Bit::CX => {
                self.counter = (self.counter & 0xFFFF_FFFF_FFFF_0000) | (value as u64);
            },
            RegisterIdentifier16Bit::SP => {
                self.stack_pointer = (self.stack_pointer & 0xFFFF_FFFF_FFFF_0000) | (value as u64);
            },
            RegisterIdentifier16Bit::BP => {
                self.stack_base_pointer = (self.stack_base_pointer & 0xFFFF_FFFF_FFFF_0000) | (
                value as u64);
            },
            RegisterIdentifier16Bit::DI => {
                self.destination = (self.destination & 0xFFFF_FFFF_FFFF_0000) | (value as u64);
            },
            RegisterIdentifier16Bit::SI => {
                self.source = (self.source & 0xFFFF_FFFF_FFFF_0000) | (value as u64);
            },
            RegisterIdentifier16Bit::DX => {
                self.data = (self.data & 0xFFFF_FFFF_FFFF_0000) | (value as u64);
            },
        }
    }

    /// Replaces the byte at the identifier's fixed offset within the
    /// owning cell; all other bits are preserved unchanged.
    pub fn set_8(&mut self, register: RegisterIdentifier8Bit, value: u8)
        ensures
            *final(self) == old(self).spec_set_8(register, value),
    {
        match register {
            RegisterIdentifier8Bit::AH => {
                self.accumulator = (self.accumulator & 0xFFFF_FFFF_FFFF_00FF) | ((value as u64)
                    << 8);
            },
            RegisterIdentifier8Bit::AL => {
                self.accumulator = (self.accumulator & 0xFFFF_FFFF_FFFF_FF00) | (value as u64);
            },
            RegisterIdentifier8Bit::BH => {
                self.base = (self.base & 0xFFFF_FFFF_FFFF_00FF) | ((value as u64) << 8);
            },
            RegisterIdentifier8Bit::BL => {
                self.base = (self.base & 0xFFFF_FFFF_FFFF_FF00) | (value as u64);
            },
            RegisterIdentifier8Bit::CH => {
                self.counter = (self.counter & 0xFFFF_FFFF_FFFF_00FF) | ((value as u64) << 8);
            },
            RegisterIdentifier8Bit::CL => {
                self.counter = (self.counter & 0xFFFF_FFFF_FFFF_FF00) | (value as u64);
            },
            RegisterIdentifier8Bit::SPL => {
                self.stack_pointer = (self.stack_pointer & 0xFFFF_FFFF_FFFF_00FF) | ((value as u64)
                    << 8);
            },
            RegisterIdentifier8Bit::BPL => {
                self.stack_base_pointer = (self.stack_base_pointer & 0xFFFF_FFFF_FFFF_00FF) | ((
                value as u64) << 8);
            },
            RegisterIdentifier8Bit::DIL => {
                self.destination = (self.destination & 0xFFFF_FFFF_FFFF_00FF) | ((value as u64)
                    << 8);
            },
            RegisterIdentifier8Bit::SIL => {
                self.source = (self.source & 0xFFFF_FFFF_FFFF_00FF) | ((value as u64) << 8);
            },
            RegisterIdentifier8Bit::DH => {
                self.data = (self.data & 0xFFFF_FFFF_FFFF_00FF) | ((value as u64) << 8);
            },
            RegisterIdentifier8Bit::DL => {
                self.data = (self.data & 0xFFFF_FFFF_FFFF_FF00) | (value as u64);
            },
        }
        proof {
            lemma_byte_written_high(old(self).cell_value(register.cell()), value);
            lemma_byte_written_low(old(self).cell_value(register.cell()), value);
        }
    }
}

/// The read-modify-write formula for a high byte, with its clear mask
/// written out as the literal that the store uses.
proof fn lemma_byte_written_high(cell: u64, value: u8)
    by (bit_vector)
    ensures
        byte_written(cell, 8, value) == (cell & 0xFFFF_FFFF_FFFF_00FF) | ((value as u64) << 8),
{
}

/// The read-modify-write formula for a low byte, with its clear mask
/// written out as the literal that the store uses.
proof fn lemma_byte_written_low(cell: u64, value: u8)
    by (bit_vector)
    ensures
        byte_written(cell, 0, value) == (cell & 0xFFFF_FFFF_FFFF_FF00) | (value as u64),
{
}

} // verus!
