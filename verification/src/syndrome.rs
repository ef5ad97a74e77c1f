//! Decoding of the exception syndrome register.

use vstd::prelude::*;

verus! {

/// The cause of an instruction or data abort.
#[derive(Debug, PartialEq, Eq, Copy, Clone, Structural)]
pub enum Fault {
    AddressSize,
    Translation,
    AccessFlag,
    Permission,
    Alignment,
    TlbConflict,
    /// A fault status code that is none of the above.
    Other(u8),
}

/// What a synchronous exception was taken for, as far as the dispatcher
/// tells causes apart.
#[derive(Debug, PartialEq, Eq, Copy, Clone, Structural)]
pub enum Syndrome {
    /// A `brk` instruction, with its immediate.
    Brk(u16),
    /// An `svc` instruction, with its immediate: a system call.
    Svc(u16),
    /// An abort on an instruction fetch.
    InstructionAbort { kind: Fault, level: u8 },
    /// An abort on a data access.
    DataAbort { kind: Fault, level: u8 },
    /// Any other cause, with the register's value.
    Other(u32),
}

/// Exception class of an `svc` instruction executed in AArch64 state.
pub const CLASS_SVC: u32 = 0x15;

/// Exception class of an instruction abort from a lower exception level.
pub const CLASS_INSTRUCTION_ABORT_LOWER: u32 = 0x20;

/// Exception class of an instruction abort from the current exception level.
pub const CLASS_INSTRUCTION_ABORT: u32 = 0x21;

/// Exception class of a data abort from a lower exception level.
pub const CLASS_DATA_ABORT_LOWER: u32 = 0x24;

/// Exception class of a data abort from the current exception level.
pub const CLASS_DATA_ABORT: u32 = 0x25;

/// Exception class of a `brk` instruction executed in AArch64 state.
pub const CLASS_BRK: u32 = 0x3c;

/// The exception class of a syndrome: bits 31 to 26.
pub open spec fn class_of(esr: u32) -> u32 {
    esr >> 26
}

/// The immediate of an `svc` or `brk` instruction: bits 15 to 0.
pub open spec fn immediate_of(esr: u32) -> u16 {
    (esr & 0xffff) as u16
}

/// The fault status code of an abort: bits 5 to 0.
pub open spec fn status_of(esr: u32) -> u8 {
    (esr & 0x3f) as u8
}

/// The translation level of an abort: bits 1 to 0.
pub open spec fn level_of(esr: u32) -> u8 {
    (esr & 0x3) as u8
}

impl Fault {
    /// The fault that a syndrome's status code names. The upper four bits of
    /// the code tell the kinds apart; the lower two hold the level.
    pub open spec fn decoded(esr: u32) -> Fault {
        let kind = status_of(esr) >> 2;
        if kind == 0 {
            Fault::AddressSize
        } else if kind == 1 {
            Fault::Translation
        } else if kind == 2 {
            Fault::AccessFlag
        } else if kind == 3 {
            Fault::Permission
        } else if kind == 8 {
            Fault::Alignment
        } else if kind == 12 {
            Fault::TlbConflict
        } else {
            Fault::Other(status_of(esr))
        }
    }

    /// Decodes the fault status code of the syndrome `esr`.
    pub fn from_esr(esr: u32) -> (fault: Fault)
        ensures
            fault == Fault::decoded(esr),
    {
        assert(esr & 0x3f < 64) by (bit_vector);
        let status: u8 = (esr & 0x3f) as u8;
        let kind: u8 = status >> 2;
        if kind == 0 {
            Fault::AddressSize
        } else if kind == 1 {
            Fault::Translation
        } else if kind == 2 {
            Fault::AccessFlag
        } else if kind == 3 {
            Fault::Permission
        } else if kind == 8 {
            Fault::Alignment
        } else if kind == 12 {
            Fault::TlbConflict
        } else {
            Fault::Other(status)
        }
    }
}

impl Syndrome {
    /// The syndrome that the register value `esr` stands for.
    pub open spec fn decoded(esr: u32) -> Syndrome {
        let class = class_of(esr);
        if class == CLASS_BRK {
            Syndrome::Brk(immediate_of(esr))
        } else if class == CLASS_SVC {
            Syndrome::Svc(immediate_of(esr))
        } else if class == CLASS_INSTRUCTION_ABORT_LOWER || class == CLASS_INSTRUCTION_ABORT {
            Syndrome::InstructionAbort { kind: Fault::decoded(esr), level: level_of(esr) }
        } else if class == CLASS_DATA_ABORT_LOWER || class == CLASS_DATA_ABORT {
            Syndrome::DataAbort { kind: Fault::decoded(esr), level: level_of(esr) }
        } else {
            Syndrome::Other(esr)
        }
    }

    /// Decodes the value `esr` of the exception syndrome register.
    pub fn from_esr(esr: u32) -> (syndrome: Syndrome)
        ensures
            syndrome == Syndrome::decoded(esr),
    {
        let class: u32 = esr >> 26;
        assert(esr & 0xffff < 0x10000) by (bit_vector);
        assert(esr & 0x3 < 4) by (bit_vector);
        if class == CLASS_BRK {
            Syndrome::Brk((esr & 0xffff) as u16)
        } else if class == CLASS_SVC {
            Syndrome::Svc((esr & 0xffff) as u16)
        } else if class == CLASS_INSTRUCTION_ABORT_LOWER || class == CLASS_INSTRUCTION_ABORT {
            Syndrome::InstructionAbort { kind: Fault::from_esr(esr), level: (esr & 0x3) as u8 }
        } else if class == CLASS_DATA_ABORT_LOWER || class == CLASS_DATA_ABORT {
            Syndrome::DataAbort { kind: Fault::from_esr(esr), level: (esr & 0x3) as u8 }
        } else {
            Syndrome::Other(esr)
        }
    }
}

} // verus!
