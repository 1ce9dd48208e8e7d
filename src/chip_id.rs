//! Decoding of the identification registers that the firmware reads at boot:
//! the JEP106 designer code from the CoreSight peripheral ID registers, and the
//! device and revision fields of the MCU ID code. Reading the registers is the
//! firmware's job; this module only computes on the values read.
use vstd::prelude::*;

verus! {

/// JEP106 code of STMicroelectronics, on continuation page 0.
pub const STMICRO_JEP106_CODE: u32 = 0x20;

/// Bit 3 of peripheral ID2: set when a JEP106 code is in use.
pub open spec fn jep106_used(id2: u32) -> bool {
    (id2 / 8) % 2 == 1
}

/// Bits 3..0 of peripheral ID4: the JEP106 continuation page.
pub open spec fn jep106_page(id4: u32) -> u32 {
    id4 % 16
}

/// Bits 7..4 of ID1 give bits 3..0 of the code, bits 2..0 of ID2 its bits 6..4.
pub open spec fn jep106_code(id1: u32, id2: u32) -> u32 {
    ((id1 / 16) % 16 + (id2 % 8) * 16) as u32
}

/// Who designed the part, as far as the ID registers tell.
#[derive(Clone, Copy, Debug, PartialEq, Eq, Structural)]
pub enum Designer {
    StMicro,
    /// The registers carry no JEP106 code.
    CodeNotFound,
    Other { page: u32, code: u32 },
}

pub open spec fn designer_spec(id1: u32, id2: u32, id4: u32) -> Designer {
    if !jep106_used(id2) {
        Designer::CodeNotFound
    } else if jep106_page(id4) == 0 && jep106_code(id1, id2) == STMICRO_JEP106_CODE {
        Designer::StMicro
    } else {
        Designer::Other { page: jep106_page(id4), code: jep106_code(id1, id2) }
    }
}

/// Classifies the designer from peripheral ID registers 1, 2 and 4.
pub fn jep106_designer(id1: u32, id2: u32, id4: u32) -> (r: Designer)
    ensures
        r == designer_spec(id1, id2, id4),
{
    let found = id2 & 0x8 != 0;
    let page = id4 & 0xF;
    let code = (id1 & 0xF0) >> 4 | (id2 & 0x7) << 4;
    assert(found == jep106_used(id2)) by (bit_vector)
        requires
            found == (id2 & 0x8 != 0),
    ;
    assert(page == jep106_page(id4)) by (bit_vector)
        requires
            page == id4 & 0xF,
    ;
    assert(code == jep106_code(id1, id2)) by (bit_vector)
        requires
            code == ((id1 & 0xF0) >> 4 | (id2 & 0x7) << 4),
    ;
    if found && page == 0 && code == STMICRO_JEP106_CODE {
        Designer::StMicro
    } else if !found {
        Designer::CodeNotFound
    } else {
        Designer::Other { page, code }
    }
}

/// Fields of the MCU ID code register.
#[derive(Clone, Copy, Debug, PartialEq, Eq, Structural)]
pub struct IdCode {
    pub raw: u32,
    /// Bits 11..0.
    pub dev_id: u32,
    /// Bits 31..16.
    pub rev_id: u32,
}

pub fn decode_idcode(raw: u32) -> (r: IdCode)
    ensures
        r.raw == raw,
        r.dev_id == raw % 4096,
        r.rev_id == raw / 65536,
{
    let dev_id = raw & 0xFFF;
    let rev_id = (raw & 0xFFFF0000) >> 16;
    assert(dev_id == raw % 4096) by (bit_vector)
        requires
            dev_id == raw & 0xFFF,
    ;
    assert(rev_id == raw / 65536) by (bit_vector)
        requires
            rev_id == (raw & 0xFFFF0000) >> 16,
    ;
    IdCode { raw, dev_id, rev_id }
}

} // verus!
