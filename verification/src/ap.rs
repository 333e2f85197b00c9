//! Access port (AP) registers, including the MEM-AP.

use vstd::prelude::*;
use vstd::std_specs::convert::FromSpecImpl;
use crate::xfer::TransferWordIdx;
use crate::bits::{
    field8, with_field8, get_field8, set_field8, field32_u8, field32_u16, with_field32_u8,
    with_field32_u16, get_field32_u8, get_field32_u16, set_field32_u8, set_field32_u16,
};

verus! {

/// Implemented on types representing a set of possible AP control registers.
pub trait ApRegister {
    /// The 8-bit offset of the register.
    spec fn spec_ap_reg_off(&self) -> u8;

    fn ap_reg_off(&self) -> (r: ApRegOff)
        ensures
            r.0 == self.spec_ap_reg_off(),
    ;
}

/// 8-bit offset of an AP control register: `A[3:2]` in bits 2..3 and APBANKSEL in bits 4..7.
#[derive(Clone, Copy, Debug, PartialEq, Eq, Structural)]
pub struct ApRegOff(pub u8);

impl ApRegOff {
    /// All fields zero.
    pub fn new() -> (r: Self)
        ensures
            r.0 == 0,
    {
        ApRegOff(0)
    }

    pub fn raz0(&self) -> (r: u8)
        ensures
            r == field8(self.0, 0, 0x1),
            r <= 0x1,
    {
        get_field8(self.0, 0, 0x1)
    }

    pub fn with_raz0(self, v: u8) -> (r: Self)
        requires
            v <= 0x1,
        ensures
            r.0 == with_field8(self.0, 0, 0x1, v),
    {
        ApRegOff(set_field8(self.0, 0, 0x1, v))
    }

    pub fn raz1(&self) -> (r: u8)
        ensures
            r == field8(self.0, 1, 0x1),
            r <= 0x1,
    {
        get_field8(self.0, 1, 0x1)
    }

    pub fn with_raz1(self, v: u8) -> (r: Self)
        requires
            v <= 0x1,
        ensures
            r.0 == with_field8(self.0, 1, 0x1, v),
    {
        ApRegOff(set_field8(self.0, 1, 0x1, v))
    }

    pub fn a(&self) -> (r: u8)
        ensures
            r == field8(self.0, 2, 0x3),
            r <= 0x3,
    {
        get_field8(self.0, 2, 0x3)
    }

    pub fn with_a(self, v: u8) -> (r: Self)
        requires
            v <= 0x3,
        ensures
            r.0 == with_field8(self.0, 2, 0x3, v),
    {
        ApRegOff(set_field8(self.0, 2, 0x3, v))
    }

    pub fn apbanksel(&self) -> (r: u8)
        ensures
            r == field8(self.0, 4, 0xf),
            r <= 0xf,
    {
        get_field8(self.0, 4, 0xf)
    }

    pub fn with_apbanksel(self, v: u8) -> (r: Self)
        requires
            v <= 0xf,
        ensures
            r.0 == with_field8(self.0, 4, 0xf, v),
    {
        ApRegOff(set_field8(self.0, 4, 0xf, v))
    }

}

impl From<u8> for ApRegOff {
    fn from(v: u8) -> (r: Self) {
        ApRegOff(v)
    }
}

impl FromSpecImpl<u8> for ApRegOff {
    open spec fn obeys_from_spec() -> bool {
        true
    }

    open spec fn from_spec(v: u8) -> Self {
        ApRegOff(v)
    }
}

impl From<ApRegOff> for u8 {
    fn from(v: ApRegOff) -> (r: u8) {
        v.0
    }
}

impl FromSpecImpl<ApRegOff> for u8 {
    open spec fn obeys_from_spec() -> bool {
        true
    }

    open spec fn from_spec(v: ApRegOff) -> u8 {
        v.0
    }
}

impl ApRegOff {
    /// The offset at word index `word_idx` in bank `apbanksel`.
    pub fn from_word_bank(word_idx: TransferWordIdx, apbanksel: u8) -> (r: Self)
        requires
            apbanksel <= 0xf,
        ensures
            r.0 == with_field8(with_field8(0, 2, 0x3, word_idx@), 4, 0xf, apbanksel),
    {
        let w = word_idx.bits();
        Self::new().with_a(w).with_apbanksel(apbanksel)
    }

    /// The word index (`A[3:2]`) of this offset.
    pub fn word_idx(&self) -> (r: TransferWordIdx)
        ensures
            r@ == field8(self.0, 2, 0x3),
    {
        let a = self.a();
        proof {
            crate::bits::lemma_and_le8(self.0 >> 2u8, 0x3);
        }
        TransferWordIdx::new_idx(a as usize)
    }
}

/// Splitting an offset into word index and bank and joining them again
/// gives back the offset, for offsets whose two low bits are clear.
pub proof fn lemma_ap_reg_off_roundtrip(off: u8)
    requires
        off & 0x3 == 0,
    ensures
        with_field8(with_field8(0, 2, 0x3, field8(off, 2, 0x3)), 4, 0xf, field8(off, 4, 0xf)) == off,
        field8(off, 4, 0xf) <= 0xf,
{
    assert(with_field8(with_field8(0, 2, 0x3, field8(off, 2, 0x3)), 4, 0xf, field8(off, 4, 0xf))
        == off && field8(off, 4, 0xf) <= 0xf) by (bit_vector)
        requires
            off & 0x3 == 0,
    ;
}

/// AP Identification Register.
#[derive(Clone, Copy, Debug, PartialEq, Eq, Structural)]
pub struct ApIdr(pub u32);

impl ApIdr {
    /// All fields zero.
    pub fn new() -> (r: Self)
        ensures
            r.0 == 0,
    {
        ApIdr(0)
    }

    pub fn ty(&self) -> (r: u8)
        ensures
            r == field32_u8(self.0, 0, 0xf),
            r <= 0xf,
    {
        get_field32_u8(self.0, 0, 0xf)
    }

    pub fn with_ty(self, v: u8) -> (r: Self)
        requires
            v <= 0xf,
        ensures
            r.0 == with_field32_u8(self.0, 0, 0xf, v),
    {
        ApIdr(set_field32_u8(self.0, 0, 0xf, v))
    }

    pub fn variant(&self) -> (r: u8)
        ensures
            r == field32_u8(self.0, 4, 0xf),
            r <= 0xf,
    {
        get_field32_u8(self.0, 4, 0xf)
    }

    pub fn with_variant(self, v: u8) -> (r: Self)
        requires
            v <= 0xf,
        ensures
            r.0 == with_field32_u8(self.0, 4, 0xf, v),
    {
        ApIdr(set_field32_u8(self.0, 4, 0xf, v))
    }

    pub fn res8(&self) -> (r: u8)
        ensures
            r == field32_u8(self.0, 8, 0x1f),
            r <= 0x1f,
    {
        get_field32_u8(self.0, 8, 0x1f)
    }

    pub fn with_res8(self, v: u8) -> (r: Self)
        requires
            v <= 0x1f,
        ensures
            r.0 == with_field32_u8(self.0, 8, 0x1f, v),
    {
        ApIdr(set_field32_u8(self.0, 8, 0x1f, v))
    }

    pub fn class(&self) -> (r: u8)
        ensures
            r == field32_u8(self.0, 13, 0xf),
            r <= 0xf,
    {
        get_field32_u8(self.0, 13, 0xf)
    }

    pub fn with_class(self, v: u8) -> (r: Self)
        requires
            v <= 0xf,
        ensures
            r.0 == with_field32_u8(self.0, 13, 0xf, v),
    {
        ApIdr(set_field32_u8(self.0, 13, 0xf, v))
    }

    pub fn designer(&self) -> (r: u16)
        ensures
            r == field32_u16(self.0, 17, 0x7ff),
            r <= 0x7ff,
    {
        get_field32_u16(self.0, 17, 0x7ff)
    }

    pub fn with_designer(self, v: u16) -> (r: Self)
        requires
            v <= 0x7ff,
        ensures
            r.0 == with_field32_u16(self.0, 17, 0x7ff, v),
    {
        ApIdr(set_field32_u16(self.0, 17, 0x7ff, v))
    }

    pub fn revision(&self) -> (r: u8)
        ensures
            r == field32_u8(self.0, 28, 0xf),
            r <= 0xf,
    {
        get_field32_u8(self.0, 28, 0xf)
    }

    pub fn with_revision(self, v: u8) -> (r: Self)
        requires
            v <= 0xf,
        ensures
            r.0 == with_field32_u8(self.0, 28, 0xf, v),
    {
        ApIdr(set_field32_u8(self.0, 28, 0xf, v))
    }

}

impl From<u32> for ApIdr {
    fn from(v: u32) -> (r: Self) {
        ApIdr(v)
    }
}

impl FromSpecImpl<u32> for ApIdr {
    open spec fn obeys_from_spec() -> bool {
        true
    }

    open spec fn from_spec(v: u32) -> Self {
        ApIdr(v)
    }
}

impl From<ApIdr> for u32 {
    fn from(v: ApIdr) -> (r: u32) {
        v.0
    }
}

impl FromSpecImpl<ApIdr> for u32 {
    open spec fn obeys_from_spec() -> bool {
        true
    }

    open spec fn from_spec(v: ApIdr) -> u32 {
        v.0
    }
}

/// ADIv5 AP class.
#[derive(Clone, Copy, Debug, PartialEq, Eq, Structural)]
pub enum ApClass {
    Undefined,
    ComAp,
    MemAp,
    Reserved(u8),
}

pub open spec fn spec_ap_class_from(b: u8) -> ApClass {
    if b == 0 {
        ApClass::Undefined
    } else if b == 1 {
        ApClass::ComAp
    } else if b == 8 {
        ApClass::MemAp
    } else {
        ApClass::Reserved(b)
    }
}

pub open spec fn spec_ap_class_byte(c: ApClass) -> u8 {
    match c {
        ApClass::Undefined => 0,
        ApClass::ComAp => 1,
        ApClass::MemAp => 8,
        ApClass::Reserved(b) => b,
    }
}

impl ApClass {
    pub fn from_primitive(b: u8) -> (r: Self)
        ensures
            r == spec_ap_class_from(b),
    {
        match b {
            0 => ApClass::Undefined,
            1 => ApClass::ComAp,
            8 => ApClass::MemAp,
            _ => ApClass::Reserved(b),
        }
    }

    pub fn to_u8(self) -> (r: u8)
        ensures
            r == spec_ap_class_byte(self),
    {
        match self {
            ApClass::Undefined => 0,
            ApClass::ComAp => 1,
            ApClass::MemAp => 8,
            ApClass::Reserved(b) => b,
        }
    }
}

/// Bus/connection associated with an AP.
#[allow(non_camel_case_types)]
#[derive(Clone, Copy, Debug, PartialEq, Eq, Structural)]
pub enum ApType {
    Jtag,
    ComAp,
    Ahb3,
    Apb2_Apb3,
    Axi3_Axi4,
    Ahb5,
    Apb4_Apb5,
    Axi5,
    Axi5Enh,
    Unknown(u8, ApClass),
}

/// The bus that an AP type field and class name.
pub open spec fn spec_ap_type(ty: u8, class: ApClass) -> ApType {
    match class {
        ApClass::Undefined => if ty == 0 {
            ApType::Jtag
        } else {
            ApType::Unknown(ty, class)
        },
        ApClass::ComAp => if ty == 0 {
            ApType::ComAp
        } else {
            ApType::Unknown(ty, class)
        },
        ApClass::MemAp => if ty == 1 {
            ApType::Ahb3
        } else if ty == 2 {
            ApType::Apb2_Apb3
        } else if ty == 4 {
            ApType::Axi3_Axi4
        } else if ty == 5 {
            ApType::Ahb5
        } else if ty == 6 {
            ApType::Apb4_Apb5
        } else if ty == 7 {
            ApType::Axi5
        } else if ty == 8 {
            ApType::Axi5Enh
        } else {
            ApType::Unknown(ty, class)
        },
        ApClass::Reserved(_) => ApType::Unknown(ty, class),
    }
}

impl ApType {
    pub fn from_type_class(ty: u8, class: ApClass) -> (r: Self)
        ensures
            r == spec_ap_type(ty, class),
    {
        match (ty, class) {
            (0x0, ApClass::Undefined) => ApType::Jtag,
            (0x0, ApClass::ComAp) => ApType::ComAp,
            (0x1, ApClass::MemAp) => ApType::Ahb3,
            (0x2, ApClass::MemAp) => ApType::Apb2_Apb3,
            (0x4, ApClass::MemAp) => ApType::Axi3_Axi4,
            (0x5, ApClass::MemAp) => ApType::Ahb5,
            (0x6, ApClass::MemAp) => ApType::Apb4_Apb5,
            (0x7, ApClass::MemAp) => ApType::Axi5,
            (0x8, ApClass::MemAp) => ApType::Axi5Enh,
            (_, _) => ApType::Unknown(ty, class),
        }
    }
}

impl ApIdr {
    pub fn ap_class(&self) -> (r: ApClass)
        ensures
            r == spec_ap_class_from(field32_u8(self.0, 13, 0xf)),
    {
        ApClass::from_primitive(self.class())
    }

    pub fn ap_type(&self) -> (r: ApType)
        ensures
            r == spec_ap_type(
                field32_u8(self.0, 0, 0xf),
                spec_ap_class_from(field32_u8(self.0, 13, 0xf)),
            ),
    {
        ApType::from_type_class(self.ty(), self.ap_class())
    }

    /// The JEP106 identity code: the low 7 bits of the designer field.
    pub fn jep106(&self) -> (r: u8)
        ensures
            r == (field32_u16(self.0, 17, 0x7ff) & 0x7f) as u8,
    {
        (self.designer() & 0b000_0111_1111) as u8
    }
}

} // verus!
