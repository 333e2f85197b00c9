//! AArch64 instruction and system register encodings used while debugging a
//! core.

use vstd::prelude::*;
use vstd::std_specs::convert::FromSpecImpl;
use crate::bits::{
    field16_u8, with_field16_u8, get_field16_u8, set_field16_u8, field32_u8, field32_u16,
    with_field32_u8, with_field32_u16, get_field32_u8, get_field32_u16, set_field32_u8,
    set_field32_u16,
};

verus! {

/// Encodings of a few instructions.
pub struct Aarch64Enc;

impl Aarch64Enc {
    pub const DSB_SY: u32 = 0xd5033f9f;
    pub const ISB: u32 = 0xd5033fdf;
    pub const IC_IALLU: u32 = 0xd508751f;
    pub const HLT_0: u32 = 0xd4400000;
    pub const HLT_DEAD: u32 = 0xd45bd5a0;
}

/// A core register.
pub enum Aarch64Reg {
    Gpr(Gpr),
    Sp,
    Pc,
}

/// Exception class (the `EC` field of an exception syndrome).
#[derive(Clone, Copy, Debug, PartialEq, Eq, Structural)]
pub enum ExceptionClass {
    Unknown,
    TrapWfiWfe,
    TrapMcrMrc,
    TrapMcrrMrrc,
    IllExecState,
    DataAbort,
    SpAlignFault,
    SErrorInt,
    Undef(u8),
}

/// The value that `v` names; a number that names none is kept in `Undef`.
pub open spec fn spec_exceptionclass_from(v: u8) -> ExceptionClass {
    if v == 0x0 {
        ExceptionClass::Unknown
    } else if v == 0x1 {
        ExceptionClass::TrapWfiWfe
    } else if v == 0x3 {
        ExceptionClass::TrapMcrMrc
    } else if v == 0x4 {
        ExceptionClass::TrapMcrrMrrc
    } else if v == 0xe {
        ExceptionClass::IllExecState
    } else if v == 0x25 {
        ExceptionClass::DataAbort
    } else if v == 0x26 {
        ExceptionClass::SpAlignFault
    } else if v == 0x2f {
        ExceptionClass::SErrorInt
    } else {
        ExceptionClass::Undef(v)
    }
}

pub open spec fn spec_exceptionclass_value(e: ExceptionClass) -> u8 {
    match e {
        ExceptionClass::Unknown => 0x0,
        ExceptionClass::TrapWfiWfe => 0x1,
        ExceptionClass::TrapMcrMrc => 0x3,
        ExceptionClass::TrapMcrrMrrc => 0x4,
        ExceptionClass::IllExecState => 0xe,
        ExceptionClass::DataAbort => 0x25,
        ExceptionClass::SpAlignFault => 0x26,
        ExceptionClass::SErrorInt => 0x2f,
        ExceptionClass::Undef(v) => v,
    }
}

impl ExceptionClass {
    pub fn from_primitive(v: u8) -> (r: Self)
        ensures
            r == spec_exceptionclass_from(v),
    {
        match v {
            0x0 => ExceptionClass::Unknown,
            0x1 => ExceptionClass::TrapWfiWfe,
            0x3 => ExceptionClass::TrapMcrMrc,
            0x4 => ExceptionClass::TrapMcrrMrrc,
            0xe => ExceptionClass::IllExecState,
            0x25 => ExceptionClass::DataAbort,
            0x26 => ExceptionClass::SpAlignFault,
            0x2f => ExceptionClass::SErrorInt,
            _ => ExceptionClass::Undef(v),
        }
    }

    pub fn to_primitive(self) -> (r: u8)
        ensures
            r == spec_exceptionclass_value(self),
    {
        match self {
            ExceptionClass::Unknown => 0x0,
            ExceptionClass::TrapWfiWfe => 0x1,
            ExceptionClass::TrapMcrMrc => 0x3,
            ExceptionClass::TrapMcrrMrrc => 0x4,
            ExceptionClass::IllExecState => 0xe,
            ExceptionClass::DataAbort => 0x25,
            ExceptionClass::SpAlignFault => 0x26,
            ExceptionClass::SErrorInt => 0x2f,
            ExceptionClass::Undef(v) => v,
        }
    }
}

impl From<u8> for ExceptionClass {
    fn from(v: u8) -> (r: Self) {
        Self::from_primitive(v)
    }
}

impl FromSpecImpl<u8> for ExceptionClass {
    open spec fn obeys_from_spec() -> bool {
        true
    }

    open spec fn from_spec(v: u8) -> Self {
        spec_exceptionclass_from(v)
    }
}

impl From<ExceptionClass> for u8 {
    fn from(v: ExceptionClass) -> (r: u8) {
        v.to_primitive()
    }
}

impl FromSpecImpl<ExceptionClass> for u8 {
    open spec fn obeys_from_spec() -> bool {
        true
    }

    open spec fn from_spec(v: ExceptionClass) -> u8 {
        spec_exceptionclass_value(v)
    }
}

/// Reading any number as a `ExceptionClass` and writing it back gives the number.
pub proof fn lemma_exceptionclass_roundtrip(v: u8)
    ensures
        spec_exceptionclass_value(spec_exceptionclass_from(v)) == v,
{
}

/// A general-purpose register, by its number.
#[allow(non_camel_case_types)]
#[derive(Clone, Copy, Debug, PartialEq, Eq, Structural)]
pub enum Gpr {
    x0,
    x1,
    x2,
    x3,
    x4,
    x5,
    x6,
    x7,
    x8,
    x9,
    x10,
    x11,
    x12,
    x13,
    x14,
    x15,
    x16,
    x17,
    x18,
    x19,
    x20,
    x21,
    x22,
    x23,
    x24,
    x25,
    x26,
    x27,
    x28,
    x29,
    x30,
    Undef(u8),
}

/// The value that `v` names; a number that names none is kept in `Undef`.
pub open spec fn spec_gpr_from(v: u8) -> Gpr {
    if v == 0x0 {
        Gpr::x0
    } else if v == 0x1 {
        Gpr::x1
    } else if v == 0x2 {
        Gpr::x2
    } else if v == 0x3 {
        Gpr::x3
    } else if v == 0x4 {
        Gpr::x4
    } else if v == 0x5 {
        Gpr::x5
    } else if v == 0x6 {
        Gpr::x6
    } else if v == 0x7 {
        Gpr::x7
    } else if v == 0x8 {
        Gpr::x8
    } else if v == 0x9 {
        Gpr::x9
    } else if v == 0xa {
        Gpr::x10
    } else if v == 0xb {
        Gpr::x11
    } else if v == 0xc {
        Gpr::x12
    } else if v == 0xd {
        Gpr::x13
    } else if v == 0xe {
        Gpr::x14
    } else if v == 0xf {
        Gpr::x15
    } else if v == 0x10 {
        Gpr::x16
    } else if v == 0x11 {
        Gpr::x17
    } else if v == 0x12 {
        Gpr::x18
    } else if v == 0x13 {
        Gpr::x19
    } else if v == 0x14 {
        Gpr::x20
    } else if v == 0x15 {
        Gpr::x21
    } else if v == 0x16 {
        Gpr::x22
    } else if v == 0x17 {
        Gpr::x23
    } else if v == 0x18 {
        Gpr::x24
    } else if v == 0x19 {
        Gpr::x25
    } else if v == 0x1a {
        Gpr::x26
    } else if v == 0x1b {
        Gpr::x27
    } else if v == 0x1c {
        Gpr::x28
    } else if v == 0x1d {
        Gpr::x29
    } else if v == 0x1e {
        Gpr::x30
    } else {
        Gpr::Undef(v)
    }
}

pub open spec fn spec_gpr_value(e: Gpr) -> u8 {
    match e {
        Gpr::x0 => 0x0,
        Gpr::x1 => 0x1,
        Gpr::x2 => 0x2,
        Gpr::x3 => 0x3,
        Gpr::x4 => 0x4,
        Gpr::x5 => 0x5,
        Gpr::x6 => 0x6,
        Gpr::x7 => 0x7,
        Gpr::x8 => 0x8,
        Gpr::x9 => 0x9,
        Gpr::x10 => 0xa,
        Gpr::x11 => 0xb,
        Gpr::x12 => 0xc,
        Gpr::x13 => 0xd,
        Gpr::x14 => 0xe,
        Gpr::x15 => 0xf,
        Gpr::x16 => 0x10,
        Gpr::x17 => 0x11,
        Gpr::x18 => 0x12,
        Gpr::x19 => 0x13,
        Gpr::x20 => 0x14,
        Gpr::x21 => 0x15,
        Gpr::x22 => 0x16,
        Gpr::x23 => 0x17,
        Gpr::x24 => 0x18,
        Gpr::x25 => 0x19,
        Gpr::x26 => 0x1a,
        Gpr::x27 => 0x1b,
        Gpr::x28 => 0x1c,
        Gpr::x29 => 0x1d,
        Gpr::x30 => 0x1e,
        Gpr::Undef(v) => v,
    }
}

impl Gpr {
    pub fn from_primitive(v: u8) -> (r: Self)
        ensures
            r == spec_gpr_from(v),
    {
        match v {
            0x0 => Gpr::x0,
            0x1 => Gpr::x1,
            0x2 => Gpr::x2,
            0x3 => Gpr::x3,
            0x4 => Gpr::x4,
            0x5 => Gpr::x5,
            0x6 => Gpr::x6,
            0x7 => Gpr::x7,
            0x8 => Gpr::x8,
            0x9 => Gpr::x9,
            0xa => Gpr::x10,
            0xb => Gpr::x11,
            0xc => Gpr::x12,
            0xd => Gpr::x13,
            0xe => Gpr::x14,
            0xf => Gpr::x15,
            0x10 => Gpr::x16,
            0x11 => Gpr::x17,
            0x12 => Gpr::x18,
            0x13 => Gpr::x19,
            0x14 => Gpr::x20,
            0x15 => Gpr::x21,
            0x16 => Gpr::x22,
            0x17 => Gpr::x23,
            0x18 => Gpr::x24,
            0x19 => Gpr::x25,
            0x1a => Gpr::x26,
            0x1b => Gpr::x27,
            0x1c => Gpr::x28,
            0x1d => Gpr::x29,
            0x1e => Gpr::x30,
            _ => Gpr::Undef(v),
        }
    }

    pub fn to_primitive(self) -> (r: u8)
        ensures
            r == spec_gpr_value(self),
    {
        match self {
            Gpr::x0 => 0x0,
            Gpr::x1 => 0x1,
            Gpr::x2 => 0x2,
            Gpr::x3 => 0x3,
            Gpr::x4 => 0x4,
            Gpr::x5 => 0x5,
            Gpr::x6 => 0x6,
            Gpr::x7 => 0x7,
            Gpr::x8 => 0x8,
            Gpr::x9 => 0x9,
            Gpr::x10 => 0xa,
            Gpr::x11 => 0xb,
            Gpr::x12 => 0xc,
            Gpr::x13 => 0xd,
            Gpr::x14 => 0xe,
            Gpr::x15 => 0xf,
            Gpr::x16 => 0x10,
            Gpr::x17 => 0x11,
            Gpr::x18 => 0x12,
            Gpr::x19 => 0x13,
            Gpr::x20 => 0x14,
            Gpr::x21 => 0x15,
            Gpr::x22 => 0x16,
            Gpr::x23 => 0x17,
            Gpr::x24 => 0x18,
            Gpr::x25 => 0x19,
            Gpr::x26 => 0x1a,
            Gpr::x27 => 0x1b,
            Gpr::x28 => 0x1c,
            Gpr::x29 => 0x1d,
            Gpr::x30 => 0x1e,
            Gpr::Undef(v) => v,
        }
    }
}

impl From<u8> for Gpr {
    fn from(v: u8) -> (r: Self) {
        Self::from_primitive(v)
    }
}

impl FromSpecImpl<u8> for Gpr {
    open spec fn obeys_from_spec() -> bool {
        true
    }

    open spec fn from_spec(v: u8) -> Self {
        spec_gpr_from(v)
    }
}

impl From<Gpr> for u8 {
    fn from(v: Gpr) -> (r: u8) {
        v.to_primitive()
    }
}

impl FromSpecImpl<Gpr> for u8 {
    open spec fn obeys_from_spec() -> bool {
        true
    }

    open spec fn from_spec(v: Gpr) -> u8 {
        spec_gpr_value(v)
    }
}

/// Reading any number as a `Gpr` and writing it back gives the number.
pub proof fn lemma_gpr_roundtrip(v: u8)
    ensures
        spec_gpr_value(spec_gpr_from(v)) == v,
{
}

/// System register encoding: `op0:op1:CRn:CRm:op2` in 16 bits.
#[derive(Clone, Copy, Debug, PartialEq, Eq, Structural)]
pub struct SysregEnc(pub u16);

impl SysregEnc {
    /// All fields zero.
    pub fn new() -> (r: Self)
        ensures
            r.0 == 0,
    {
        SysregEnc(0)
    }

    pub fn op2(&self) -> (r: u8)
        ensures
            r == field16_u8(self.0, 0, 0x7),
            r <= 0x7,
    {
        get_field16_u8(self.0, 0, 0x7)
    }

    pub fn with_op2(self, v: u8) -> (r: Self)
        requires
            v <= 0x7,
        ensures
            r.0 == with_field16_u8(self.0, 0, 0x7, v),
    {
        SysregEnc(set_field16_u8(self.0, 0, 0x7, v))
    }

    pub fn crm(&self) -> (r: u8)
        ensures
            r == field16_u8(self.0, 3, 0xf),
            r <= 0xf,
    {
        get_field16_u8(self.0, 3, 0xf)
    }

    pub fn with_crm(self, v: u8) -> (r: Self)
        requires
            v <= 0xf,
        ensures
            r.0 == with_field16_u8(self.0, 3, 0xf, v),
    {
        SysregEnc(set_field16_u8(self.0, 3, 0xf, v))
    }

    pub fn crn(&self) -> (r: u8)
        ensures
            r == field16_u8(self.0, 7, 0xf),
            r <= 0xf,
    {
        get_field16_u8(self.0, 7, 0xf)
    }

    pub fn with_crn(self, v: u8) -> (r: Self)
        requires
            v <= 0xf,
        ensures
            r.0 == with_field16_u8(self.0, 7, 0xf, v),
    {
        SysregEnc(set_field16_u8(self.0, 7, 0xf, v))
    }

    pub fn op1(&self) -> (r: u8)
        ensures
            r == field16_u8(self.0, 11, 0x7),
            r <= 0x7,
    {
        get_field16_u8(self.0, 11, 0x7)
    }

    pub fn with_op1(self, v: u8) -> (r: Self)
        requires
            v <= 0x7,
        ensures
            r.0 == with_field16_u8(self.0, 11, 0x7, v),
    {
        SysregEnc(set_field16_u8(self.0, 11, 0x7, v))
    }

    pub fn op0(&self) -> (r: u8)
        ensures
            r == field16_u8(self.0, 14, 0x3),
            r <= 0x3,
    {
        get_field16_u8(self.0, 14, 0x3)
    }

    pub fn with_op0(self, v: u8) -> (r: Self)
        requires
            v <= 0x3,
        ensures
            r.0 == with_field16_u8(self.0, 14, 0x3, v),
    {
        SysregEnc(set_field16_u8(self.0, 14, 0x3, v))
    }

}

impl From<u16> for SysregEnc {
    fn from(v: u16) -> (r: Self) {
        SysregEnc(v)
    }
}

impl FromSpecImpl<u16> for SysregEnc {
    open spec fn obeys_from_spec() -> bool {
        true
    }

    open spec fn from_spec(v: u16) -> Self {
        SysregEnc(v)
    }
}

impl From<SysregEnc> for u16 {
    fn from(v: SysregEnc) -> (r: u16) {
        v.0
    }
}

impl FromSpecImpl<SysregEnc> for u16 {
    open spec fn obeys_from_spec() -> bool {
        true
    }

    open spec fn from_spec(v: SysregEnc) -> u16 {
        v.0
    }
}

/// A system register, by its 16-bit encoding.
#[allow(non_camel_case_types)]
#[derive(Clone, Copy, Debug, PartialEq, Eq, Structural)]
pub enum Sysreg {
    DBG_DTR_EL0,
    DBG_DTR_RXTX_EL0,
    ID_AA64DFR0_EL1,
    ID_AA64DFR1_EL1,
    DLR_EL0,
    DS_PSR_EL0,
    SCTLR_EL3,
    SCR_EL3,
    TTBR0_EL3,
    TCR_EL3,
    ESR_EL3,
    FAR_EL3,
    MAIR_EL3,
    VBAR_EL3,
    RVBAR_EL3,
    RMR_EL3,
    IDATA0_EL3,
    IDATA1_EL3,
    IDATA2_EL3,
    DDATA0_EL3,
    DDATA1_EL3,
    DDATA2_EL3,
    RAMINDEX,
    Undefined(u16),
}

/// The value that `v` names; a number that names none is kept in `Undefined`.
pub open spec fn spec_sysreg_from(v: u16) -> Sysreg {
    if v == 0x9820 {
        Sysreg::DBG_DTR_EL0
    } else if v == 0x9828 {
        Sysreg::DBG_DTR_RXTX_EL0
    } else if v == 0xc028 {
        Sysreg::ID_AA64DFR0_EL1
    } else if v == 0xc029 {
        Sysreg::ID_AA64DFR1_EL1
    } else if v == 0xda29 {
        Sysreg::DLR_EL0
    } else if v == 0xda28 {
        Sysreg::DS_PSR_EL0
    } else if v == 0xf080 {
        Sysreg::SCTLR_EL3
    } else if v == 0xf088 {
        Sysreg::SCR_EL3
    } else if v == 0xf100 {
        Sysreg::TTBR0_EL3
    } else if v == 0xf102 {
        Sysreg::TCR_EL3
    } else if v == 0xf290 {
        Sysreg::ESR_EL3
    } else if v == 0xf300 {
        Sysreg::FAR_EL3
    } else if v == 0xf510 {
        Sysreg::MAIR_EL3
    } else if v == 0xf600 {
        Sysreg::VBAR_EL3
    } else if v == 0xf601 {
        Sysreg::RVBAR_EL3
    } else if v == 0xf602 {
        Sysreg::RMR_EL3
    } else if v == 0xf780 {
        Sysreg::IDATA0_EL3
    } else if v == 0xf781 {
        Sysreg::IDATA1_EL3
    } else if v == 0xf782 {
        Sysreg::IDATA2_EL3
    } else if v == 0xf788 {
        Sysreg::DDATA0_EL3
    } else if v == 0xf789 {
        Sysreg::DDATA1_EL3
    } else if v == 0xf78a {
        Sysreg::DDATA2_EL3
    } else if v == 0x7780 {
        Sysreg::RAMINDEX
    } else {
        Sysreg::Undefined(v)
    }
}

pub open spec fn spec_sysreg_value(e: Sysreg) -> u16 {
    match e {
        Sysreg::DBG_DTR_EL0 => 0x9820,
        Sysreg::DBG_DTR_RXTX_EL0 => 0x9828,
        Sysreg::ID_AA64DFR0_EL1 => 0xc028,
        Sysreg::ID_AA64DFR1_EL1 => 0xc029,
        Sysreg::DLR_EL0 => 0xda29,
        Sysreg::DS_PSR_EL0 => 0xda28,
        Sysreg::SCTLR_EL3 => 0xf080,
        Sysreg::SCR_EL3 => 0xf088,
        Sysreg::TTBR0_EL3 => 0xf100,
        Sysreg::TCR_EL3 => 0xf102,
        Sysreg::ESR_EL3 => 0xf290,
        Sysreg::FAR_EL3 => 0xf300,
        Sysreg::MAIR_EL3 => 0xf510,
        Sysreg::VBAR_EL3 => 0xf600,
        Sysreg::RVBAR_EL3 => 0xf601,
        Sysreg::RMR_EL3 => 0xf602,
        Sysreg::IDATA0_EL3 => 0xf780,
        Sysreg::IDATA1_EL3 => 0xf781,
        Sysreg::IDATA2_EL3 => 0xf782,
        Sysreg::DDATA0_EL3 => 0xf788,
        Sysreg::DDATA1_EL3 => 0xf789,
        Sysreg::DDATA2_EL3 => 0xf78a,
        Sysreg::RAMINDEX => 0x7780,
        Sysreg::Undefined(v) => v,
    }
}

impl Sysreg {
    pub fn from_primitive(v: u16) -> (r: Self)
        ensures
            r == spec_sysreg_from(v),
    {
        match v {
            0x9820 => Sysreg::DBG_DTR_EL0,
            0x9828 => Sysreg::DBG_DTR_RXTX_EL0,
            0xc028 => Sysreg::ID_AA64DFR0_EL1,
            0xc029 => Sysreg::ID_AA64DFR1_EL1,
            0xda29 => Sysreg::DLR_EL0,
            0xda28 => Sysreg::DS_PSR_EL0,
            0xf080 => Sysreg::SCTLR_EL3,
            0xf088 => Sysreg::SCR_EL3,
            0xf100 => Sysreg::TTBR0_EL3,
            0xf102 => Sysreg::TCR_EL3,
            0xf290 => Sysreg::ESR_EL3,
            0xf300 => Sysreg::FAR_EL3,
            0xf510 => Sysreg::MAIR_EL3,
            0xf600 => Sysreg::VBAR_EL3,
            0xf601 => Sysreg::RVBAR_EL3,
            0xf602 => Sysreg::RMR_EL3,
            0xf780 => Sysreg::IDATA0_EL3,
            0xf781 => Sysreg::IDATA1_EL3,
            0xf782 => Sysreg::IDATA2_EL3,
            0xf788 => Sysreg::DDATA0_EL3,
            0xf789 => Sysreg::DDATA1_EL3,
            0xf78a => Sysreg::DDATA2_EL3,
            0x7780 => Sysreg::RAMINDEX,
            _ => Sysreg::Undefined(v),
        }
    }

    pub fn to_primitive(self) -> (r: u16)
        ensures
            r == spec_sysreg_value(self),
    {
        match self {
            Sysreg::DBG_DTR_EL0 => 0x9820,
            Sysreg::DBG_DTR_RXTX_EL0 => 0x9828,
            Sysreg::ID_AA64DFR0_EL1 => 0xc028,
            Sysreg::ID_AA64DFR1_EL1 => 0xc029,
            Sysreg::DLR_EL0 => 0xda29,
            Sysreg::DS_PSR_EL0 => 0xda28,
            Sysreg::SCTLR_EL3 => 0xf080,
            Sysreg::SCR_EL3 => 0xf088,
            Sysreg::TTBR0_EL3 => 0xf100,
            Sysreg::TCR_EL3 => 0xf102,
            Sysreg::ESR_EL3 => 0xf290,
            Sysreg::FAR_EL3 => 0xf300,
            Sysreg::MAIR_EL3 => 0xf510,
            Sysreg::VBAR_EL3 => 0xf600,
            Sysreg::RVBAR_EL3 => 0xf601,
            Sysreg::RMR_EL3 => 0xf602,
            Sysreg::IDATA0_EL3 => 0xf780,
            Sysreg::IDATA1_EL3 => 0xf781,
            Sysreg::IDATA2_EL3 => 0xf782,
            Sysreg::DDATA0_EL3 => 0xf788,
            Sysreg::DDATA1_EL3 => 0xf789,
            Sysreg::DDATA2_EL3 => 0xf78a,
            Sysreg::RAMINDEX => 0x7780,
            Sysreg::Undefined(v) => v,
        }
    }
}

impl From<u16> for Sysreg {
    fn from(v: u16) -> (r: Self) {
        Self::from_primitive(v)
    }
}

impl FromSpecImpl<u16> for Sysreg {
    open spec fn obeys_from_spec() -> bool {
        true
    }

    open spec fn from_spec(v: u16) -> Self {
        spec_sysreg_from(v)
    }
}

impl From<Sysreg> for u16 {
    fn from(v: Sysreg) -> (r: u16) {
        v.to_primitive()
    }
}

impl FromSpecImpl<Sysreg> for u16 {
    open spec fn obeys_from_spec() -> bool {
        true
    }

    open spec fn from_spec(v: Sysreg) -> u16 {
        spec_sysreg_value(v)
    }
}

/// Reading any number as a `Sysreg` and writing it back gives the number.
pub proof fn lemma_sysreg_roundtrip(v: u16)
    ensures
        spec_sysreg_value(spec_sysreg_from(v)) == v,
{
}

/// An `MRS`/`MSR` instruction word.
#[derive(Clone, Copy, Debug, PartialEq, Eq, Structural)]
pub struct SysregOp(pub u32);

impl SysregOp {
    /// All fields zero.
    pub fn new() -> (r: Self)
        ensures
            r.0 == 0,
    {
        SysregOp(0)
    }

    pub fn rt(&self) -> (r: u8)
        ensures
            r == field32_u8(self.0, 0, 0x1f),
            r <= 0x1f,
    {
        get_field32_u8(self.0, 0, 0x1f)
    }

    pub fn with_rt(self, v: u8) -> (r: Self)
        requires
            v <= 0x1f,
        ensures
            r.0 == with_field32_u8(self.0, 0, 0x1f, v),
    {
        SysregOp(set_field32_u8(self.0, 0, 0x1f, v))
    }

    pub fn op2(&self) -> (r: u8)
        ensures
            r == field32_u8(self.0, 5, 0x7),
            r <= 0x7,
    {
        get_field32_u8(self.0, 5, 0x7)
    }

    pub fn with_op2(self, v: u8) -> (r: Self)
        requires
            v <= 0x7,
        ensures
            r.0 == with_field32_u8(self.0, 5, 0x7, v),
    {
        SysregOp(set_field32_u8(self.0, 5, 0x7, v))
    }

    pub fn crm(&self) -> (r: u8)
        ensures
            r == field32_u8(self.0, 8, 0xf),
            r <= 0xf,
    {
        get_field32_u8(self.0, 8, 0xf)
    }

    pub fn with_crm(self, v: u8) -> (r: Self)
        requires
            v <= 0xf,
        ensures
            r.0 == with_field32_u8(self.0, 8, 0xf, v),
    {
        SysregOp(set_field32_u8(self.0, 8, 0xf, v))
    }

    pub fn crn(&self) -> (r: u8)
        ensures
            r == field32_u8(self.0, 12, 0xf),
            r <= 0xf,
    {
        get_field32_u8(self.0, 12, 0xf)
    }

    pub fn with_crn(self, v: u8) -> (r: Self)
        requires
            v <= 0xf,
        ensures
            r.0 == with_field32_u8(self.0, 12, 0xf, v),
    {
        SysregOp(set_field32_u8(self.0, 12, 0xf, v))
    }

    pub fn op1(&self) -> (r: u8)
        ensures
            r == field32_u8(self.0, 16, 0x7),
            r <= 0x7,
    {
        get_field32_u8(self.0, 16, 0x7)
    }

    pub fn with_op1(self, v: u8) -> (r: Self)
        requires
            v <= 0x7,
        ensures
            r.0 == with_field32_u8(self.0, 16, 0x7, v),
    {
        SysregOp(set_field32_u8(self.0, 16, 0x7, v))
    }

    pub fn op0(&self) -> (r: u8)
        ensures
            r == field32_u8(self.0, 19, 0x3),
            r <= 0x3,
    {
        get_field32_u8(self.0, 19, 0x3)
    }

    pub fn with_op0(self, v: u8) -> (r: Self)
        requires
            v <= 0x3,
        ensures
            r.0 == with_field32_u8(self.0, 19, 0x3, v),
    {
        SysregOp(set_field32_u8(self.0, 19, 0x3, v))
    }

    pub fn l(&self) -> (r: u8)
        ensures
            r == field32_u8(self.0, 21, 0x1),
            r <= 0x1,
    {
        get_field32_u8(self.0, 21, 0x1)
    }

    pub fn with_l(self, v: u8) -> (r: Self)
        requires
            v <= 0x1,
        ensures
            r.0 == with_field32_u8(self.0, 21, 0x1, v),
    {
        SysregOp(set_field32_u8(self.0, 21, 0x1, v))
    }

    pub fn opcd(&self) -> (r: u16)
        ensures
            r == field32_u16(self.0, 22, 0x3ff),
            r <= 0x3ff,
    {
        get_field32_u16(self.0, 22, 0x3ff)
    }

    pub fn with_opcd(self, v: u16) -> (r: Self)
        requires
            v <= 0x3ff,
        ensures
            r.0 == with_field32_u16(self.0, 22, 0x3ff, v),
    {
        SysregOp(set_field32_u16(self.0, 22, 0x3ff, v))
    }

}

impl From<u32> for SysregOp {
    fn from(v: u32) -> (r: Self) {
        SysregOp(v)
    }
}

impl FromSpecImpl<u32> for SysregOp {
    open spec fn obeys_from_spec() -> bool {
        true
    }

    open spec fn from_spec(v: u32) -> Self {
        SysregOp(v)
    }
}

impl From<SysregOp> for u32 {
    fn from(v: SysregOp) -> (r: u32) {
        v.0
    }
}

impl FromSpecImpl<SysregOp> for u32 {
    open spec fn obeys_from_spec() -> bool {
        true
    }

    open spec fn from_spec(v: SysregOp) -> u32 {
        v.0
    }
}

/// The 16-bit encoding of `op0:op1:CRn:CRm:op2`, each field cut to its width.
pub open spec fn spec_sysreg_enc(op0: u8, op1: u8, crn: u8, crm: u8, op2: u8) -> u16 {
    ((op2 & 0x7) as u16) | (((crm & 0xf) as u16) << 3u16) | (((crn & 0xf) as u16) << 7u16) | (((op1
        & 0x7) as u16) << 11u16) | (((op0 & 0x3) as u16) << 14u16)
}

impl SysregEnc {
    /// The encoding of `op0:op1:CRn:CRm:op2`; each field is cut to its width.
    pub fn enc(op0: u8, op1: u8, crn: u8, crm: u8, op2: u8) -> (r: u16)
        ensures
            r == spec_sysreg_enc(op0, op1, crn, crm, op2),
    {
        let mut x: u16 = 0;
        x = x | ((op2 & 0b111) as u16);
        x = x | (((crm & 0b1111) as u16) << 3u16);
        x = x | (((crn & 0b1111) as u16) << 7u16);
        x = x | (((op1 & 0b111) as u16) << 11u16);
        x = x | (((op0 & 0b11) as u16) << 14u16);
        assert(x == spec_sysreg_enc(op0, op1, crn, crm, op2)) by (bit_vector)
            requires
                x == (((((0u16 | ((op2 & 0b111) as u16)) | (((crm & 0b1111) as u16) << 3u16)) | (((crn
                    & 0b1111) as u16) << 7u16)) | (((op1 & 0b111) as u16) << 11u16)) | (((op0
                    & 0b11) as u16) << 14u16)),
        ;
        x
    }

    pub fn from_enc(op0: u8, op1: u8, crn: u8, crm: u8, op2: u8) -> (r: Self)
        ensures
            r.0 == spec_sysreg_enc(op0, op1, crn, crm, op2),
    {
        SysregEnc(Self::enc(op0, op1, crn, crm, op2))
    }

    /// The system register this encoding names.
    pub fn as_sysreg(self) -> (r: Sysreg)
        ensures
            r == spec_sysreg_from(self.0),
    {
        Sysreg::from_primitive(self.0)
    }
}

/// An encoding keeps each of the fields it was made from, cut to its width.
pub proof fn lemma_sysreg_enc_fields(op0: u8, op1: u8, crn: u8, crm: u8, op2: u8)
    ensures
        field16_u8(spec_sysreg_enc(op0, op1, crn, crm, op2), 0, 0x7) == op2 & 0x7,
        field16_u8(spec_sysreg_enc(op0, op1, crn, crm, op2), 3, 0xf) == crm & 0xf,
        field16_u8(spec_sysreg_enc(op0, op1, crn, crm, op2), 7, 0xf) == crn & 0xf,
        field16_u8(spec_sysreg_enc(op0, op1, crn, crm, op2), 11, 0x7) == op1 & 0x7,
        field16_u8(spec_sysreg_enc(op0, op1, crn, crm, op2), 14, 0x3) == op0 & 0x3,
{
    let e = spec_sysreg_enc(op0, op1, crn, crm, op2);
    assert((e >> 0u16) & 0x7 == (op2 & 0x7) as u16 && (e >> 3u16) & 0xf == (crm & 0xf) as u16 && (e
        >> 7u16) & 0xf == (crn & 0xf) as u16 && (e >> 11u16) & 0x7 == (op1 & 0x7) as u16 && (e
        >> 14u16) & 0x3 == (op0 & 0x3) as u16) by (bit_vector)
        requires
            e == ((op2 & 0x7) as u16) | (((crm & 0xf) as u16) << 3u16) | (((crn & 0xf) as u16)
                << 7u16) | (((op1 & 0x7) as u16) << 11u16) | (((op0 & 0x3) as u16) << 14u16),
    ;
}

impl Sysreg {
    /// The encoding of this register.
    pub fn enc(self) -> (r: SysregEnc)
        ensures
            r.0 == spec_sysreg_value(self),
    {
        SysregEnc(self.to_primitive())
    }
}

/// The name of a known system register.
pub open spec fn spec_sysreg_name(r: Sysreg) -> Seq<char> {
    match r {
        Sysreg::DBG_DTR_EL0 => "DBG_DTR_EL0"@,
        Sysreg::DBG_DTR_RXTX_EL0 => "DBG_DTR_RXTX_EL0"@,
        Sysreg::ID_AA64DFR0_EL1 => "ID_AA64DFR0_EL1"@,
        Sysreg::ID_AA64DFR1_EL1 => "ID_AA64DFR1_EL1"@,
        Sysreg::DLR_EL0 => "DLR_EL0"@,
        Sysreg::DS_PSR_EL0 => "DS_PSR_EL0"@,
        Sysreg::SCTLR_EL3 => "SCTLR_EL3"@,
        Sysreg::SCR_EL3 => "SCR_EL3"@,
        Sysreg::TTBR0_EL3 => "TTBR0_EL3"@,
        Sysreg::TCR_EL3 => "TCR_EL3"@,
        Sysreg::ESR_EL3 => "ESR_EL3"@,
        Sysreg::FAR_EL3 => "FAR_EL3"@,
        Sysreg::MAIR_EL3 => "MAIR_EL3"@,
        Sysreg::VBAR_EL3 => "VBAR_EL3"@,
        Sysreg::RVBAR_EL3 => "RVBAR_EL3"@,
        Sysreg::RMR_EL3 => "RMR_EL3"@,
        Sysreg::IDATA0_EL3 => "IDATA0_EL3"@,
        Sysreg::IDATA1_EL3 => "IDATA1_EL3"@,
        Sysreg::IDATA2_EL3 => "IDATA2_EL3"@,
        Sysreg::DDATA0_EL3 => "DDATA0_EL3"@,
        Sysreg::DDATA1_EL3 => "DDATA1_EL3"@,
        Sysreg::DDATA2_EL3 => "DDATA2_EL3"@,
        Sysreg::RAMINDEX => "RAMINDEX"@,
        Sysreg::Undefined(_) => Seq::empty(),
    }
}

/// The decimal digit `d`.
pub open spec fn spec_digit(d: nat) -> char {
    if d == 0 { '0' } else if d == 1 { '1' } else if d == 2 { '2' } else if d == 3 { '3' }
    else if d == 4 { '4' } else if d == 5 { '5' } else if d == 6 { '6' } else if d == 7 { '7' }
    else if d == 8 { '8' } else { '9' }
}

/// The decimal numeral of `v`, without leading zeros.
pub open spec fn spec_decimal(v: nat) -> Seq<char>
    decreases v,
{
    if v < 10 {
        seq![spec_digit(v)]
    } else {
        spec_decimal(v / 10).push(spec_digit(v % 10))
    }
}

/// How an encoding is written: a known register by its name, any other as
/// `S<op0>_<op1>_c<CRn>_c<CRm>_<op2>`.
pub open spec fn spec_sysreg_text(enc: u16) -> Seq<char> {
    match spec_sysreg_from(enc) {
        Sysreg::Undefined(_) => "S"@ + spec_decimal(field16_u8(enc, 14, 0x3) as nat) + "_"@
            + spec_decimal(field16_u8(enc, 11, 0x7) as nat) + "_c"@ + spec_decimal(
            field16_u8(enc, 7, 0xf) as nat,
        ) + "_c"@ + spec_decimal(field16_u8(enc, 3, 0xf) as nat) + "_"@ + spec_decimal(
            field16_u8(enc, 0, 0x7) as nat,
        ),
        r => spec_sysreg_name(r),
    }
}

/// How an `MRS`/`MSR` instruction word is written in assembly.
pub open spec fn spec_sysreg_op_text(op: u32) -> Seq<char> {
    let rt = spec_decimal(field32_u8(op, 0, 0x1f) as nat);
    let reg = spec_sysreg_text(field32_u16(op, 5, 0xffff));
    if field32_u8(op, 21, 0x1) != 0 {
        "mrs x"@ + rt + ", "@ + reg
    } else {
        "msr "@ + reg + ", x"@ + rt
    }
}

/// The instruction word `rt | enc << 5 | l << 21 | OPCD << 22`.
pub open spec fn spec_sysreg_op(rt: u8, enc: u16, l: u32) -> u32 {
    (rt as u32) | ((enc as u32) << 5u32) | (l << 21u32) | (0x354u32 << 22u32)
}

fn digit_text(d: u8) -> (r: &'static str)
    requires
        d < 10,
    ensures
        r@ == seq![spec_digit(d as nat)],
{
    proof {
        reveal_strlit("0");
        reveal_strlit("1");
        reveal_strlit("2");
        reveal_strlit("3");
        reveal_strlit("4");
        reveal_strlit("5");
        reveal_strlit("6");
        reveal_strlit("7");
        reveal_strlit("8");
        reveal_strlit("9");
    }
    match d {
        0 => "0",
        1 => "1",
        2 => "2",
        3 => "3",
        4 => "4",
        5 => "5",
        6 => "6",
        7 => "7",
        8 => "8",
        _ => "9",
    }
}

/// Appends the decimal numeral of `v` to `s`.
fn append_decimal(s: &mut String, v: u8)
    ensures
        final(s)@ == old(s)@ + spec_decimal(v as nat),
{
    let ghost s0 = s@;
    if v >= 100 {
        let a = v / 100;
        let b = (v / 10) % 10;
        let c = v % 10;
        s.append(digit_text(a));
        s.append(digit_text(b));
        s.append(digit_text(c));
        proof {
            assert((v / 10) / 10 == a);
            assert(spec_decimal(a as nat) == seq![spec_digit(a as nat)]);
            assert(spec_decimal((v / 10) as nat) == spec_decimal(a as nat).push(spec_digit(b as nat)));
            assert(spec_decimal(v as nat) == spec_decimal((v / 10) as nat).push(spec_digit(c as nat)));
            assert(s@ =~= s0 + spec_decimal(v as nat));
        }
    } else if v >= 10 {
        let a = v / 10;
        let c = v % 10;
        s.append(digit_text(a));
        s.append(digit_text(c));
        proof {
            assert(spec_decimal(a as nat) == seq![spec_digit(a as nat)]);
            assert(spec_decimal(v as nat) == spec_decimal(a as nat).push(spec_digit(c as nat)));
            assert(s@ =~= s0 + spec_decimal(v as nat));
        }
    } else {
        s.append(digit_text(v));
    }
}

fn sysreg_name(r: Sysreg) -> (s: &'static str)
    requires
        !(r is Undefined),
    ensures
        s@ == spec_sysreg_name(r),
{
    match r {
            Sysreg::DBG_DTR_EL0 => "DBG_DTR_EL0",
            Sysreg::DBG_DTR_RXTX_EL0 => "DBG_DTR_RXTX_EL0",
            Sysreg::ID_AA64DFR0_EL1 => "ID_AA64DFR0_EL1",
            Sysreg::ID_AA64DFR1_EL1 => "ID_AA64DFR1_EL1",
            Sysreg::DLR_EL0 => "DLR_EL0",
            Sysreg::DS_PSR_EL0 => "DS_PSR_EL0",
            Sysreg::SCTLR_EL3 => "SCTLR_EL3",
            Sysreg::SCR_EL3 => "SCR_EL3",
            Sysreg::TTBR0_EL3 => "TTBR0_EL3",
            Sysreg::TCR_EL3 => "TCR_EL3",
            Sysreg::ESR_EL3 => "ESR_EL3",
            Sysreg::FAR_EL3 => "FAR_EL3",
            Sysreg::MAIR_EL3 => "MAIR_EL3",
            Sysreg::VBAR_EL3 => "VBAR_EL3",
            Sysreg::RVBAR_EL3 => "RVBAR_EL3",
            Sysreg::RMR_EL3 => "RMR_EL3",
            Sysreg::IDATA0_EL3 => "IDATA0_EL3",
            Sysreg::IDATA1_EL3 => "IDATA1_EL3",
            Sysreg::IDATA2_EL3 => "IDATA2_EL3",
            Sysreg::DDATA0_EL3 => "DDATA0_EL3",
            Sysreg::DDATA1_EL3 => "DDATA1_EL3",
            Sysreg::DDATA2_EL3 => "DDATA2_EL3",
            Sysreg::RAMINDEX => "RAMINDEX",
        Sysreg::Undefined(_) => "",
    }
}

impl SysregOp {
    pub const OPCD: u16 = 0b1101_0101_00;

    /// The system register encoding this instruction names (bits 5 to 20).
    pub fn sysreg_enc(&self) -> (r: SysregEnc)
        ensures
            r.0 == field32_u16(self.0, 5, 0xffff),
    {
        SysregEnc(get_field32_u16(self.0, 5, 0xffff))
    }

    /// `MRS x<rt>, <sysreg>`.
    pub fn new_mrs(rt: u8, sysreg: SysregEnc) -> (r: Self)
        requires
            rt <= 0x1f,
        ensures
            r.0 == spec_sysreg_op(rt, sysreg.0, 1),
    {
        let e = sysreg.0;
        let r = SysregOp((rt as u32) | ((e as u32) << 5u32) | (1u32 << 21u32) | ((Self::OPCD as u32) << 22u32));
        r
    }

    /// `MSR <sysreg>, x<rt>`.
    pub fn new_msr(sysreg: SysregEnc, rt: u8) -> (r: Self)
        requires
            rt <= 0x1f,
        ensures
            r.0 == spec_sysreg_op(rt, sysreg.0, 0),
    {
        let e = sysreg.0;
        let r = SysregOp((rt as u32) | ((e as u32) << 5u32) | (0u32 << 21u32) | ((Self::OPCD as u32) << 22u32));
        r
    }

    /// The instruction in assembly: `mrs x<rt>, <sysreg>` or
    /// `msr <sysreg>, x<rt>`.
    pub fn to_string(&self) -> (s: String)
        ensures
            s@ == spec_sysreg_op_text(self.0),
    {
        let enc = self.sysreg_enc();
        let sysreg = enc.as_sysreg();
        let mut reg = String::new();
        match sysreg {
            Sysreg::Undefined(_) => {
                reg.append("S");
                append_decimal(&mut reg, enc.op0());
                reg.append("_");
                append_decimal(&mut reg, enc.op1());
                reg.append("_c");
                append_decimal(&mut reg, enc.crn());
                reg.append("_c");
                append_decimal(&mut reg, enc.crm());
                reg.append("_");
                append_decimal(&mut reg, enc.op2());
            },
            _ => {
                reg.append(sysreg_name(sysreg));
            },
        }
        let mut s = String::new();
        if self.l() != 0 {
            s.append("mrs x");
            append_decimal(&mut s, self.rt());
            s.append(", ");
            s.append(reg.as_str());
        } else {
            s.append("msr ");
            s.append(reg.as_str());
            s.append(", x");
            append_decimal(&mut s, self.rt());
        }
        proof {
            assert(reg@ == spec_sysreg_text(field32_u16(self.0, 5, 0xffff)));
        }
        s
    }
}

/// An `MRS`/`MSR` instruction word keeps the register number, the system
/// register encoding and the direction it was made from, and carries the
/// opcode.
pub proof fn lemma_sysreg_op_fields(rt: u8, enc: u16, l: u32)
    requires
        rt <= 0x1f,
        l <= 1,
    ensures
        field32_u8(spec_sysreg_op(rt, enc, l), 0, 0x1f) == rt,
        field32_u16(spec_sysreg_op(rt, enc, l), 5, 0xffff) == enc,
        field32_u8(spec_sysreg_op(rt, enc, l), 21, 0x1) == l,
        field32_u16(spec_sysreg_op(rt, enc, l), 22, 0x3ff) == SysregOp::OPCD,
{
    let op = spec_sysreg_op(rt, enc, l);
    assert((op >> 0u32) & 0x1f == rt as u32 && (op >> 5u32) & 0xffff == enc as u32 && (op >> 21u32)
        & 0x1 == l && (op >> 22u32) & 0x3ff == 0x354u32) by (bit_vector)
        requires
            op == (rt as u32) | ((enc as u32) << 5u32) | (l << 21u32) | (0x354u32 << 22u32),
            rt <= 0x1f,
            l <= 1,
    ;
}

/// Each named system register is the encoding of its architectural
/// `op0, op1, CRn, CRm, op2` (SCR_EL3 is 3, 6, 1, 1, 0; SCTLR_EL3 is 3, 6, 1, 0,
/// 0; ...), and that encoding names the register.
pub proof fn lemma_sysreg_encodings()
    ensures
        spec_sysreg_value(Sysreg::DBG_DTR_EL0) == spec_sysreg_enc(2, 3, 0, 4, 0),
        spec_sysreg_value(Sysreg::DBG_DTR_RXTX_EL0) == spec_sysreg_enc(2, 3, 0, 5, 0),
        spec_sysreg_value(Sysreg::ID_AA64DFR0_EL1) == spec_sysreg_enc(3, 0, 0, 5, 0),
        spec_sysreg_value(Sysreg::ID_AA64DFR1_EL1) == spec_sysreg_enc(3, 0, 0, 5, 1),
        spec_sysreg_value(Sysreg::DLR_EL0) == spec_sysreg_enc(3, 3, 4, 5, 1),
        spec_sysreg_value(Sysreg::DS_PSR_EL0) == spec_sysreg_enc(3, 3, 4, 5, 0),
        spec_sysreg_value(Sysreg::SCTLR_EL3) == spec_sysreg_enc(3, 6, 1, 0, 0),
        spec_sysreg_value(Sysreg::SCR_EL3) == spec_sysreg_enc(3, 6, 1, 1, 0),
        spec_sysreg_value(Sysreg::TTBR0_EL3) == spec_sysreg_enc(3, 6, 2, 0, 0),
        spec_sysreg_value(Sysreg::TCR_EL3) == spec_sysreg_enc(3, 6, 2, 0, 2),
        spec_sysreg_value(Sysreg::ESR_EL3) == spec_sysreg_enc(3, 6, 5, 2, 0),
        spec_sysreg_value(Sysreg::FAR_EL3) == spec_sysreg_enc(3, 6, 6, 0, 0),
        spec_sysreg_value(Sysreg::MAIR_EL3) == spec_sysreg_enc(3, 6, 10, 2, 0),
        spec_sysreg_value(Sysreg::VBAR_EL3) == spec_sysreg_enc(3, 6, 12, 0, 0),
        spec_sysreg_value(Sysreg::RVBAR_EL3) == spec_sysreg_enc(3, 6, 12, 0, 1),
        spec_sysreg_value(Sysreg::RMR_EL3) == spec_sysreg_enc(3, 6, 12, 0, 2),
        spec_sysreg_value(Sysreg::IDATA0_EL3) == spec_sysreg_enc(3, 6, 15, 0, 0),
        spec_sysreg_value(Sysreg::IDATA1_EL3) == spec_sysreg_enc(3, 6, 15, 0, 1),
        spec_sysreg_value(Sysreg::IDATA2_EL3) == spec_sysreg_enc(3, 6, 15, 0, 2),
        spec_sysreg_value(Sysreg::DDATA0_EL3) == spec_sysreg_enc(3, 6, 15, 1, 0),
        spec_sysreg_value(Sysreg::DDATA1_EL3) == spec_sysreg_enc(3, 6, 15, 1, 1),
        spec_sysreg_value(Sysreg::DDATA2_EL3) == spec_sysreg_enc(3, 6, 15, 1, 2),
        spec_sysreg_value(Sysreg::RAMINDEX) == spec_sysreg_enc(1, 6, 15, 0, 0),
        spec_sysreg_from(spec_sysreg_enc(2, 3, 0, 4, 0)) == Sysreg::DBG_DTR_EL0,
        spec_sysreg_from(spec_sysreg_enc(2, 3, 0, 5, 0)) == Sysreg::DBG_DTR_RXTX_EL0,
        spec_sysreg_from(spec_sysreg_enc(3, 0, 0, 5, 0)) == Sysreg::ID_AA64DFR0_EL1,
        spec_sysreg_from(spec_sysreg_enc(3, 0, 0, 5, 1)) == Sysreg::ID_AA64DFR1_EL1,
        spec_sysreg_from(spec_sysreg_enc(3, 3, 4, 5, 1)) == Sysreg::DLR_EL0,
        spec_sysreg_from(spec_sysreg_enc(3, 3, 4, 5, 0)) == Sysreg::DS_PSR_EL0,
        spec_sysreg_from(spec_sysreg_enc(3, 6, 1, 0, 0)) == Sysreg::SCTLR_EL3,
        spec_sysreg_from(spec_sysreg_enc(3, 6, 1, 1, 0)) == Sysreg::SCR_EL3,
        spec_sysreg_from(spec_sysreg_enc(3, 6, 2, 0, 0)) == Sysreg::TTBR0_EL3,
        spec_sysreg_from(spec_sysreg_enc(3, 6, 2, 0, 2)) == Sysreg::TCR_EL3,
        spec_sysreg_from(spec_sysreg_enc(3, 6, 5, 2, 0)) == Sysreg::ESR_EL3,
        spec_sysreg_from(spec_sysreg_enc(3, 6, 6, 0, 0)) == Sysreg::FAR_EL3,
        spec_sysreg_from(spec_sysreg_enc(3, 6, 10, 2, 0)) == Sysreg::MAIR_EL3,
        spec_sysreg_from(spec_sysreg_enc(3, 6, 12, 0, 0)) == Sysreg::VBAR_EL3,
        spec_sysreg_from(spec_sysreg_enc(3, 6, 12, 0, 1)) == Sysreg::RVBAR_EL3,
        spec_sysreg_from(spec_sysreg_enc(3, 6, 12, 0, 2)) == Sysreg::RMR_EL3,
        spec_sysreg_from(spec_sysreg_enc(3, 6, 15, 0, 0)) == Sysreg::IDATA0_EL3,
        spec_sysreg_from(spec_sysreg_enc(3, 6, 15, 0, 1)) == Sysreg::IDATA1_EL3,
        spec_sysreg_from(spec_sysreg_enc(3, 6, 15, 0, 2)) == Sysreg::IDATA2_EL3,
        spec_sysreg_from(spec_sysreg_enc(3, 6, 15, 1, 0)) == Sysreg::DDATA0_EL3,
        spec_sysreg_from(spec_sysreg_enc(3, 6, 15, 1, 1)) == Sysreg::DDATA1_EL3,
        spec_sysreg_from(spec_sysreg_enc(3, 6, 15, 1, 2)) == Sysreg::DDATA2_EL3,
        spec_sysreg_from(spec_sysreg_enc(1, 6, 15, 0, 0)) == Sysreg::RAMINDEX,
{
    assert(
        spec_sysreg_enc(2u8, 3u8, 0u8, 4u8, 0u8) == 0x9820u16 &&
        spec_sysreg_enc(2u8, 3u8, 0u8, 5u8, 0u8) == 0x9828u16 &&
        spec_sysreg_enc(3u8, 0u8, 0u8, 5u8, 0u8) == 0xc028u16 &&
        spec_sysreg_enc(3u8, 0u8, 0u8, 5u8, 1u8) == 0xc029u16 &&
        spec_sysreg_enc(3u8, 3u8, 4u8, 5u8, 1u8) == 0xda29u16 &&
        spec_sysreg_enc(3u8, 3u8, 4u8, 5u8, 0u8) == 0xda28u16 &&
        spec_sysreg_enc(3u8, 6u8, 1u8, 0u8, 0u8) == 0xf080u16 &&
        spec_sysreg_enc(3u8, 6u8, 1u8, 1u8, 0u8) == 0xf088u16 &&
        spec_sysreg_enc(3u8, 6u8, 2u8, 0u8, 0u8) == 0xf100u16 &&
        spec_sysreg_enc(3u8, 6u8, 2u8, 0u8, 2u8) == 0xf102u16 &&
        spec_sysreg_enc(3u8, 6u8, 5u8, 2u8, 0u8) == 0xf290u16 &&
        spec_sysreg_enc(3u8, 6u8, 6u8, 0u8, 0u8) == 0xf300u16 &&
        spec_sysreg_enc(3u8, 6u8, 10u8, 2u8, 0u8) == 0xf510u16 &&
        spec_sysreg_enc(3u8, 6u8, 12u8, 0u8, 0u8) == 0xf600u16 &&
        spec_sysreg_enc(3u8, 6u8, 12u8, 0u8, 1u8) == 0xf601u16 &&
        spec_sysreg_enc(3u8, 6u8, 12u8, 0u8, 2u8) == 0xf602u16 &&
        spec_sysreg_enc(3u8, 6u8, 15u8, 0u8, 0u8) == 0xf780u16 &&
        spec_sysreg_enc(3u8, 6u8, 15u8, 0u8, 1u8) == 0xf781u16 &&
        spec_sysreg_enc(3u8, 6u8, 15u8, 0u8, 2u8) == 0xf782u16 &&
        spec_sysreg_enc(3u8, 6u8, 15u8, 1u8, 0u8) == 0xf788u16 &&
        spec_sysreg_enc(3u8, 6u8, 15u8, 1u8, 1u8) == 0xf789u16 &&
        spec_sysreg_enc(3u8, 6u8, 15u8, 1u8, 2u8) == 0xf78au16 &&
        spec_sysreg_enc(1u8, 6u8, 15u8, 0u8, 0u8) == 0x7780u16
    ) by (bit_vector);
}

} // verus!
