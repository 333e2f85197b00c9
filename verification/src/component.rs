//! CoreSight debug components: the Armv8-A external debug block and the
//! cross-trigger interface (CTI).

use vstd::prelude::*;
use vstd::std_specs::convert::FromSpecImpl;
use crate::bits::{
    field32, field32_u8, field32_u16, with_field32, with_field32_u8, with_field32_u16, get_field32,
    get_field32_u8, get_field32_u16, set_field32, set_field32_u8, set_field32_u16,
};

verus! {

/// Implemented on enums that map register names to register offsets.
pub trait ComponentReg: Sized + Copy {
    /// The byte offset of the register from the component's base address.
    spec fn spec_offset(self) -> u16;

    fn offset(self) -> (r: u16)
        ensures
            r == self.spec_offset(),
    ;
}

/// Implemented on bitfield representations of some register.
pub trait ComponentRegBits<T: ComponentReg> {
    /// The name of this register.
    spec fn spec_reg() -> T;

    fn reg() -> (r: T)
        ensures
            r == Self::spec_reg(),
    ;
}

/// Implemented on types representing debug components.
pub trait Component {
    /// The type of registers belonging to this component.
    type Reg: ComponentReg;

    /// The 32-bit base address of this component on the debug bus.
    spec fn spec_base(&self) -> u32;

    fn base(&self) -> (r: u32)
        ensures
            r == self.spec_base(),
    ;

    /// Returns the address of a register belonging to this component.
    fn addr_of(&self, reg: Self::Reg) -> (r: u32)
        requires
            self.spec_base() + reg.spec_offset() <= u32::MAX,
        ensures
            r == self.spec_base() + reg.spec_offset(),
    {
        let x = reg.offset();
        self.base() + (x as u32)
    }
}

/// The debug components of one Armv8 core.
pub struct Armv8CoreBlock {
    pub dbg: DebugBlock,
    pub cti: CtiBlock,
}

/// An Arm external debug component.
#[derive(Clone, Copy, Debug, PartialEq, Eq, Structural)]
pub struct DebugBlock {
    pub base: u32,
}

impl Component for DebugBlock {
    type Reg = Armv8ExtDbgReg;

    open spec fn spec_base(&self) -> u32 {
        self.base
    }

    fn base(&self) -> (r: u32) {
        self.base
    }
}

/// An Arm cross-trigger interface (CTI) component.
#[derive(Clone, Copy, Debug, PartialEq, Eq, Structural)]
pub struct CtiBlock {
    pub base: u32,
}

impl Component for CtiBlock {
    type Reg = CtiRegister;

    open spec fn spec_base(&self) -> u32 {
        self.base
    }

    fn base(&self) -> (r: u32) {
        self.base
    }
}

/// CTI register names, by offset.
#[allow(non_camel_case_types)]
#[derive(Clone, Copy, Debug, PartialEq, Eq, Structural)]
pub enum CtiRegister {
    CTI_CONTROL,
    CTI_INT_ACK,
    CTI_APP_SET,
    CTI_APP_CLEAR,
    CTI_APP_PULSE,
    CTI_IN_EN0,
    CTI_OUT_EN0,
    CTI_OUT_EN1,
    CTI_TRIG_IN_STATUS,
    CTI_TRIG_OUT_STATUS,
    CTI_CH_IN_STATUS,
    CTI_CH_OUT_STATUS,
    CTI_GATE,
    ASIC_CTL,
    CTI_DEV_CTL,
    CTI_IT_CTRL,
    CTI_CLAIM_SET,
    CTI_CLAIM_CLR,
    CTI_DEV_AFF0,
    CTI_DEV_AFF1,
    CTI_LAR,
    CTI_LSR,
    CTI_AUTH_STATUS,
    CTI_DEV_ARCH,
    CTI_DEV_ID2,
    CTI_DEV_ID1,
    CTI_DEV_ID,
    CTI_DEV_TYPE,
    CTI_PIDR4,
    CTI_PIDR0,
    CTI_PIDR1,
    CTI_PIDR2,
    CTI_PIDR3,
    CTI_CIDR0,
    CTI_CIDR1,
    CTI_CIDR2,
    CTI_CIDR3,
    Undefined(u16),
}

/// The value that `v` names; a number that names none is kept in `Undefined`.
pub open spec fn spec_ctiregister_from(v: u16) -> CtiRegister {
    if v == 0x0 {
        CtiRegister::CTI_CONTROL
    } else if v == 0x10 {
        CtiRegister::CTI_INT_ACK
    } else if v == 0x14 {
        CtiRegister::CTI_APP_SET
    } else if v == 0x18 {
        CtiRegister::CTI_APP_CLEAR
    } else if v == 0x1c {
        CtiRegister::CTI_APP_PULSE
    } else if v == 0x20 {
        CtiRegister::CTI_IN_EN0
    } else if v == 0xa0 {
        CtiRegister::CTI_OUT_EN0
    } else if v == 0xa4 {
        CtiRegister::CTI_OUT_EN1
    } else if v == 0x130 {
        CtiRegister::CTI_TRIG_IN_STATUS
    } else if v == 0x134 {
        CtiRegister::CTI_TRIG_OUT_STATUS
    } else if v == 0x138 {
        CtiRegister::CTI_CH_IN_STATUS
    } else if v == 0x13c {
        CtiRegister::CTI_CH_OUT_STATUS
    } else if v == 0x140 {
        CtiRegister::CTI_GATE
    } else if v == 0x144 {
        CtiRegister::ASIC_CTL
    } else if v == 0x150 {
        CtiRegister::CTI_DEV_CTL
    } else if v == 0xf00 {
        CtiRegister::CTI_IT_CTRL
    } else if v == 0xfa0 {
        CtiRegister::CTI_CLAIM_SET
    } else if v == 0xfa4 {
        CtiRegister::CTI_CLAIM_CLR
    } else if v == 0xfa8 {
        CtiRegister::CTI_DEV_AFF0
    } else if v == 0xfac {
        CtiRegister::CTI_DEV_AFF1
    } else if v == 0xfb0 {
        CtiRegister::CTI_LAR
    } else if v == 0xfb4 {
        CtiRegister::CTI_LSR
    } else if v == 0xfb8 {
        CtiRegister::CTI_AUTH_STATUS
    } else if v == 0xfbc {
        CtiRegister::CTI_DEV_ARCH
    } else if v == 0xfc0 {
        CtiRegister::CTI_DEV_ID2
    } else if v == 0xfc4 {
        CtiRegister::CTI_DEV_ID1
    } else if v == 0xfc8 {
        CtiRegister::CTI_DEV_ID
    } else if v == 0xfcc {
        CtiRegister::CTI_DEV_TYPE
    } else if v == 0xfd0 {
        CtiRegister::CTI_PIDR4
    } else if v == 0xfe0 {
        CtiRegister::CTI_PIDR0
    } else if v == 0xfe4 {
        CtiRegister::CTI_PIDR1
    } else if v == 0xfe8 {
        CtiRegister::CTI_PIDR2
    } else if v == 0xfec {
        CtiRegister::CTI_PIDR3
    } else if v == 0xff0 {
        CtiRegister::CTI_CIDR0
    } else if v == 0xff4 {
        CtiRegister::CTI_CIDR1
    } else if v == 0xff8 {
        CtiRegister::CTI_CIDR2
    } else if v == 0xffc {
        CtiRegister::CTI_CIDR3
    } else {
        CtiRegister::Undefined(v)
    }
}

pub open spec fn spec_ctiregister_value(e: CtiRegister) -> u16 {
    match e {
        CtiRegister::CTI_CONTROL => 0x0,
        CtiRegister::CTI_INT_ACK => 0x10,
        CtiRegister::CTI_APP_SET => 0x14,
        CtiRegister::CTI_APP_CLEAR => 0x18,
        CtiRegister::CTI_APP_PULSE => 0x1c,
        CtiRegister::CTI_IN_EN0 => 0x20,
        CtiRegister::CTI_OUT_EN0 => 0xa0,
        CtiRegister::CTI_OUT_EN1 => 0xa4,
        CtiRegister::CTI_TRIG_IN_STATUS => 0x130,
        CtiRegister::CTI_TRIG_OUT_STATUS => 0x134,
        CtiRegister::CTI_CH_IN_STATUS => 0x138,
        CtiRegister::CTI_CH_OUT_STATUS => 0x13c,
        CtiRegister::CTI_GATE => 0x140,
        CtiRegister::ASIC_CTL => 0x144,
        CtiRegister::CTI_DEV_CTL => 0x150,
        CtiRegister::CTI_IT_CTRL => 0xf00,
        CtiRegister::CTI_CLAIM_SET => 0xfa0,
        CtiRegister::CTI_CLAIM_CLR => 0xfa4,
        CtiRegister::CTI_DEV_AFF0 => 0xfa8,
        CtiRegister::CTI_DEV_AFF1 => 0xfac,
        CtiRegister::CTI_LAR => 0xfb0,
        CtiRegister::CTI_LSR => 0xfb4,
        CtiRegister::CTI_AUTH_STATUS => 0xfb8,
        CtiRegister::CTI_DEV_ARCH => 0xfbc,
        CtiRegister::CTI_DEV_ID2 => 0xfc0,
        CtiRegister::CTI_DEV_ID1 => 0xfc4,
        CtiRegister::CTI_DEV_ID => 0xfc8,
        CtiRegister::CTI_DEV_TYPE => 0xfcc,
        CtiRegister::CTI_PIDR4 => 0xfd0,
        CtiRegister::CTI_PIDR0 => 0xfe0,
        CtiRegister::CTI_PIDR1 => 0xfe4,
        CtiRegister::CTI_PIDR2 => 0xfe8,
        CtiRegister::CTI_PIDR3 => 0xfec,
        CtiRegister::CTI_CIDR0 => 0xff0,
        CtiRegister::CTI_CIDR1 => 0xff4,
        CtiRegister::CTI_CIDR2 => 0xff8,
        CtiRegister::CTI_CIDR3 => 0xffc,
        CtiRegister::Undefined(v) => v,
    }
}

impl CtiRegister {
    pub fn from_primitive(v: u16) -> (r: Self)
        ensures
            r == spec_ctiregister_from(v),
    {
        match v {
            0x0 => CtiRegister::CTI_CONTROL,
            0x10 => CtiRegister::CTI_INT_ACK,
            0x14 => CtiRegister::CTI_APP_SET,
            0x18 => CtiRegister::CTI_APP_CLEAR,
            0x1c => CtiRegister::CTI_APP_PULSE,
            0x20 => CtiRegister::CTI_IN_EN0,
            0xa0 => CtiRegister::CTI_OUT_EN0,
            0xa4 => CtiRegister::CTI_OUT_EN1,
            0x130 => CtiRegister::CTI_TRIG_IN_STATUS,
            0x134 => CtiRegister::CTI_TRIG_OUT_STATUS,
            0x138 => CtiRegister::CTI_CH_IN_STATUS,
            0x13c => CtiRegister::CTI_CH_OUT_STATUS,
            0x140 => CtiRegister::CTI_GATE,
            0x144 => CtiRegister::ASIC_CTL,
            0x150 => CtiRegister::CTI_DEV_CTL,
            0xf00 => CtiRegister::CTI_IT_CTRL,
            0xfa0 => CtiRegister::CTI_CLAIM_SET,
            0xfa4 => CtiRegister::CTI_CLAIM_CLR,
            0xfa8 => CtiRegister::CTI_DEV_AFF0,
            0xfac => CtiRegister::CTI_DEV_AFF1,
            0xfb0 => CtiRegister::CTI_LAR,
            0xfb4 => CtiRegister::CTI_LSR,
            0xfb8 => CtiRegister::CTI_AUTH_STATUS,
            0xfbc => CtiRegister::CTI_DEV_ARCH,
            0xfc0 => CtiRegister::CTI_DEV_ID2,
            0xfc4 => CtiRegister::CTI_DEV_ID1,
            0xfc8 => CtiRegister::CTI_DEV_ID,
            0xfcc => CtiRegister::CTI_DEV_TYPE,
            0xfd0 => CtiRegister::CTI_PIDR4,
            0xfe0 => CtiRegister::CTI_PIDR0,
            0xfe4 => CtiRegister::CTI_PIDR1,
            0xfe8 => CtiRegister::CTI_PIDR2,
            0xfec => CtiRegister::CTI_PIDR3,
            0xff0 => CtiRegister::CTI_CIDR0,
            0xff4 => CtiRegister::CTI_CIDR1,
            0xff8 => CtiRegister::CTI_CIDR2,
            0xffc => CtiRegister::CTI_CIDR3,
            _ => CtiRegister::Undefined(v),
        }
    }

    pub fn to_primitive(self) -> (r: u16)
        ensures
            r == spec_ctiregister_value(self),
    {
        match self {
            CtiRegister::CTI_CONTROL => 0x0,
            CtiRegister::CTI_INT_ACK => 0x10,
            CtiRegister::CTI_APP_SET => 0x14,
            CtiRegister::CTI_APP_CLEAR => 0x18,
            CtiRegister::CTI_APP_PULSE => 0x1c,
            CtiRegister::CTI_IN_EN0 => 0x20,
            CtiRegister::CTI_OUT_EN0 => 0xa0,
            CtiRegister::CTI_OUT_EN1 => 0xa4,
            CtiRegister::CTI_TRIG_IN_STATUS => 0x130,
            CtiRegister::CTI_TRIG_OUT_STATUS => 0x134,
            CtiRegister::CTI_CH_IN_STATUS => 0x138,
            CtiRegister::CTI_CH_OUT_STATUS => 0x13c,
            CtiRegister::CTI_GATE => 0x140,
            CtiRegister::ASIC_CTL => 0x144,
            CtiRegister::CTI_DEV_CTL => 0x150,
            CtiRegister::CTI_IT_CTRL => 0xf00,
            CtiRegister::CTI_CLAIM_SET => 0xfa0,
            CtiRegister::CTI_CLAIM_CLR => 0xfa4,
            CtiRegister::CTI_DEV_AFF0 => 0xfa8,
            CtiRegister::CTI_DEV_AFF1 => 0xfac,
            CtiRegister::CTI_LAR => 0xfb0,
            CtiRegister::CTI_LSR => 0xfb4,
            CtiRegister::CTI_AUTH_STATUS => 0xfb8,
            CtiRegister::CTI_DEV_ARCH => 0xfbc,
            CtiRegister::CTI_DEV_ID2 => 0xfc0,
            CtiRegister::CTI_DEV_ID1 => 0xfc4,
            CtiRegister::CTI_DEV_ID => 0xfc8,
            CtiRegister::CTI_DEV_TYPE => 0xfcc,
            CtiRegister::CTI_PIDR4 => 0xfd0,
            CtiRegister::CTI_PIDR0 => 0xfe0,
            CtiRegister::CTI_PIDR1 => 0xfe4,
            CtiRegister::CTI_PIDR2 => 0xfe8,
            CtiRegister::CTI_PIDR3 => 0xfec,
            CtiRegister::CTI_CIDR0 => 0xff0,
            CtiRegister::CTI_CIDR1 => 0xff4,
            CtiRegister::CTI_CIDR2 => 0xff8,
            CtiRegister::CTI_CIDR3 => 0xffc,
            CtiRegister::Undefined(v) => v,
        }
    }
}

impl From<u16> for CtiRegister {
    fn from(v: u16) -> (r: Self) {
        Self::from_primitive(v)
    }
}

impl FromSpecImpl<u16> for CtiRegister {
    open spec fn obeys_from_spec() -> bool {
        true
    }

    open spec fn from_spec(v: u16) -> Self {
        spec_ctiregister_from(v)
    }
}

impl From<CtiRegister> for u16 {
    fn from(v: CtiRegister) -> (r: u16) {
        v.to_primitive()
    }
}

impl FromSpecImpl<CtiRegister> for u16 {
    open spec fn obeys_from_spec() -> bool {
        true
    }

    open spec fn from_spec(v: CtiRegister) -> u16 {
        spec_ctiregister_value(v)
    }
}

/// Reading any number as a `CtiRegister` and writing it back gives the number.
pub proof fn lemma_ctiregister_roundtrip(v: u16)
    ensures
        spec_ctiregister_value(spec_ctiregister_from(v)) == v,
{
}

impl ComponentReg for CtiRegister {
    open spec fn spec_offset(self) -> u16 {
        spec_ctiregister_value(self)
    }

    fn offset(self) -> (r: u16) {
        self.to_primitive()
    }
}

/// CTI output triggers.
#[derive(Clone, Copy, Debug, PartialEq, Eq, Structural)]
pub enum CtiOutputTrigger {
    /// Force PE into debug state
    DebugRequest,
    /// Request PE to exit debug state
    RestartRequest,
}

/// CTI input triggers.
#[derive(Clone, Copy, Debug, PartialEq, Eq, Structural)]
pub enum CtiInputTrigger {
    /// Asserted by PE when entering debug state
    CrossHalt,
}

/// Armv8-A external debug register names, by offset.
#[allow(non_camel_case_types)]
#[derive(Clone, Copy, Debug, PartialEq, Eq, Structural)]
pub enum Armv8ExtDbgReg {
    ED_ESR,
    ED_ECR,
    ED_WAR_LO,
    ED_WAR_HI,
    DBG_DTR_RX,
    ED_ITR,
    ED_SCR,
    DBG_DTR_TX,
    ED_RCR,
    ED_ACR,
    ED_ECCR,
    ED_PCSR_LO,
    ED_CIDSR,
    ED_VIDSR,
    ED_PCSR_HI,
    OSLAR,
    ED_PRCR,
    ED_PRSR,
    MIDR,
    ED_PFR_LO,
    ED_PFR_HI,
    ED_DFR_LO,
    ED_DFR_HI,
    ED_AA32_PFR_LO,
    ED_AA32_PFR_HI,
    ED_IT_CTRL,
    DBG_CLAIM_SET,
    DBG_CLAIM_CLR,
    ED_DEV_AFF0,
    ED_DEV_AFF1,
    ED_LAR,
    ED_LSR,
    DBG_AUTH_STATUS,
    ED_DEV_ARCH,
    ED_DEV_ID2,
    ED_DEV_ID1,
    ED_DEV_ID,
    ED_DEV_TYPE,
    ED_PIDR4,
    ED_PIDR0,
    ED_PIDR1,
    ED_PIDR2,
    ED_PIDR3,
    ED_CIDR0,
    ED_CIDR1,
    ED_CIDR2,
    ED_CIDR3,
    Undefined(u16),
}

/// The value that `v` names; a number that names none is kept in `Undefined`.
pub open spec fn spec_armv8extdbgreg_from(v: u16) -> Armv8ExtDbgReg {
    if v == 0x20 {
        Armv8ExtDbgReg::ED_ESR
    } else if v == 0x24 {
        Armv8ExtDbgReg::ED_ECR
    } else if v == 0x30 {
        Armv8ExtDbgReg::ED_WAR_LO
    } else if v == 0x34 {
        Armv8ExtDbgReg::ED_WAR_HI
    } else if v == 0x80 {
        Armv8ExtDbgReg::DBG_DTR_RX
    } else if v == 0x84 {
        Armv8ExtDbgReg::ED_ITR
    } else if v == 0x88 {
        Armv8ExtDbgReg::ED_SCR
    } else if v == 0x8c {
        Armv8ExtDbgReg::DBG_DTR_TX
    } else if v == 0x90 {
        Armv8ExtDbgReg::ED_RCR
    } else if v == 0x94 {
        Armv8ExtDbgReg::ED_ACR
    } else if v == 0x98 {
        Armv8ExtDbgReg::ED_ECCR
    } else if v == 0xa0 {
        Armv8ExtDbgReg::ED_PCSR_LO
    } else if v == 0xa4 {
        Armv8ExtDbgReg::ED_CIDSR
    } else if v == 0xa8 {
        Armv8ExtDbgReg::ED_VIDSR
    } else if v == 0xac {
        Armv8ExtDbgReg::ED_PCSR_HI
    } else if v == 0x300 {
        Armv8ExtDbgReg::OSLAR
    } else if v == 0x310 {
        Armv8ExtDbgReg::ED_PRCR
    } else if v == 0x314 {
        Armv8ExtDbgReg::ED_PRSR
    } else if v == 0xd00 {
        Armv8ExtDbgReg::MIDR
    } else if v == 0xd20 {
        Armv8ExtDbgReg::ED_PFR_LO
    } else if v == 0xd24 {
        Armv8ExtDbgReg::ED_PFR_HI
    } else if v == 0xd28 {
        Armv8ExtDbgReg::ED_DFR_LO
    } else if v == 0xd2c {
        Armv8ExtDbgReg::ED_DFR_HI
    } else if v == 0xd60 {
        Armv8ExtDbgReg::ED_AA32_PFR_LO
    } else if v == 0xd64 {
        Armv8ExtDbgReg::ED_AA32_PFR_HI
    } else if v == 0xf00 {
        Armv8ExtDbgReg::ED_IT_CTRL
    } else if v == 0xfa0 {
        Armv8ExtDbgReg::DBG_CLAIM_SET
    } else if v == 0xfa4 {
        Armv8ExtDbgReg::DBG_CLAIM_CLR
    } else if v == 0xfa8 {
        Armv8ExtDbgReg::ED_DEV_AFF0
    } else if v == 0xfac {
        Armv8ExtDbgReg::ED_DEV_AFF1
    } else if v == 0xfb0 {
        Armv8ExtDbgReg::ED_LAR
    } else if v == 0xfb4 {
        Armv8ExtDbgReg::ED_LSR
    } else if v == 0xfb8 {
        Armv8ExtDbgReg::DBG_AUTH_STATUS
    } else if v == 0xfbc {
        Armv8ExtDbgReg::ED_DEV_ARCH
    } else if v == 0xfc0 {
        Armv8ExtDbgReg::ED_DEV_ID2
    } else if v == 0xfc4 {
        Armv8ExtDbgReg::ED_DEV_ID1
    } else if v == 0xfc8 {
        Armv8ExtDbgReg::ED_DEV_ID
    } else if v == 0xfcc {
        Armv8ExtDbgReg::ED_DEV_TYPE
    } else if v == 0xfd0 {
        Armv8ExtDbgReg::ED_PIDR4
    } else if v == 0xfe0 {
        Armv8ExtDbgReg::ED_PIDR0
    } else if v == 0xfe4 {
        Armv8ExtDbgReg::ED_PIDR1
    } else if v == 0xfe8 {
        Armv8ExtDbgReg::ED_PIDR2
    } else if v == 0xfec {
        Armv8ExtDbgReg::ED_PIDR3
    } else if v == 0xff0 {
        Armv8ExtDbgReg::ED_CIDR0
    } else if v == 0xff4 {
        Armv8ExtDbgReg::ED_CIDR1
    } else if v == 0xff8 {
        Armv8ExtDbgReg::ED_CIDR2
    } else if v == 0xffc {
        Armv8ExtDbgReg::ED_CIDR3
    } else {
        Armv8ExtDbgReg::Undefined(v)
    }
}

pub open spec fn spec_armv8extdbgreg_value(e: Armv8ExtDbgReg) -> u16 {
    match e {
        Armv8ExtDbgReg::ED_ESR => 0x20,
        Armv8ExtDbgReg::ED_ECR => 0x24,
        Armv8ExtDbgReg::ED_WAR_LO => 0x30,
        Armv8ExtDbgReg::ED_WAR_HI => 0x34,
        Armv8ExtDbgReg::DBG_DTR_RX => 0x80,
        Armv8ExtDbgReg::ED_ITR => 0x84,
        Armv8ExtDbgReg::ED_SCR => 0x88,
        Armv8ExtDbgReg::DBG_DTR_TX => 0x8c,
        Armv8ExtDbgReg::ED_RCR => 0x90,
        Armv8ExtDbgReg::ED_ACR => 0x94,
        Armv8ExtDbgReg::ED_ECCR => 0x98,
        Armv8ExtDbgReg::ED_PCSR_LO => 0xa0,
        Armv8ExtDbgReg::ED_CIDSR => 0xa4,
        Armv8ExtDbgReg::ED_VIDSR => 0xa8,
        Armv8ExtDbgReg::ED_PCSR_HI => 0xac,
        Armv8ExtDbgReg::OSLAR => 0x300,
        Armv8ExtDbgReg::ED_PRCR => 0x310,
        Armv8ExtDbgReg::ED_PRSR => 0x314,
        Armv8ExtDbgReg::MIDR => 0xd00,
        Armv8ExtDbgReg::ED_PFR_LO => 0xd20,
        Armv8ExtDbgReg::ED_PFR_HI => 0xd24,
        Armv8ExtDbgReg::ED_DFR_LO => 0xd28,
        Armv8ExtDbgReg::ED_DFR_HI => 0xd2c,
        Armv8ExtDbgReg::ED_AA32_PFR_LO => 0xd60,
        Armv8ExtDbgReg::ED_AA32_PFR_HI => 0xd64,
        Armv8ExtDbgReg::ED_IT_CTRL => 0xf00,
        Armv8ExtDbgReg::DBG_CLAIM_SET => 0xfa0,
        Armv8ExtDbgReg::DBG_CLAIM_CLR => 0xfa4,
        Armv8ExtDbgReg::ED_DEV_AFF0 => 0xfa8,
        Armv8ExtDbgReg::ED_DEV_AFF1 => 0xfac,
        Armv8ExtDbgReg::ED_LAR => 0xfb0,
        Armv8ExtDbgReg::ED_LSR => 0xfb4,
        Armv8ExtDbgReg::DBG_AUTH_STATUS => 0xfb8,
        Armv8ExtDbgReg::ED_DEV_ARCH => 0xfbc,
        Armv8ExtDbgReg::ED_DEV_ID2 => 0xfc0,
        Armv8ExtDbgReg::ED_DEV_ID1 => 0xfc4,
        Armv8ExtDbgReg::ED_DEV_ID => 0xfc8,
        Armv8ExtDbgReg::ED_DEV_TYPE => 0xfcc,
        Armv8ExtDbgReg::ED_PIDR4 => 0xfd0,
        Armv8ExtDbgReg::ED_PIDR0 => 0xfe0,
        Armv8ExtDbgReg::ED_PIDR1 => 0xfe4,
        Armv8ExtDbgReg::ED_PIDR2 => 0xfe8,
        Armv8ExtDbgReg::ED_PIDR3 => 0xfec,
        Armv8ExtDbgReg::ED_CIDR0 => 0xff0,
        Armv8ExtDbgReg::ED_CIDR1 => 0xff4,
        Armv8ExtDbgReg::ED_CIDR2 => 0xff8,
        Armv8ExtDbgReg::ED_CIDR3 => 0xffc,
        Armv8ExtDbgReg::Undefined(v) => v,
    }
}

impl Armv8ExtDbgReg {
    pub fn from_primitive(v: u16) -> (r: Self)
        ensures
            r == spec_armv8extdbgreg_from(v),
    {
        match v {
            0x20 => Armv8ExtDbgReg::ED_ESR,
            0x24 => Armv8ExtDbgReg::ED_ECR,
            0x30 => Armv8ExtDbgReg::ED_WAR_LO,
            0x34 => Armv8ExtDbgReg::ED_WAR_HI,
            0x80 => Armv8ExtDbgReg::DBG_DTR_RX,
            0x84 => Armv8ExtDbgReg::ED_ITR,
            0x88 => Armv8ExtDbgReg::ED_SCR,
            0x8c => Armv8ExtDbgReg::DBG_DTR_TX,
            0x90 => Armv8ExtDbgReg::ED_RCR,
            0x94 => Armv8ExtDbgReg::ED_ACR,
            0x98 => Armv8ExtDbgReg::ED_ECCR,
            0xa0 => Armv8ExtDbgReg::ED_PCSR_LO,
            0xa4 => Armv8ExtDbgReg::ED_CIDSR,
            0xa8 => Armv8ExtDbgReg::ED_VIDSR,
            0xac => Armv8ExtDbgReg::ED_PCSR_HI,
            0x300 => Armv8ExtDbgReg::OSLAR,
            0x310 => Armv8ExtDbgReg::ED_PRCR,
            0x314 => Armv8ExtDbgReg::ED_PRSR,
            0xd00 => Armv8ExtDbgReg::MIDR,
            0xd20 => Armv8ExtDbgReg::ED_PFR_LO,
            0xd24 => Armv8ExtDbgReg::ED_PFR_HI,
            0xd28 => Armv8ExtDbgReg::ED_DFR_LO,
            0xd2c => Armv8ExtDbgReg::ED_DFR_HI,
            0xd60 => Armv8ExtDbgReg::ED_AA32_PFR_LO,
            0xd64 => Armv8ExtDbgReg::ED_AA32_PFR_HI,
            0xf00 => Armv8ExtDbgReg::ED_IT_CTRL,
            0xfa0 => Armv8ExtDbgReg::DBG_CLAIM_SET,
            0xfa4 => Armv8ExtDbgReg::DBG_CLAIM_CLR,
            0xfa8 => Armv8ExtDbgReg::ED_DEV_AFF0,
            0xfac => Armv8ExtDbgReg::ED_DEV_AFF1,
            0xfb0 => Armv8ExtDbgReg::ED_LAR,
            0xfb4 => Armv8ExtDbgReg::ED_LSR,
            0xfb8 => Armv8ExtDbgReg::DBG_AUTH_STATUS,
            0xfbc => Armv8ExtDbgReg::ED_DEV_ARCH,
            0xfc0 => Armv8ExtDbgReg::ED_DEV_ID2,
            0xfc4 => Armv8ExtDbgReg::ED_DEV_ID1,
            0xfc8 => Armv8ExtDbgReg::ED_DEV_ID,
            0xfcc => Armv8ExtDbgReg::ED_DEV_TYPE,
            0xfd0 => Armv8ExtDbgReg::ED_PIDR4,
            0xfe0 => Armv8ExtDbgReg::ED_PIDR0,
            0xfe4 => Armv8ExtDbgReg::ED_PIDR1,
            0xfe8 => Armv8ExtDbgReg::ED_PIDR2,
            0xfec => Armv8ExtDbgReg::ED_PIDR3,
            0xff0 => Armv8ExtDbgReg::ED_CIDR0,
            0xff4 => Armv8ExtDbgReg::ED_CIDR1,
            0xff8 => Armv8ExtDbgReg::ED_CIDR2,
            0xffc => Armv8ExtDbgReg::ED_CIDR3,
            _ => Armv8ExtDbgReg::Undefined(v),
        }
    }

    pub fn to_primitive(self) -> (r: u16)
        ensures
            r == spec_armv8extdbgreg_value(self),
    {
        match self {
            Armv8ExtDbgReg::ED_ESR => 0x20,
            Armv8ExtDbgReg::ED_ECR => 0x24,
            Armv8ExtDbgReg::ED_WAR_LO => 0x30,
            Armv8ExtDbgReg::ED_WAR_HI => 0x34,
            Armv8ExtDbgReg::DBG_DTR_RX => 0x80,
            Armv8ExtDbgReg::ED_ITR => 0x84,
            Armv8ExtDbgReg::ED_SCR => 0x88,
            Armv8ExtDbgReg::DBG_DTR_TX => 0x8c,
            Armv8ExtDbgReg::ED_RCR => 0x90,
            Armv8ExtDbgReg::ED_ACR => 0x94,
            Armv8ExtDbgReg::ED_ECCR => 0x98,
            Armv8ExtDbgReg::ED_PCSR_LO => 0xa0,
            Armv8ExtDbgReg::ED_CIDSR => 0xa4,
            Armv8ExtDbgReg::ED_VIDSR => 0xa8,
            Armv8ExtDbgReg::ED_PCSR_HI => 0xac,
            Armv8ExtDbgReg::OSLAR => 0x300,
            Armv8ExtDbgReg::ED_PRCR => 0x310,
            Armv8ExtDbgReg::ED_PRSR => 0x314,
            Armv8ExtDbgReg::MIDR => 0xd00,
            Armv8ExtDbgReg::ED_PFR_LO => 0xd20,
            Armv8ExtDbgReg::ED_PFR_HI => 0xd24,
            Armv8ExtDbgReg::ED_DFR_LO => 0xd28,
            Armv8ExtDbgReg::ED_DFR_HI => 0xd2c,
            Armv8ExtDbgReg::ED_AA32_PFR_LO => 0xd60,
            Armv8ExtDbgReg::ED_AA32_PFR_HI => 0xd64,
            Armv8ExtDbgReg::ED_IT_CTRL => 0xf00,
            Armv8ExtDbgReg::DBG_CLAIM_SET => 0xfa0,
            Armv8ExtDbgReg::DBG_CLAIM_CLR => 0xfa4,
            Armv8ExtDbgReg::ED_DEV_AFF0 => 0xfa8,
            Armv8ExtDbgReg::ED_DEV_AFF1 => 0xfac,
            Armv8ExtDbgReg::ED_LAR => 0xfb0,
            Armv8ExtDbgReg::ED_LSR => 0xfb4,
            Armv8ExtDbgReg::DBG_AUTH_STATUS => 0xfb8,
            Armv8ExtDbgReg::ED_DEV_ARCH => 0xfbc,
            Armv8ExtDbgReg::ED_DEV_ID2 => 0xfc0,
            Armv8ExtDbgReg::ED_DEV_ID1 => 0xfc4,
            Armv8ExtDbgReg::ED_DEV_ID => 0xfc8,
            Armv8ExtDbgReg::ED_DEV_TYPE => 0xfcc,
            Armv8ExtDbgReg::ED_PIDR4 => 0xfd0,
            Armv8ExtDbgReg::ED_PIDR0 => 0xfe0,
            Armv8ExtDbgReg::ED_PIDR1 => 0xfe4,
            Armv8ExtDbgReg::ED_PIDR2 => 0xfe8,
            Armv8ExtDbgReg::ED_PIDR3 => 0xfec,
            Armv8ExtDbgReg::ED_CIDR0 => 0xff0,
            Armv8ExtDbgReg::ED_CIDR1 => 0xff4,
            Armv8ExtDbgReg::ED_CIDR2 => 0xff8,
            Armv8ExtDbgReg::ED_CIDR3 => 0xffc,
            Armv8ExtDbgReg::Undefined(v) => v,
        }
    }
}

impl From<u16> for Armv8ExtDbgReg {
    fn from(v: u16) -> (r: Self) {
        Self::from_primitive(v)
    }
}

impl FromSpecImpl<u16> for Armv8ExtDbgReg {
    open spec fn obeys_from_spec() -> bool {
        true
    }

    open spec fn from_spec(v: u16) -> Self {
        spec_armv8extdbgreg_from(v)
    }
}

impl From<Armv8ExtDbgReg> for u16 {
    fn from(v: Armv8ExtDbgReg) -> (r: u16) {
        v.to_primitive()
    }
}

impl FromSpecImpl<Armv8ExtDbgReg> for u16 {
    open spec fn obeys_from_spec() -> bool {
        true
    }

    open spec fn from_spec(v: Armv8ExtDbgReg) -> u16 {
        spec_armv8extdbgreg_value(v)
    }
}

/// Reading any number as a `Armv8ExtDbgReg` and writing it back gives the number.
pub proof fn lemma_armv8extdbgreg_roundtrip(v: u16)
    ensures
        spec_armv8extdbgreg_value(spec_armv8extdbgreg_from(v)) == v,
{
}

impl Armv8ExtDbgReg {
    pub fn as_u16(self) -> (r: u16)
        ensures
            r == spec_armv8extdbgreg_value(self),
    {
        self.to_primitive()
    }
}

impl ComponentReg for Armv8ExtDbgReg {
    open spec fn spec_offset(self) -> u16 {
        spec_armv8extdbgreg_value(self)
    }

    fn offset(self) -> (r: u16) {
        self.to_primitive()
    }
}

/// External Debug Processor Status Register.
#[derive(Clone, Copy, Debug, PartialEq, Eq, Structural)]
pub struct EdPrsr(pub u32);

impl EdPrsr {
    /// All fields zero.
    pub fn new() -> (r: Self)
        ensures
            r.0 == 0,
    {
        EdPrsr(0)
    }

    pub fn pu(&self) -> (r: u8)
        ensures
            r == field32_u8(self.0, 0, 0x1),
            r <= 0x1,
    {
        get_field32_u8(self.0, 0, 0x1)
    }

    pub fn with_pu(self, v: u8) -> (r: Self)
        requires
            v <= 0x1,
        ensures
            r.0 == with_field32_u8(self.0, 0, 0x1, v),
    {
        EdPrsr(set_field32_u8(self.0, 0, 0x1, v))
    }

    pub fn spd(&self) -> (r: u8)
        ensures
            r == field32_u8(self.0, 1, 0x1),
            r <= 0x1,
    {
        get_field32_u8(self.0, 1, 0x1)
    }

    pub fn with_spd(self, v: u8) -> (r: Self)
        requires
            v <= 0x1,
        ensures
            r.0 == with_field32_u8(self.0, 1, 0x1, v),
    {
        EdPrsr(set_field32_u8(self.0, 1, 0x1, v))
    }

    pub fn r(&self) -> (r: u8)
        ensures
            r == field32_u8(self.0, 2, 0x1),
            r <= 0x1,
    {
        get_field32_u8(self.0, 2, 0x1)
    }

    pub fn with_r(self, v: u8) -> (r: Self)
        requires
            v <= 0x1,
        ensures
            r.0 == with_field32_u8(self.0, 2, 0x1, v),
    {
        EdPrsr(set_field32_u8(self.0, 2, 0x1, v))
    }

    pub fn sr(&self) -> (r: u8)
        ensures
            r == field32_u8(self.0, 3, 0x1),
            r <= 0x1,
    {
        get_field32_u8(self.0, 3, 0x1)
    }

    pub fn with_sr(self, v: u8) -> (r: Self)
        requires
            v <= 0x1,
        ensures
            r.0 == with_field32_u8(self.0, 3, 0x1, v),
    {
        EdPrsr(set_field32_u8(self.0, 3, 0x1, v))
    }

    pub fn halted(&self) -> (r: u8)
        ensures
            r == field32_u8(self.0, 4, 0x1),
            r <= 0x1,
    {
        get_field32_u8(self.0, 4, 0x1)
    }

    pub fn with_halted(self, v: u8) -> (r: Self)
        requires
            v <= 0x1,
        ensures
            r.0 == with_field32_u8(self.0, 4, 0x1, v),
    {
        EdPrsr(set_field32_u8(self.0, 4, 0x1, v))
    }

    pub fn oslk(&self) -> (r: u8)
        ensures
            r == field32_u8(self.0, 5, 0x1),
            r <= 0x1,
    {
        get_field32_u8(self.0, 5, 0x1)
    }

    pub fn with_oslk(self, v: u8) -> (r: Self)
        requires
            v <= 0x1,
        ensures
            r.0 == with_field32_u8(self.0, 5, 0x1, v),
    {
        EdPrsr(set_field32_u8(self.0, 5, 0x1, v))
    }

    pub fn dlk(&self) -> (r: u8)
        ensures
            r == field32_u8(self.0, 6, 0x1),
            r <= 0x1,
    {
        get_field32_u8(self.0, 6, 0x1)
    }

    pub fn with_dlk(self, v: u8) -> (r: Self)
        requires
            v <= 0x1,
        ensures
            r.0 == with_field32_u8(self.0, 6, 0x1, v),
    {
        EdPrsr(set_field32_u8(self.0, 6, 0x1, v))
    }

    pub fn edad(&self) -> (r: u8)
        ensures
            r == field32_u8(self.0, 7, 0x1),
            r <= 0x1,
    {
        get_field32_u8(self.0, 7, 0x1)
    }

    pub fn with_edad(self, v: u8) -> (r: Self)
        requires
            v <= 0x1,
        ensures
            r.0 == with_field32_u8(self.0, 7, 0x1, v),
    {
        EdPrsr(set_field32_u8(self.0, 7, 0x1, v))
    }

    pub fn sdad(&self) -> (r: u8)
        ensures
            r == field32_u8(self.0, 8, 0x1),
            r <= 0x1,
    {
        get_field32_u8(self.0, 8, 0x1)
    }

    pub fn with_sdad(self, v: u8) -> (r: Self)
        requires
            v <= 0x1,
        ensures
            r.0 == with_field32_u8(self.0, 8, 0x1, v),
    {
        EdPrsr(set_field32_u8(self.0, 8, 0x1, v))
    }

    pub fn epmad(&self) -> (r: u8)
        ensures
            r == field32_u8(self.0, 9, 0x1),
            r <= 0x1,
    {
        get_field32_u8(self.0, 9, 0x1)
    }

    pub fn with_epmad(self, v: u8) -> (r: Self)
        requires
            v <= 0x1,
        ensures
            r.0 == with_field32_u8(self.0, 9, 0x1, v),
    {
        EdPrsr(set_field32_u8(self.0, 9, 0x1, v))
    }

    pub fn spmad(&self) -> (r: u8)
        ensures
            r == field32_u8(self.0, 10, 0x1),
            r <= 0x1,
    {
        get_field32_u8(self.0, 10, 0x1)
    }

    pub fn with_spmad(self, v: u8) -> (r: Self)
        requires
            v <= 0x1,
        ensures
            r.0 == with_field32_u8(self.0, 10, 0x1, v),
    {
        EdPrsr(set_field32_u8(self.0, 10, 0x1, v))
    }

    pub fn sdr(&self) -> (r: u8)
        ensures
            r == field32_u8(self.0, 11, 0x1),
            r <= 0x1,
    {
        get_field32_u8(self.0, 11, 0x1)
    }

    pub fn with_sdr(self, v: u8) -> (r: Self)
        requires
            v <= 0x1,
        ensures
            r.0 == with_field32_u8(self.0, 11, 0x1, v),
    {
        EdPrsr(set_field32_u8(self.0, 11, 0x1, v))
    }

    pub fn etad(&self) -> (r: u8)
        ensures
            r == field32_u8(self.0, 12, 0x1),
            r <= 0x1,
    {
        get_field32_u8(self.0, 12, 0x1)
    }

    pub fn with_etad(self, v: u8) -> (r: Self)
        requires
            v <= 0x1,
        ensures
            r.0 == with_field32_u8(self.0, 12, 0x1, v),
    {
        EdPrsr(set_field32_u8(self.0, 12, 0x1, v))
    }

    pub fn stad(&self) -> (r: u8)
        ensures
            r == field32_u8(self.0, 13, 0x1),
            r <= 0x1,
    {
        get_field32_u8(self.0, 13, 0x1)
    }

    pub fn with_stad(self, v: u8) -> (r: Self)
        requires
            v <= 0x1,
        ensures
            r.0 == with_field32_u8(self.0, 13, 0x1, v),
    {
        EdPrsr(set_field32_u8(self.0, 13, 0x1, v))
    }

    pub fn edade(&self) -> (r: u8)
        ensures
            r == field32_u8(self.0, 14, 0x1),
            r <= 0x1,
    {
        get_field32_u8(self.0, 14, 0x1)
    }

    pub fn with_edade(self, v: u8) -> (r: Self)
        requires
            v <= 0x1,
        ensures
            r.0 == with_field32_u8(self.0, 14, 0x1, v),
    {
        EdPrsr(set_field32_u8(self.0, 14, 0x1, v))
    }

    pub fn etade(&self) -> (r: u8)
        ensures
            r == field32_u8(self.0, 15, 0x1),
            r <= 0x1,
    {
        get_field32_u8(self.0, 15, 0x1)
    }

    pub fn with_etade(self, v: u8) -> (r: Self)
        requires
            v <= 0x1,
        ensures
            r.0 == with_field32_u8(self.0, 15, 0x1, v),
    {
        EdPrsr(set_field32_u8(self.0, 15, 0x1, v))
    }

    pub fn epmade(&self) -> (r: u8)
        ensures
            r == field32_u8(self.0, 16, 0x1),
            r <= 0x1,
    {
        get_field32_u8(self.0, 16, 0x1)
    }

    pub fn with_epmade(self, v: u8) -> (r: Self)
        requires
            v <= 0x1,
        ensures
            r.0 == with_field32_u8(self.0, 16, 0x1, v),
    {
        EdPrsr(set_field32_u8(self.0, 16, 0x1, v))
    }

    pub fn res17(&self) -> (r: u16)
        ensures
            r == field32_u16(self.0, 17, 0x7fff),
            r <= 0x7fff,
    {
        get_field32_u16(self.0, 17, 0x7fff)
    }

    pub fn with_res17(self, v: u16) -> (r: Self)
        requires
            v <= 0x7fff,
        ensures
            r.0 == with_field32_u16(self.0, 17, 0x7fff, v),
    {
        EdPrsr(set_field32_u16(self.0, 17, 0x7fff, v))
    }

}

impl From<u32> for EdPrsr {
    fn from(v: u32) -> (r: Self) {
        EdPrsr(v)
    }
}

impl FromSpecImpl<u32> for EdPrsr {
    open spec fn obeys_from_spec() -> bool {
        true
    }

    open spec fn from_spec(v: u32) -> Self {
        EdPrsr(v)
    }
}

impl From<EdPrsr> for u32 {
    fn from(v: EdPrsr) -> (r: u32) {
        v.0
    }
}

impl FromSpecImpl<EdPrsr> for u32 {
    open spec fn obeys_from_spec() -> bool {
        true
    }

    open spec fn from_spec(v: EdPrsr) -> u32 {
        v.0
    }
}
/// External Debug Reserve Control Register.
#[derive(Clone, Copy, Debug, PartialEq, Eq, Structural)]
pub struct EdRcr(pub u32);

impl EdRcr {
    /// All fields zero.
    pub fn new() -> (r: Self)
        ensures
            r.0 == 0,
    {
        EdRcr(0)
    }

    pub fn res0(&self) -> (r: u8)
        ensures
            r == field32_u8(self.0, 0, 0x3),
            r <= 0x3,
    {
        get_field32_u8(self.0, 0, 0x3)
    }

    pub fn with_res0(self, v: u8) -> (r: Self)
        requires
            v <= 0x3,
        ensures
            r.0 == with_field32_u8(self.0, 0, 0x3, v),
    {
        EdRcr(set_field32_u8(self.0, 0, 0x3, v))
    }

    pub fn cse(&self) -> (r: u8)
        ensures
            r == field32_u8(self.0, 2, 0x1),
            r <= 0x1,
    {
        get_field32_u8(self.0, 2, 0x1)
    }

    pub fn with_cse(self, v: u8) -> (r: Self)
        requires
            v <= 0x1,
        ensures
            r.0 == with_field32_u8(self.0, 2, 0x1, v),
    {
        EdRcr(set_field32_u8(self.0, 2, 0x1, v))
    }

    pub fn cspa(&self) -> (r: u8)
        ensures
            r == field32_u8(self.0, 3, 0x1),
            r <= 0x1,
    {
        get_field32_u8(self.0, 3, 0x1)
    }

    pub fn with_cspa(self, v: u8) -> (r: Self)
        requires
            v <= 0x1,
        ensures
            r.0 == with_field32_u8(self.0, 3, 0x1, v),
    {
        EdRcr(set_field32_u8(self.0, 3, 0x1, v))
    }

    pub fn cbrrq(&self) -> (r: u8)
        ensures
            r == field32_u8(self.0, 4, 0x1),
            r <= 0x1,
    {
        get_field32_u8(self.0, 4, 0x1)
    }

    pub fn with_cbrrq(self, v: u8) -> (r: Self)
        requires
            v <= 0x1,
        ensures
            r.0 == with_field32_u8(self.0, 4, 0x1, v),
    {
        EdRcr(set_field32_u8(self.0, 4, 0x1, v))
    }

    pub fn res5(&self) -> (r: u32)
        ensures
            r == field32(self.0, 5, 0x7ffffff),
            r <= 0x7ffffff,
    {
        get_field32(self.0, 5, 0x7ffffff)
    }

    pub fn with_res5(self, v: u32) -> (r: Self)
        requires
            v <= 0x7ffffff,
        ensures
            r.0 == with_field32(self.0, 5, 0x7ffffff, v),
    {
        EdRcr(set_field32(self.0, 5, 0x7ffffff, v))
    }

}

impl From<u32> for EdRcr {
    fn from(v: u32) -> (r: Self) {
        EdRcr(v)
    }
}

impl FromSpecImpl<u32> for EdRcr {
    open spec fn obeys_from_spec() -> bool {
        true
    }

    open spec fn from_spec(v: u32) -> Self {
        EdRcr(v)
    }
}

impl From<EdRcr> for u32 {
    fn from(v: EdRcr) -> (r: u32) {
        v.0
    }
}

impl FromSpecImpl<EdRcr> for u32 {
    open spec fn obeys_from_spec() -> bool {
        true
    }

    open spec fn from_spec(v: EdRcr) -> u32 {
        v.0
    }
}
/// External Debug Status/Control Register.
#[derive(Clone, Copy, Debug, PartialEq, Eq, Structural)]
pub struct EdScr(pub u32);

impl EdScr {
    /// All fields zero.
    pub fn new() -> (r: Self)
        ensures
            r.0 == 0,
    {
        EdScr(0)
    }

    pub fn status_bits(&self) -> (r: u8)
        ensures
            r == field32_u8(self.0, 0, 0x3f),
            r <= 0x3f,
    {
        get_field32_u8(self.0, 0, 0x3f)
    }

    pub fn with_status_bits(self, v: u8) -> (r: Self)
        requires
            v <= 0x3f,
        ensures
            r.0 == with_field32_u8(self.0, 0, 0x3f, v),
    {
        EdScr(set_field32_u8(self.0, 0, 0x3f, v))
    }

    pub fn err(&self) -> (r: u8)
        ensures
            r == field32_u8(self.0, 6, 0x1),
            r <= 0x1,
    {
        get_field32_u8(self.0, 6, 0x1)
    }

    pub fn with_err(self, v: u8) -> (r: Self)
        requires
            v <= 0x1,
        ensures
            r.0 == with_field32_u8(self.0, 6, 0x1, v),
    {
        EdScr(set_field32_u8(self.0, 6, 0x1, v))
    }

    pub fn a(&self) -> (r: u8)
        ensures
            r == field32_u8(self.0, 7, 0x1),
            r <= 0x1,
    {
        get_field32_u8(self.0, 7, 0x1)
    }

    pub fn with_a(self, v: u8) -> (r: Self)
        requires
            v <= 0x1,
        ensures
            r.0 == with_field32_u8(self.0, 7, 0x1, v),
    {
        EdScr(set_field32_u8(self.0, 7, 0x1, v))
    }

    pub fn el(&self) -> (r: u8)
        ensures
            r == field32_u8(self.0, 8, 0x3),
            r <= 0x3,
    {
        get_field32_u8(self.0, 8, 0x3)
    }

    pub fn with_el(self, v: u8) -> (r: Self)
        requires
            v <= 0x3,
        ensures
            r.0 == with_field32_u8(self.0, 8, 0x3, v),
    {
        EdScr(set_field32_u8(self.0, 8, 0x3, v))
    }

    pub fn rw(&self) -> (r: u8)
        ensures
            r == field32_u8(self.0, 10, 0xf),
            r <= 0xf,
    {
        get_field32_u8(self.0, 10, 0xf)
    }

    pub fn with_rw(self, v: u8) -> (r: Self)
        requires
            v <= 0xf,
        ensures
            r.0 == with_field32_u8(self.0, 10, 0xf, v),
    {
        EdScr(set_field32_u8(self.0, 10, 0xf, v))
    }

    pub fn hde(&self) -> (r: u8)
        ensures
            r == field32_u8(self.0, 14, 0x1),
            r <= 0x1,
    {
        get_field32_u8(self.0, 14, 0x1)
    }

    pub fn with_hde(self, v: u8) -> (r: Self)
        requires
            v <= 0x1,
        ensures
            r.0 == with_field32_u8(self.0, 14, 0x1, v),
    {
        EdScr(set_field32_u8(self.0, 14, 0x1, v))
    }

    pub fn nse(&self) -> (r: u8)
        ensures
            r == field32_u8(self.0, 15, 0x1),
            r <= 0x1,
    {
        get_field32_u8(self.0, 15, 0x1)
    }

    pub fn with_nse(self, v: u8) -> (r: Self)
        requires
            v <= 0x1,
        ensures
            r.0 == with_field32_u8(self.0, 15, 0x1, v),
    {
        EdScr(set_field32_u8(self.0, 15, 0x1, v))
    }

    pub fn sdd(&self) -> (r: u8)
        ensures
            r == field32_u8(self.0, 16, 0x1),
            r <= 0x1,
    {
        get_field32_u8(self.0, 16, 0x1)
    }

    pub fn with_sdd(self, v: u8) -> (r: Self)
        requires
            v <= 0x1,
        ensures
            r.0 == with_field32_u8(self.0, 16, 0x1, v),
    {
        EdScr(set_field32_u8(self.0, 16, 0x1, v))
    }

    pub fn res17(&self) -> (r: u8)
        ensures
            r == field32_u8(self.0, 17, 0x1),
            r <= 0x1,
    {
        get_field32_u8(self.0, 17, 0x1)
    }

    pub fn with_res17(self, v: u8) -> (r: Self)
        requires
            v <= 0x1,
        ensures
            r.0 == with_field32_u8(self.0, 17, 0x1, v),
    {
        EdScr(set_field32_u8(self.0, 17, 0x1, v))
    }

    pub fn ns(&self) -> (r: u8)
        ensures
            r == field32_u8(self.0, 18, 0x1),
            r <= 0x1,
    {
        get_field32_u8(self.0, 18, 0x1)
    }

    pub fn with_ns(self, v: u8) -> (r: Self)
        requires
            v <= 0x1,
        ensures
            r.0 == with_field32_u8(self.0, 18, 0x1, v),
    {
        EdScr(set_field32_u8(self.0, 18, 0x1, v))
    }

    pub fn sc2(&self) -> (r: u8)
        ensures
            r == field32_u8(self.0, 19, 0x1),
            r <= 0x1,
    {
        get_field32_u8(self.0, 19, 0x1)
    }

    pub fn with_sc2(self, v: u8) -> (r: Self)
        requires
            v <= 0x1,
        ensures
            r.0 == with_field32_u8(self.0, 19, 0x1, v),
    {
        EdScr(set_field32_u8(self.0, 19, 0x1, v))
    }

    pub fn ma(&self) -> (r: u8)
        ensures
            r == field32_u8(self.0, 20, 0x1),
            r <= 0x1,
    {
        get_field32_u8(self.0, 20, 0x1)
    }

    pub fn with_ma(self, v: u8) -> (r: Self)
        requires
            v <= 0x1,
        ensures
            r.0 == with_field32_u8(self.0, 20, 0x1, v),
    {
        EdScr(set_field32_u8(self.0, 20, 0x1, v))
    }

    pub fn tda(&self) -> (r: u8)
        ensures
            r == field32_u8(self.0, 21, 0x1),
            r <= 0x1,
    {
        get_field32_u8(self.0, 21, 0x1)
    }

    pub fn with_tda(self, v: u8) -> (r: Self)
        requires
            v <= 0x1,
        ensures
            r.0 == with_field32_u8(self.0, 21, 0x1, v),
    {
        EdScr(set_field32_u8(self.0, 21, 0x1, v))
    }

    pub fn int_dis(&self) -> (r: u8)
        ensures
            r == field32_u8(self.0, 22, 0x3),
            r <= 0x3,
    {
        get_field32_u8(self.0, 22, 0x3)
    }

    pub fn with_int_dis(self, v: u8) -> (r: Self)
        requires
            v <= 0x3,
        ensures
            r.0 == with_field32_u8(self.0, 22, 0x3, v),
    {
        EdScr(set_field32_u8(self.0, 22, 0x3, v))
    }

    pub fn ite(&self) -> (r: u8)
        ensures
            r == field32_u8(self.0, 24, 0x1),
            r <= 0x1,
    {
        get_field32_u8(self.0, 24, 0x1)
    }

    pub fn with_ite(self, v: u8) -> (r: Self)
        requires
            v <= 0x1,
        ensures
            r.0 == with_field32_u8(self.0, 24, 0x1, v),
    {
        EdScr(set_field32_u8(self.0, 24, 0x1, v))
    }

    pub fn pipe_adv(&self) -> (r: u8)
        ensures
            r == field32_u8(self.0, 25, 0x1),
            r <= 0x1,
    {
        get_field32_u8(self.0, 25, 0x1)
    }

    pub fn with_pipe_adv(self, v: u8) -> (r: Self)
        requires
            v <= 0x1,
        ensures
            r.0 == with_field32_u8(self.0, 25, 0x1, v),
    {
        EdScr(set_field32_u8(self.0, 25, 0x1, v))
    }

    pub fn txu(&self) -> (r: u8)
        ensures
            r == field32_u8(self.0, 26, 0x1),
            r <= 0x1,
    {
        get_field32_u8(self.0, 26, 0x1)
    }

    pub fn with_txu(self, v: u8) -> (r: Self)
        requires
            v <= 0x1,
        ensures
            r.0 == with_field32_u8(self.0, 26, 0x1, v),
    {
        EdScr(set_field32_u8(self.0, 26, 0x1, v))
    }

    pub fn rxo(&self) -> (r: u8)
        ensures
            r == field32_u8(self.0, 27, 0x1),
            r <= 0x1,
    {
        get_field32_u8(self.0, 27, 0x1)
    }

    pub fn with_rxo(self, v: u8) -> (r: Self)
        requires
            v <= 0x1,
        ensures
            r.0 == with_field32_u8(self.0, 27, 0x1, v),
    {
        EdScr(set_field32_u8(self.0, 27, 0x1, v))
    }

    pub fn ito(&self) -> (r: u8)
        ensures
            r == field32_u8(self.0, 28, 0x1),
            r <= 0x1,
    {
        get_field32_u8(self.0, 28, 0x1)
    }

    pub fn with_ito(self, v: u8) -> (r: Self)
        requires
            v <= 0x1,
        ensures
            r.0 == with_field32_u8(self.0, 28, 0x1, v),
    {
        EdScr(set_field32_u8(self.0, 28, 0x1, v))
    }

    pub fn tx_full(&self) -> (r: u8)
        ensures
            r == field32_u8(self.0, 29, 0x1),
            r <= 0x1,
    {
        get_field32_u8(self.0, 29, 0x1)
    }

    pub fn with_tx_full(self, v: u8) -> (r: Self)
        requires
            v <= 0x1,
        ensures
            r.0 == with_field32_u8(self.0, 29, 0x1, v),
    {
        EdScr(set_field32_u8(self.0, 29, 0x1, v))
    }

    pub fn rx_full(&self) -> (r: u8)
        ensures
            r == field32_u8(self.0, 30, 0x1),
            r <= 0x1,
    {
        get_field32_u8(self.0, 30, 0x1)
    }

    pub fn with_rx_full(self, v: u8) -> (r: Self)
        requires
            v <= 0x1,
        ensures
            r.0 == with_field32_u8(self.0, 30, 0x1, v),
    {
        EdScr(set_field32_u8(self.0, 30, 0x1, v))
    }

    pub fn tfo(&self) -> (r: u8)
        ensures
            r == field32_u8(self.0, 31, 0x1),
            r <= 0x1,
    {
        get_field32_u8(self.0, 31, 0x1)
    }

    pub fn with_tfo(self, v: u8) -> (r: Self)
        requires
            v <= 0x1,
        ensures
            r.0 == with_field32_u8(self.0, 31, 0x1, v),
    {
        EdScr(set_field32_u8(self.0, 31, 0x1, v))
    }

}

impl From<u32> for EdScr {
    fn from(v: u32) -> (r: Self) {
        EdScr(v)
    }
}

impl FromSpecImpl<u32> for EdScr {
    open spec fn obeys_from_spec() -> bool {
        true
    }

    open spec fn from_spec(v: u32) -> Self {
        EdScr(v)
    }
}

impl From<EdScr> for u32 {
    fn from(v: EdScr) -> (r: u32) {
        v.0
    }
}

impl FromSpecImpl<EdScr> for u32 {
    open spec fn obeys_from_spec() -> bool {
        true
    }

    open spec fn from_spec(v: EdScr) -> u32 {
        v.0
    }
}
/// Debug state status (EDSCR.STATUS).
#[derive(Clone, Copy, Debug, PartialEq, Eq, Structural)]
pub enum ScrStatus {
    Restarting,
    NonDebug,
    Breakpoint,
    ExternalDbgReq,
    HaltingStepNormal,
    HaltingStepExclusive,
    OsUnlockCatch,
    ResetCatch,
    Watchpoint,
    Hlt,
    SwAccDbgReg,
    ExceptionCatch,
    HaltingStepNoSynd,
    Undefined(u8),
}

/// The value that `v` names; a number that names none is kept in `Undefined`.
pub open spec fn spec_scrstatus_from(v: u8) -> ScrStatus {
    if v == 0x1 {
        ScrStatus::Restarting
    } else if v == 0x2 {
        ScrStatus::NonDebug
    } else if v == 0x7 {
        ScrStatus::Breakpoint
    } else if v == 0x13 {
        ScrStatus::ExternalDbgReq
    } else if v == 0x1b {
        ScrStatus::HaltingStepNormal
    } else if v == 0x1f {
        ScrStatus::HaltingStepExclusive
    } else if v == 0x23 {
        ScrStatus::OsUnlockCatch
    } else if v == 0x27 {
        ScrStatus::ResetCatch
    } else if v == 0x2b {
        ScrStatus::Watchpoint
    } else if v == 0x2f {
        ScrStatus::Hlt
    } else if v == 0x33 {
        ScrStatus::SwAccDbgReg
    } else if v == 0x37 {
        ScrStatus::ExceptionCatch
    } else if v == 0x3b {
        ScrStatus::HaltingStepNoSynd
    } else {
        ScrStatus::Undefined(v)
    }
}

pub open spec fn spec_scrstatus_value(e: ScrStatus) -> u8 {
    match e {
        ScrStatus::Restarting => 0x1,
        ScrStatus::NonDebug => 0x2,
        ScrStatus::Breakpoint => 0x7,
        ScrStatus::ExternalDbgReq => 0x13,
        ScrStatus::HaltingStepNormal => 0x1b,
        ScrStatus::HaltingStepExclusive => 0x1f,
        ScrStatus::OsUnlockCatch => 0x23,
        ScrStatus::ResetCatch => 0x27,
        ScrStatus::Watchpoint => 0x2b,
        ScrStatus::Hlt => 0x2f,
        ScrStatus::SwAccDbgReg => 0x33,
        ScrStatus::ExceptionCatch => 0x37,
        ScrStatus::HaltingStepNoSynd => 0x3b,
        ScrStatus::Undefined(v) => v,
    }
}

impl ScrStatus {
    pub fn from_primitive(v: u8) -> (r: Self)
        ensures
            r == spec_scrstatus_from(v),
    {
        match v {
            0x1 => ScrStatus::Restarting,
            0x2 => ScrStatus::NonDebug,
            0x7 => ScrStatus::Breakpoint,
            0x13 => ScrStatus::ExternalDbgReq,
            0x1b => ScrStatus::HaltingStepNormal,
            0x1f => ScrStatus::HaltingStepExclusive,
            0x23 => ScrStatus::OsUnlockCatch,
            0x27 => ScrStatus::ResetCatch,
            0x2b => ScrStatus::Watchpoint,
            0x2f => ScrStatus::Hlt,
            0x33 => ScrStatus::SwAccDbgReg,
            0x37 => ScrStatus::ExceptionCatch,
            0x3b => ScrStatus::HaltingStepNoSynd,
            _ => ScrStatus::Undefined(v),
        }
    }

    pub fn to_primitive(self) -> (r: u8)
        ensures
            r == spec_scrstatus_value(self),
    {
        match self {
            ScrStatus::Restarting => 0x1,
            ScrStatus::NonDebug => 0x2,
            ScrStatus::Breakpoint => 0x7,
            ScrStatus::ExternalDbgReq => 0x13,
            ScrStatus::HaltingStepNormal => 0x1b,
            ScrStatus::HaltingStepExclusive => 0x1f,
            ScrStatus::OsUnlockCatch => 0x23,
            ScrStatus::ResetCatch => 0x27,
            ScrStatus::Watchpoint => 0x2b,
            ScrStatus::Hlt => 0x2f,
            ScrStatus::SwAccDbgReg => 0x33,
            ScrStatus::ExceptionCatch => 0x37,
            ScrStatus::HaltingStepNoSynd => 0x3b,
            ScrStatus::Undefined(v) => v,
        }
    }
}

impl From<u8> for ScrStatus {
    fn from(v: u8) -> (r: Self) {
        Self::from_primitive(v)
    }
}

impl FromSpecImpl<u8> for ScrStatus {
    open spec fn obeys_from_spec() -> bool {
        true
    }

    open spec fn from_spec(v: u8) -> Self {
        spec_scrstatus_from(v)
    }
}

impl From<ScrStatus> for u8 {
    fn from(v: ScrStatus) -> (r: u8) {
        v.to_primitive()
    }
}

impl FromSpecImpl<ScrStatus> for u8 {
    open spec fn obeys_from_spec() -> bool {
        true
    }

    open spec fn from_spec(v: ScrStatus) -> u8 {
        spec_scrstatus_value(v)
    }
}

/// Reading any number as a `ScrStatus` and writing it back gives the number.
pub proof fn lemma_scrstatus_roundtrip(v: u8)
    ensures
        spec_scrstatus_value(spec_scrstatus_from(v)) == v,
{
}

impl EdScr {
    pub fn status(&self) -> (r: ScrStatus)
        ensures
            r == spec_scrstatus_from(field32_u8(self.0, 0, 0x3f)),
    {
        ScrStatus::from_primitive(self.status_bits())
    }
}

impl ComponentRegBits<Armv8ExtDbgReg> for EdScr {
    open spec fn spec_reg() -> Armv8ExtDbgReg {
        Armv8ExtDbgReg::ED_SCR
    }

    fn reg() -> (r: Armv8ExtDbgReg) {
        Armv8ExtDbgReg::ED_SCR
    }
}

/// Each Armv8-A external debug register sits at its architected offset
/// (DBGDTRRX_EL0 at 0x080, DBGDTRTX_EL0 at 0x08c, EDSCR at 0x088, ...), and each
/// of those offsets names that register.
pub proof fn lemma_ext_dbg_register_offsets()
    ensures
        spec_armv8extdbgreg_value(Armv8ExtDbgReg::ED_ESR) == 0x20,
        spec_armv8extdbgreg_value(Armv8ExtDbgReg::ED_ECR) == 0x24,
        spec_armv8extdbgreg_value(Armv8ExtDbgReg::ED_WAR_LO) == 0x30,
        spec_armv8extdbgreg_value(Armv8ExtDbgReg::ED_WAR_HI) == 0x34,
        spec_armv8extdbgreg_value(Armv8ExtDbgReg::DBG_DTR_RX) == 0x80,
        spec_armv8extdbgreg_value(Armv8ExtDbgReg::ED_ITR) == 0x84,
        spec_armv8extdbgreg_value(Armv8ExtDbgReg::ED_SCR) == 0x88,
        spec_armv8extdbgreg_value(Armv8ExtDbgReg::DBG_DTR_TX) == 0x8c,
        spec_armv8extdbgreg_value(Armv8ExtDbgReg::ED_RCR) == 0x90,
        spec_armv8extdbgreg_value(Armv8ExtDbgReg::ED_ACR) == 0x94,
        spec_armv8extdbgreg_value(Armv8ExtDbgReg::ED_ECCR) == 0x98,
        spec_armv8extdbgreg_value(Armv8ExtDbgReg::ED_PCSR_LO) == 0xa0,
        spec_armv8extdbgreg_value(Armv8ExtDbgReg::ED_CIDSR) == 0xa4,
        spec_armv8extdbgreg_value(Armv8ExtDbgReg::ED_VIDSR) == 0xa8,
        spec_armv8extdbgreg_value(Armv8ExtDbgReg::ED_PCSR_HI) == 0xac,
        spec_armv8extdbgreg_value(Armv8ExtDbgReg::OSLAR) == 0x300,
        spec_armv8extdbgreg_value(Armv8ExtDbgReg::ED_PRCR) == 0x310,
        spec_armv8extdbgreg_value(Armv8ExtDbgReg::ED_PRSR) == 0x314,
        spec_armv8extdbgreg_value(Armv8ExtDbgReg::MIDR) == 0xd00,
        spec_armv8extdbgreg_value(Armv8ExtDbgReg::ED_PFR_LO) == 0xd20,
        spec_armv8extdbgreg_value(Armv8ExtDbgReg::ED_PFR_HI) == 0xd24,
        spec_armv8extdbgreg_value(Armv8ExtDbgReg::ED_DFR_LO) == 0xd28,
        spec_armv8extdbgreg_value(Armv8ExtDbgReg::ED_DFR_HI) == 0xd2c,
        spec_armv8extdbgreg_value(Armv8ExtDbgReg::ED_AA32_PFR_LO) == 0xd60,
        spec_armv8extdbgreg_value(Armv8ExtDbgReg::ED_AA32_PFR_HI) == 0xd64,
        spec_armv8extdbgreg_value(Armv8ExtDbgReg::ED_IT_CTRL) == 0xf00,
        spec_armv8extdbgreg_value(Armv8ExtDbgReg::DBG_CLAIM_SET) == 0xfa0,
        spec_armv8extdbgreg_value(Armv8ExtDbgReg::DBG_CLAIM_CLR) == 0xfa4,
        spec_armv8extdbgreg_value(Armv8ExtDbgReg::ED_DEV_AFF0) == 0xfa8,
        spec_armv8extdbgreg_value(Armv8ExtDbgReg::ED_DEV_AFF1) == 0xfac,
        spec_armv8extdbgreg_value(Armv8ExtDbgReg::ED_LAR) == 0xfb0,
        spec_armv8extdbgreg_value(Armv8ExtDbgReg::ED_LSR) == 0xfb4,
        spec_armv8extdbgreg_value(Armv8ExtDbgReg::DBG_AUTH_STATUS) == 0xfb8,
        spec_armv8extdbgreg_value(Armv8ExtDbgReg::ED_DEV_ARCH) == 0xfbc,
        spec_armv8extdbgreg_value(Armv8ExtDbgReg::ED_DEV_ID2) == 0xfc0,
        spec_armv8extdbgreg_value(Armv8ExtDbgReg::ED_DEV_ID1) == 0xfc4,
        spec_armv8extdbgreg_value(Armv8ExtDbgReg::ED_DEV_ID) == 0xfc8,
        spec_armv8extdbgreg_value(Armv8ExtDbgReg::ED_DEV_TYPE) == 0xfcc,
        spec_armv8extdbgreg_value(Armv8ExtDbgReg::ED_PIDR4) == 0xfd0,
        spec_armv8extdbgreg_value(Armv8ExtDbgReg::ED_PIDR0) == 0xfe0,
        spec_armv8extdbgreg_value(Armv8ExtDbgReg::ED_PIDR1) == 0xfe4,
        spec_armv8extdbgreg_value(Armv8ExtDbgReg::ED_PIDR2) == 0xfe8,
        spec_armv8extdbgreg_value(Armv8ExtDbgReg::ED_PIDR3) == 0xfec,
        spec_armv8extdbgreg_value(Armv8ExtDbgReg::ED_CIDR0) == 0xff0,
        spec_armv8extdbgreg_value(Armv8ExtDbgReg::ED_CIDR1) == 0xff4,
        spec_armv8extdbgreg_value(Armv8ExtDbgReg::ED_CIDR2) == 0xff8,
        spec_armv8extdbgreg_value(Armv8ExtDbgReg::ED_CIDR3) == 0xffc,
        spec_armv8extdbgreg_from(0x20) == Armv8ExtDbgReg::ED_ESR,
        spec_armv8extdbgreg_from(0x24) == Armv8ExtDbgReg::ED_ECR,
        spec_armv8extdbgreg_from(0x30) == Armv8ExtDbgReg::ED_WAR_LO,
        spec_armv8extdbgreg_from(0x34) == Armv8ExtDbgReg::ED_WAR_HI,
        spec_armv8extdbgreg_from(0x80) == Armv8ExtDbgReg::DBG_DTR_RX,
        spec_armv8extdbgreg_from(0x84) == Armv8ExtDbgReg::ED_ITR,
        spec_armv8extdbgreg_from(0x88) == Armv8ExtDbgReg::ED_SCR,
        spec_armv8extdbgreg_from(0x8c) == Armv8ExtDbgReg::DBG_DTR_TX,
        spec_armv8extdbgreg_from(0x90) == Armv8ExtDbgReg::ED_RCR,
        spec_armv8extdbgreg_from(0x94) == Armv8ExtDbgReg::ED_ACR,
        spec_armv8extdbgreg_from(0x98) == Armv8ExtDbgReg::ED_ECCR,
        spec_armv8extdbgreg_from(0xa0) == Armv8ExtDbgReg::ED_PCSR_LO,
        spec_armv8extdbgreg_from(0xa4) == Armv8ExtDbgReg::ED_CIDSR,
        spec_armv8extdbgreg_from(0xa8) == Armv8ExtDbgReg::ED_VIDSR,
        spec_armv8extdbgreg_from(0xac) == Armv8ExtDbgReg::ED_PCSR_HI,
        spec_armv8extdbgreg_from(0x300) == Armv8ExtDbgReg::OSLAR,
        spec_armv8extdbgreg_from(0x310) == Armv8ExtDbgReg::ED_PRCR,
        spec_armv8extdbgreg_from(0x314) == Armv8ExtDbgReg::ED_PRSR,
        spec_armv8extdbgreg_from(0xd00) == Armv8ExtDbgReg::MIDR,
        spec_armv8extdbgreg_from(0xd20) == Armv8ExtDbgReg::ED_PFR_LO,
        spec_armv8extdbgreg_from(0xd24) == Armv8ExtDbgReg::ED_PFR_HI,
        spec_armv8extdbgreg_from(0xd28) == Armv8ExtDbgReg::ED_DFR_LO,
        spec_armv8extdbgreg_from(0xd2c) == Armv8ExtDbgReg::ED_DFR_HI,
        spec_armv8extdbgreg_from(0xd60) == Armv8ExtDbgReg::ED_AA32_PFR_LO,
        spec_armv8extdbgreg_from(0xd64) == Armv8ExtDbgReg::ED_AA32_PFR_HI,
        spec_armv8extdbgreg_from(0xf00) == Armv8ExtDbgReg::ED_IT_CTRL,
        spec_armv8extdbgreg_from(0xfa0) == Armv8ExtDbgReg::DBG_CLAIM_SET,
        spec_armv8extdbgreg_from(0xfa4) == Armv8ExtDbgReg::DBG_CLAIM_CLR,
        spec_armv8extdbgreg_from(0xfa8) == Armv8ExtDbgReg::ED_DEV_AFF0,
        spec_armv8extdbgreg_from(0xfac) == Armv8ExtDbgReg::ED_DEV_AFF1,
        spec_armv8extdbgreg_from(0xfb0) == Armv8ExtDbgReg::ED_LAR,
        spec_armv8extdbgreg_from(0xfb4) == Armv8ExtDbgReg::ED_LSR,
        spec_armv8extdbgreg_from(0xfb8) == Armv8ExtDbgReg::DBG_AUTH_STATUS,
        spec_armv8extdbgreg_from(0xfbc) == Armv8ExtDbgReg::ED_DEV_ARCH,
        spec_armv8extdbgreg_from(0xfc0) == Armv8ExtDbgReg::ED_DEV_ID2,
        spec_armv8extdbgreg_from(0xfc4) == Armv8ExtDbgReg::ED_DEV_ID1,
        spec_armv8extdbgreg_from(0xfc8) == Armv8ExtDbgReg::ED_DEV_ID,
        spec_armv8extdbgreg_from(0xfcc) == Armv8ExtDbgReg::ED_DEV_TYPE,
        spec_armv8extdbgreg_from(0xfd0) == Armv8ExtDbgReg::ED_PIDR4,
        spec_armv8extdbgreg_from(0xfe0) == Armv8ExtDbgReg::ED_PIDR0,
        spec_armv8extdbgreg_from(0xfe4) == Armv8ExtDbgReg::ED_PIDR1,
        spec_armv8extdbgreg_from(0xfe8) == Armv8ExtDbgReg::ED_PIDR2,
        spec_armv8extdbgreg_from(0xfec) == Armv8ExtDbgReg::ED_PIDR3,
        spec_armv8extdbgreg_from(0xff0) == Armv8ExtDbgReg::ED_CIDR0,
        spec_armv8extdbgreg_from(0xff4) == Armv8ExtDbgReg::ED_CIDR1,
        spec_armv8extdbgreg_from(0xff8) == Armv8ExtDbgReg::ED_CIDR2,
        spec_armv8extdbgreg_from(0xffc) == Armv8ExtDbgReg::ED_CIDR3,
{
}

/// Each CTI register sits at its architected offset, and each of those
/// offsets names that register.
pub proof fn lemma_cti_register_offsets()
    ensures
        spec_ctiregister_value(CtiRegister::CTI_CONTROL) == 0x0,
        spec_ctiregister_value(CtiRegister::CTI_INT_ACK) == 0x10,
        spec_ctiregister_value(CtiRegister::CTI_APP_SET) == 0x14,
        spec_ctiregister_value(CtiRegister::CTI_APP_CLEAR) == 0x18,
        spec_ctiregister_value(CtiRegister::CTI_APP_PULSE) == 0x1c,
        spec_ctiregister_value(CtiRegister::CTI_IN_EN0) == 0x20,
        spec_ctiregister_value(CtiRegister::CTI_OUT_EN0) == 0xa0,
        spec_ctiregister_value(CtiRegister::CTI_OUT_EN1) == 0xa4,
        spec_ctiregister_value(CtiRegister::CTI_TRIG_IN_STATUS) == 0x130,
        spec_ctiregister_value(CtiRegister::CTI_TRIG_OUT_STATUS) == 0x134,
        spec_ctiregister_value(CtiRegister::CTI_CH_IN_STATUS) == 0x138,
        spec_ctiregister_value(CtiRegister::CTI_CH_OUT_STATUS) == 0x13c,
        spec_ctiregister_value(CtiRegister::CTI_GATE) == 0x140,
        spec_ctiregister_value(CtiRegister::ASIC_CTL) == 0x144,
        spec_ctiregister_value(CtiRegister::CTI_DEV_CTL) == 0x150,
        spec_ctiregister_value(CtiRegister::CTI_IT_CTRL) == 0xf00,
        spec_ctiregister_value(CtiRegister::CTI_CLAIM_SET) == 0xfa0,
        spec_ctiregister_value(CtiRegister::CTI_CLAIM_CLR) == 0xfa4,
        spec_ctiregister_value(CtiRegister::CTI_DEV_AFF0) == 0xfa8,
        spec_ctiregister_value(CtiRegister::CTI_DEV_AFF1) == 0xfac,
        spec_ctiregister_value(CtiRegister::CTI_LAR) == 0xfb0,
        spec_ctiregister_value(CtiRegister::CTI_LSR) == 0xfb4,
        spec_ctiregister_value(CtiRegister::CTI_AUTH_STATUS) == 0xfb8,
        spec_ctiregister_value(CtiRegister::CTI_DEV_ARCH) == 0xfbc,
        spec_ctiregister_value(CtiRegister::CTI_DEV_ID2) == 0xfc0,
        spec_ctiregister_value(CtiRegister::CTI_DEV_ID1) == 0xfc4,
        spec_ctiregister_value(CtiRegister::CTI_DEV_ID) == 0xfc8,
        spec_ctiregister_value(CtiRegister::CTI_DEV_TYPE) == 0xfcc,
        spec_ctiregister_value(CtiRegister::CTI_PIDR4) == 0xfd0,
        spec_ctiregister_value(CtiRegister::CTI_PIDR0) == 0xfe0,
        spec_ctiregister_value(CtiRegister::CTI_PIDR1) == 0xfe4,
        spec_ctiregister_value(CtiRegister::CTI_PIDR2) == 0xfe8,
        spec_ctiregister_value(CtiRegister::CTI_PIDR3) == 0xfec,
        spec_ctiregister_value(CtiRegister::CTI_CIDR0) == 0xff0,
        spec_ctiregister_value(CtiRegister::CTI_CIDR1) == 0xff4,
        spec_ctiregister_value(CtiRegister::CTI_CIDR2) == 0xff8,
        spec_ctiregister_value(CtiRegister::CTI_CIDR3) == 0xffc,
        spec_ctiregister_from(0x0) == CtiRegister::CTI_CONTROL,
        spec_ctiregister_from(0x10) == CtiRegister::CTI_INT_ACK,
        spec_ctiregister_from(0x14) == CtiRegister::CTI_APP_SET,
        spec_ctiregister_from(0x18) == CtiRegister::CTI_APP_CLEAR,
        spec_ctiregister_from(0x1c) == CtiRegister::CTI_APP_PULSE,
        spec_ctiregister_from(0x20) == CtiRegister::CTI_IN_EN0,
        spec_ctiregister_from(0xa0) == CtiRegister::CTI_OUT_EN0,
        spec_ctiregister_from(0xa4) == CtiRegister::CTI_OUT_EN1,
        spec_ctiregister_from(0x130) == CtiRegister::CTI_TRIG_IN_STATUS,
        spec_ctiregister_from(0x134) == CtiRegister::CTI_TRIG_OUT_STATUS,
        spec_ctiregister_from(0x138) == CtiRegister::CTI_CH_IN_STATUS,
        spec_ctiregister_from(0x13c) == CtiRegister::CTI_CH_OUT_STATUS,
        spec_ctiregister_from(0x140) == CtiRegister::CTI_GATE,
        spec_ctiregister_from(0x144) == CtiRegister::ASIC_CTL,
        spec_ctiregister_from(0x150) == CtiRegister::CTI_DEV_CTL,
        spec_ctiregister_from(0xf00) == CtiRegister::CTI_IT_CTRL,
        spec_ctiregister_from(0xfa0) == CtiRegister::CTI_CLAIM_SET,
        spec_ctiregister_from(0xfa4) == CtiRegister::CTI_CLAIM_CLR,
        spec_ctiregister_from(0xfa8) == CtiRegister::CTI_DEV_AFF0,
        spec_ctiregister_from(0xfac) == CtiRegister::CTI_DEV_AFF1,
        spec_ctiregister_from(0xfb0) == CtiRegister::CTI_LAR,
        spec_ctiregister_from(0xfb4) == CtiRegister::CTI_LSR,
        spec_ctiregister_from(0xfb8) == CtiRegister::CTI_AUTH_STATUS,
        spec_ctiregister_from(0xfbc) == CtiRegister::CTI_DEV_ARCH,
        spec_ctiregister_from(0xfc0) == CtiRegister::CTI_DEV_ID2,
        spec_ctiregister_from(0xfc4) == CtiRegister::CTI_DEV_ID1,
        spec_ctiregister_from(0xfc8) == CtiRegister::CTI_DEV_ID,
        spec_ctiregister_from(0xfcc) == CtiRegister::CTI_DEV_TYPE,
        spec_ctiregister_from(0xfd0) == CtiRegister::CTI_PIDR4,
        spec_ctiregister_from(0xfe0) == CtiRegister::CTI_PIDR0,
        spec_ctiregister_from(0xfe4) == CtiRegister::CTI_PIDR1,
        spec_ctiregister_from(0xfe8) == CtiRegister::CTI_PIDR2,
        spec_ctiregister_from(0xfec) == CtiRegister::CTI_PIDR3,
        spec_ctiregister_from(0xff0) == CtiRegister::CTI_CIDR0,
        spec_ctiregister_from(0xff4) == CtiRegister::CTI_CIDR1,
        spec_ctiregister_from(0xff8) == CtiRegister::CTI_CIDR2,
        spec_ctiregister_from(0xffc) == CtiRegister::CTI_CIDR3,
{
}

} // verus!
