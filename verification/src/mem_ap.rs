//! MEM-AP registers and state.

use vstd::prelude::*;
use vstd::std_specs::convert::FromSpecImpl;
use crate::ap::{ApRegOff, ApRegister};
use crate::bits::{field32_u8, with_field32_u8, get_field32_u8, set_field32_u8};

verus! {

/// What is known of a MEM-AP: the low word of its transfer address.
#[derive(Clone, Copy, Debug, PartialEq, Eq, Structural)]
pub struct MemApState {
    pub tar_lo: u32,
}

impl MemApState {
    pub fn new() -> (r: Self)
        ensures
            r.tar_lo == 0,
    {
        MemApState { tar_lo: 0 }
    }
}

/// The name of a 32-bit MEM-AP register, by its byte offset.
#[allow(non_camel_case_types)]
#[derive(Clone, Copy, Debug, PartialEq, Eq, Structural)]
pub enum MemApRegister {
    CSW,
    TAR_LO,
    TAR_HI,
    DRW,
    BD0,
    BD1,
    BD2,
    BD3,
    MBT,
    T0TR,
    CFG1,
    BASE_HI,
    CFG,
    BASE_LO,
    IDR,
}

/// The value that `v` names, or `None` when it names none.
pub open spec fn spec_memapregister_from(v: u8) -> Option<MemApRegister> {
    if v == 0x0 {
        Some(MemApRegister::CSW)
    } else if v == 0x4 {
        Some(MemApRegister::TAR_LO)
    } else if v == 0x8 {
        Some(MemApRegister::TAR_HI)
    } else if v == 0xc {
        Some(MemApRegister::DRW)
    } else if v == 0x10 {
        Some(MemApRegister::BD0)
    } else if v == 0x14 {
        Some(MemApRegister::BD1)
    } else if v == 0x18 {
        Some(MemApRegister::BD2)
    } else if v == 0x1c {
        Some(MemApRegister::BD3)
    } else if v == 0x20 {
        Some(MemApRegister::MBT)
    } else if v == 0x30 {
        Some(MemApRegister::T0TR)
    } else if v == 0xe0 {
        Some(MemApRegister::CFG1)
    } else if v == 0xf0 {
        Some(MemApRegister::BASE_HI)
    } else if v == 0xf4 {
        Some(MemApRegister::CFG)
    } else if v == 0xf8 {
        Some(MemApRegister::BASE_LO)
    } else if v == 0xfc {
        Some(MemApRegister::IDR)
    } else {
        None
    }
}

pub open spec fn spec_memapregister_value(e: MemApRegister) -> u8 {
    match e {
        MemApRegister::CSW => 0x0,
        MemApRegister::TAR_LO => 0x4,
        MemApRegister::TAR_HI => 0x8,
        MemApRegister::DRW => 0xc,
        MemApRegister::BD0 => 0x10,
        MemApRegister::BD1 => 0x14,
        MemApRegister::BD2 => 0x18,
        MemApRegister::BD3 => 0x1c,
        MemApRegister::MBT => 0x20,
        MemApRegister::T0TR => 0x30,
        MemApRegister::CFG1 => 0xe0,
        MemApRegister::BASE_HI => 0xf0,
        MemApRegister::CFG => 0xf4,
        MemApRegister::BASE_LO => 0xf8,
        MemApRegister::IDR => 0xfc,
    }
}

impl MemApRegister {
    /// The value that `v` names; a number that names none is refused.
    pub fn try_from_primitive(v: u8) -> (r: Option<Self>)
        ensures
            r == spec_memapregister_from(v),
    {
        match v {
            0x0 => Some(MemApRegister::CSW),
            0x4 => Some(MemApRegister::TAR_LO),
            0x8 => Some(MemApRegister::TAR_HI),
            0xc => Some(MemApRegister::DRW),
            0x10 => Some(MemApRegister::BD0),
            0x14 => Some(MemApRegister::BD1),
            0x18 => Some(MemApRegister::BD2),
            0x1c => Some(MemApRegister::BD3),
            0x20 => Some(MemApRegister::MBT),
            0x30 => Some(MemApRegister::T0TR),
            0xe0 => Some(MemApRegister::CFG1),
            0xf0 => Some(MemApRegister::BASE_HI),
            0xf4 => Some(MemApRegister::CFG),
            0xf8 => Some(MemApRegister::BASE_LO),
            0xfc => Some(MemApRegister::IDR),
            _ => None,
        }
    }

    pub fn to_primitive(self) -> (r: u8)
        ensures
            r == spec_memapregister_value(self),
    {
        match self {
            MemApRegister::CSW => 0x0,
            MemApRegister::TAR_LO => 0x4,
            MemApRegister::TAR_HI => 0x8,
            MemApRegister::DRW => 0xc,
            MemApRegister::BD0 => 0x10,
            MemApRegister::BD1 => 0x14,
            MemApRegister::BD2 => 0x18,
            MemApRegister::BD3 => 0x1c,
            MemApRegister::MBT => 0x20,
            MemApRegister::T0TR => 0x30,
            MemApRegister::CFG1 => 0xe0,
            MemApRegister::BASE_HI => 0xf0,
            MemApRegister::CFG => 0xf4,
            MemApRegister::BASE_LO => 0xf8,
            MemApRegister::IDR => 0xfc,
        }
    }
}

/// Writing a `MemApRegister` as a number and reading it back gives it again; a
/// number that is read as one is the number it writes.
pub proof fn lemma_memapregister_roundtrip(e: MemApRegister, v: u8)
    ensures
        spec_memapregister_from(spec_memapregister_value(e)) == Some(e),
        spec_memapregister_from(v) matches Some(x) ==> spec_memapregister_value(x) == v,
{
}

impl ApRegister for MemApRegister {
    open spec fn spec_ap_reg_off(&self) -> u8 {
        spec_memapregister_value(*self)
    }

    fn ap_reg_off(&self) -> (r: ApRegOff) {
        ApRegOff(self.to_primitive())
    }
}

/// Every MEM-AP register offset is word aligned.
pub proof fn lemma_mem_ap_offsets_aligned(reg: MemApRegister)
    ensures
        spec_memapregister_value(reg) & 0x3 == 0,
{
    let v = spec_memapregister_value(reg);
    assert(v == 0x00 || v == 0x04 || v == 0x08 || v == 0x0c || v == 0x10 || v == 0x14 || v == 0x18
        || v == 0x1c || v == 0x20 || v == 0x30 || v == 0xe0 || v == 0xf0 || v == 0xf4 || v == 0xf8
        || v == 0xfc);
    assert((v == 0x00 || v == 0x04 || v == 0x08 || v == 0x0c || v == 0x10 || v == 0x14 || v == 0x18
        || v == 0x1c || v == 0x20 || v == 0x30 || v == 0xe0 || v == 0xf0 || v == 0xf4 || v == 0xf8
        || v == 0xfc) ==> v & 0x3 == 0) by (bit_vector);
}

/// MEM-AP access size (CSW.Size).
#[derive(Clone, Copy, Debug, PartialEq, Eq, Structural)]
pub enum MemApSize {
    Byte,
    Half,
    Word,
    Double,
    Reserved(u8),
}

/// The value that `v` names; a number that names none is kept in `Reserved`.
pub open spec fn spec_memapsize_from(v: u8) -> MemApSize {
    if v == 0x0 {
        MemApSize::Byte
    } else if v == 0x1 {
        MemApSize::Half
    } else if v == 0x2 {
        MemApSize::Word
    } else if v == 0x3 {
        MemApSize::Double
    } else {
        MemApSize::Reserved(v)
    }
}

pub open spec fn spec_memapsize_value(e: MemApSize) -> u8 {
    match e {
        MemApSize::Byte => 0x0,
        MemApSize::Half => 0x1,
        MemApSize::Word => 0x2,
        MemApSize::Double => 0x3,
        MemApSize::Reserved(v) => v,
    }
}

impl MemApSize {
    pub fn from_primitive(v: u8) -> (r: Self)
        ensures
            r == spec_memapsize_from(v),
    {
        match v {
            0x0 => MemApSize::Byte,
            0x1 => MemApSize::Half,
            0x2 => MemApSize::Word,
            0x3 => MemApSize::Double,
            _ => MemApSize::Reserved(v),
        }
    }

    pub fn to_primitive(self) -> (r: u8)
        ensures
            r == spec_memapsize_value(self),
    {
        match self {
            MemApSize::Byte => 0x0,
            MemApSize::Half => 0x1,
            MemApSize::Word => 0x2,
            MemApSize::Double => 0x3,
            MemApSize::Reserved(v) => v,
        }
    }
}

impl From<u8> for MemApSize {
    fn from(v: u8) -> (r: Self) {
        Self::from_primitive(v)
    }
}

impl FromSpecImpl<u8> for MemApSize {
    open spec fn obeys_from_spec() -> bool {
        true
    }

    open spec fn from_spec(v: u8) -> Self {
        spec_memapsize_from(v)
    }
}

impl From<MemApSize> for u8 {
    fn from(v: MemApSize) -> (r: u8) {
        v.to_primitive()
    }
}

impl FromSpecImpl<MemApSize> for u8 {
    open spec fn obeys_from_spec() -> bool {
        true
    }

    open spec fn from_spec(v: MemApSize) -> u8 {
        spec_memapsize_value(v)
    }
}

/// Reading any number as a `MemApSize` and writing it back gives the number.
pub proof fn lemma_memapsize_roundtrip(v: u8)
    ensures
        spec_memapsize_value(spec_memapsize_from(v)) == v,
{
}
/// MEM-AP address increment mode (CSW.AddrInc).
#[derive(Clone, Copy, Debug, PartialEq, Eq, Structural)]
pub enum MemApAddrInc {
    Disabled,
    IncrementSingle,
    IncrementPacked,
    Reserved(u8),
}

/// The value that `v` names; a number that names none is kept in `Reserved`.
pub open spec fn spec_memapaddrinc_from(v: u8) -> MemApAddrInc {
    if v == 0x0 {
        MemApAddrInc::Disabled
    } else if v == 0x1 {
        MemApAddrInc::IncrementSingle
    } else if v == 0x2 {
        MemApAddrInc::IncrementPacked
    } else {
        MemApAddrInc::Reserved(v)
    }
}

pub open spec fn spec_memapaddrinc_value(e: MemApAddrInc) -> u8 {
    match e {
        MemApAddrInc::Disabled => 0x0,
        MemApAddrInc::IncrementSingle => 0x1,
        MemApAddrInc::IncrementPacked => 0x2,
        MemApAddrInc::Reserved(v) => v,
    }
}

impl MemApAddrInc {
    pub fn from_primitive(v: u8) -> (r: Self)
        ensures
            r == spec_memapaddrinc_from(v),
    {
        match v {
            0x0 => MemApAddrInc::Disabled,
            0x1 => MemApAddrInc::IncrementSingle,
            0x2 => MemApAddrInc::IncrementPacked,
            _ => MemApAddrInc::Reserved(v),
        }
    }

    pub fn to_primitive(self) -> (r: u8)
        ensures
            r == spec_memapaddrinc_value(self),
    {
        match self {
            MemApAddrInc::Disabled => 0x0,
            MemApAddrInc::IncrementSingle => 0x1,
            MemApAddrInc::IncrementPacked => 0x2,
            MemApAddrInc::Reserved(v) => v,
        }
    }
}

impl From<u8> for MemApAddrInc {
    fn from(v: u8) -> (r: Self) {
        Self::from_primitive(v)
    }
}

impl FromSpecImpl<u8> for MemApAddrInc {
    open spec fn obeys_from_spec() -> bool {
        true
    }

    open spec fn from_spec(v: u8) -> Self {
        spec_memapaddrinc_from(v)
    }
}

impl From<MemApAddrInc> for u8 {
    fn from(v: MemApAddrInc) -> (r: u8) {
        v.to_primitive()
    }
}

impl FromSpecImpl<MemApAddrInc> for u8 {
    open spec fn obeys_from_spec() -> bool {
        true
    }

    open spec fn from_spec(v: MemApAddrInc) -> u8 {
        spec_memapaddrinc_value(v)
    }
}

/// Reading any number as a `MemApAddrInc` and writing it back gives the number.
pub proof fn lemma_memapaddrinc_roundtrip(v: u8)
    ensures
        spec_memapaddrinc_value(spec_memapaddrinc_from(v)) == v,
{
}
/// MEM-AP mode (CSW.Mode).
#[derive(Clone, Copy, Debug, PartialEq, Eq, Structural)]
pub enum MemApMode {
    Basic,
    BarrierSupport,
    Reserved(u8),
}

/// The value that `v` names; a number that names none is kept in `Reserved`.
pub open spec fn spec_memapmode_from(v: u8) -> MemApMode {
    if v == 0x0 {
        MemApMode::Basic
    } else if v == 0x1 {
        MemApMode::BarrierSupport
    } else {
        MemApMode::Reserved(v)
    }
}

pub open spec fn spec_memapmode_value(e: MemApMode) -> u8 {
    match e {
        MemApMode::Basic => 0x0,
        MemApMode::BarrierSupport => 0x1,
        MemApMode::Reserved(v) => v,
    }
}

impl MemApMode {
    pub fn from_primitive(v: u8) -> (r: Self)
        ensures
            r == spec_memapmode_from(v),
    {
        match v {
            0x0 => MemApMode::Basic,
            0x1 => MemApMode::BarrierSupport,
            _ => MemApMode::Reserved(v),
        }
    }

    pub fn to_primitive(self) -> (r: u8)
        ensures
            r == spec_memapmode_value(self),
    {
        match self {
            MemApMode::Basic => 0x0,
            MemApMode::BarrierSupport => 0x1,
            MemApMode::Reserved(v) => v,
        }
    }
}

impl From<u8> for MemApMode {
    fn from(v: u8) -> (r: Self) {
        Self::from_primitive(v)
    }
}

impl FromSpecImpl<u8> for MemApMode {
    open spec fn obeys_from_spec() -> bool {
        true
    }

    open spec fn from_spec(v: u8) -> Self {
        spec_memapmode_from(v)
    }
}

impl From<MemApMode> for u8 {
    fn from(v: MemApMode) -> (r: u8) {
        v.to_primitive()
    }
}

impl FromSpecImpl<MemApMode> for u8 {
    open spec fn obeys_from_spec() -> bool {
        true
    }

    open spec fn from_spec(v: MemApMode) -> u8 {
        spec_memapmode_value(v)
    }
}

/// Reading any number as a `MemApMode` and writing it back gives the number.
pub proof fn lemma_memapmode_roundtrip(v: u8)
    ensures
        spec_memapmode_value(spec_memapmode_from(v)) == v,
{
}
/// MEM-AP Control/Status Word Register.
#[derive(Clone, Copy, Debug, PartialEq, Eq, Structural)]
pub struct MemApCsw(pub u32);

impl MemApCsw {
    /// All fields zero.
    pub fn new() -> (r: Self)
        ensures
            r.0 == 0,
    {
        MemApCsw(0)
    }

    pub fn size(&self) -> (r: u8)
        ensures
            r == field32_u8(self.0, 0, 0x7),
            r <= 0x7,
    {
        get_field32_u8(self.0, 0, 0x7)
    }

    pub fn with_size(self, v: u8) -> (r: Self)
        requires
            v <= 0x7,
        ensures
            r.0 == with_field32_u8(self.0, 0, 0x7, v),
    {
        MemApCsw(set_field32_u8(self.0, 0, 0x7, v))
    }

    pub fn res3(&self) -> (r: u8)
        ensures
            r == field32_u8(self.0, 3, 0x1),
            r <= 0x1,
    {
        get_field32_u8(self.0, 3, 0x1)
    }

    pub fn with_res3(self, v: u8) -> (r: Self)
        requires
            v <= 0x1,
        ensures
            r.0 == with_field32_u8(self.0, 3, 0x1, v),
    {
        MemApCsw(set_field32_u8(self.0, 3, 0x1, v))
    }

    pub fn addr_inc(&self) -> (r: u8)
        ensures
            r == field32_u8(self.0, 4, 0x3),
            r <= 0x3,
    {
        get_field32_u8(self.0, 4, 0x3)
    }

    pub fn with_addr_inc(self, v: u8) -> (r: Self)
        requires
            v <= 0x3,
        ensures
            r.0 == with_field32_u8(self.0, 4, 0x3, v),
    {
        MemApCsw(set_field32_u8(self.0, 4, 0x3, v))
    }

    pub fn device_en(&self) -> (r: u8)
        ensures
            r == field32_u8(self.0, 6, 0x1),
            r <= 0x1,
    {
        get_field32_u8(self.0, 6, 0x1)
    }

    pub fn with_device_en(self, v: u8) -> (r: Self)
        requires
            v <= 0x1,
        ensures
            r.0 == with_field32_u8(self.0, 6, 0x1, v),
    {
        MemApCsw(set_field32_u8(self.0, 6, 0x1, v))
    }

    pub fn tr_in_prog(&self) -> (r: u8)
        ensures
            r == field32_u8(self.0, 7, 0x1),
            r <= 0x1,
    {
        get_field32_u8(self.0, 7, 0x1)
    }

    pub fn with_tr_in_prog(self, v: u8) -> (r: Self)
        requires
            v <= 0x1,
        ensures
            r.0 == with_field32_u8(self.0, 7, 0x1, v),
    {
        MemApCsw(set_field32_u8(self.0, 7, 0x1, v))
    }

    pub fn mode(&self) -> (r: u8)
        ensures
            r == field32_u8(self.0, 8, 0xf),
            r <= 0xf,
    {
        get_field32_u8(self.0, 8, 0xf)
    }

    pub fn with_mode(self, v: u8) -> (r: Self)
        requires
            v <= 0xf,
        ensures
            r.0 == with_field32_u8(self.0, 8, 0xf, v),
    {
        MemApCsw(set_field32_u8(self.0, 8, 0xf, v))
    }

    pub fn ty(&self) -> (r: u8)
        ensures
            r == field32_u8(self.0, 12, 0x7),
            r <= 0x7,
    {
        get_field32_u8(self.0, 12, 0x7)
    }

    pub fn with_ty(self, v: u8) -> (r: Self)
        requires
            v <= 0x7,
        ensures
            r.0 == with_field32_u8(self.0, 12, 0x7, v),
    {
        MemApCsw(set_field32_u8(self.0, 12, 0x7, v))
    }

    pub fn mte(&self) -> (r: u8)
        ensures
            r == field32_u8(self.0, 15, 0x1),
            r <= 0x1,
    {
        get_field32_u8(self.0, 15, 0x1)
    }

    pub fn with_mte(self, v: u8) -> (r: Self)
        requires
            v <= 0x1,
        ensures
            r.0 == with_field32_u8(self.0, 15, 0x1, v),
    {
        MemApCsw(set_field32_u8(self.0, 15, 0x1, v))
    }

    pub fn res16(&self) -> (r: u8)
        ensures
            r == field32_u8(self.0, 16, 0x7f),
            r <= 0x7f,
    {
        get_field32_u8(self.0, 16, 0x7f)
    }

    pub fn with_res16(self, v: u8) -> (r: Self)
        requires
            v <= 0x7f,
        ensures
            r.0 == with_field32_u8(self.0, 16, 0x7f, v),
    {
        MemApCsw(set_field32_u8(self.0, 16, 0x7f, v))
    }

    pub fn spiden(&self) -> (r: u8)
        ensures
            r == field32_u8(self.0, 23, 0x1),
            r <= 0x1,
    {
        get_field32_u8(self.0, 23, 0x1)
    }

    pub fn with_spiden(self, v: u8) -> (r: Self)
        requires
            v <= 0x1,
        ensures
            r.0 == with_field32_u8(self.0, 23, 0x1, v),
    {
        MemApCsw(set_field32_u8(self.0, 23, 0x1, v))
    }

    pub fn prot(&self) -> (r: u8)
        ensures
            r == field32_u8(self.0, 24, 0x7f),
            r <= 0x7f,
    {
        get_field32_u8(self.0, 24, 0x7f)
    }

    pub fn with_prot(self, v: u8) -> (r: Self)
        requires
            v <= 0x7f,
        ensures
            r.0 == with_field32_u8(self.0, 24, 0x7f, v),
    {
        MemApCsw(set_field32_u8(self.0, 24, 0x7f, v))
    }

    pub fn dbg_sw_enable(&self) -> (r: u8)
        ensures
            r == field32_u8(self.0, 31, 0x1),
            r <= 0x1,
    {
        get_field32_u8(self.0, 31, 0x1)
    }

    pub fn with_dbg_sw_enable(self, v: u8) -> (r: Self)
        requires
            v <= 0x1,
        ensures
            r.0 == with_field32_u8(self.0, 31, 0x1, v),
    {
        MemApCsw(set_field32_u8(self.0, 31, 0x1, v))
    }

}

impl From<u32> for MemApCsw {
    fn from(v: u32) -> (r: Self) {
        MemApCsw(v)
    }
}

impl FromSpecImpl<u32> for MemApCsw {
    open spec fn obeys_from_spec() -> bool {
        true
    }

    open spec fn from_spec(v: u32) -> Self {
        MemApCsw(v)
    }
}

impl From<MemApCsw> for u32 {
    fn from(v: MemApCsw) -> (r: u32) {
        v.0
    }
}

impl FromSpecImpl<MemApCsw> for u32 {
    open spec fn obeys_from_spec() -> bool {
        true
    }

    open spec fn from_spec(v: MemApCsw) -> u32 {
        v.0
    }
}

/// Each MEM-AP register sits at its ADIv5 offset, and each of those offsets
/// names that register.
pub proof fn lemma_mem_ap_register_offsets()
    ensures
        spec_memapregister_value(MemApRegister::CSW) == 0x0,
        spec_memapregister_value(MemApRegister::TAR_LO) == 0x4,
        spec_memapregister_value(MemApRegister::TAR_HI) == 0x8,
        spec_memapregister_value(MemApRegister::DRW) == 0xc,
        spec_memapregister_value(MemApRegister::BD0) == 0x10,
        spec_memapregister_value(MemApRegister::BD1) == 0x14,
        spec_memapregister_value(MemApRegister::BD2) == 0x18,
        spec_memapregister_value(MemApRegister::BD3) == 0x1c,
        spec_memapregister_value(MemApRegister::MBT) == 0x20,
        spec_memapregister_value(MemApRegister::T0TR) == 0x30,
        spec_memapregister_value(MemApRegister::CFG1) == 0xe0,
        spec_memapregister_value(MemApRegister::BASE_HI) == 0xf0,
        spec_memapregister_value(MemApRegister::CFG) == 0xf4,
        spec_memapregister_value(MemApRegister::BASE_LO) == 0xf8,
        spec_memapregister_value(MemApRegister::IDR) == 0xfc,
        spec_memapregister_from(0x0) == Some(MemApRegister::CSW),
        spec_memapregister_from(0x4) == Some(MemApRegister::TAR_LO),
        spec_memapregister_from(0x8) == Some(MemApRegister::TAR_HI),
        spec_memapregister_from(0xc) == Some(MemApRegister::DRW),
        spec_memapregister_from(0x10) == Some(MemApRegister::BD0),
        spec_memapregister_from(0x14) == Some(MemApRegister::BD1),
        spec_memapregister_from(0x18) == Some(MemApRegister::BD2),
        spec_memapregister_from(0x1c) == Some(MemApRegister::BD3),
        spec_memapregister_from(0x20) == Some(MemApRegister::MBT),
        spec_memapregister_from(0x30) == Some(MemApRegister::T0TR),
        spec_memapregister_from(0xe0) == Some(MemApRegister::CFG1),
        spec_memapregister_from(0xf0) == Some(MemApRegister::BASE_HI),
        spec_memapregister_from(0xf4) == Some(MemApRegister::CFG),
        spec_memapregister_from(0xf8) == Some(MemApRegister::BASE_LO),
        spec_memapregister_from(0xfc) == Some(MemApRegister::IDR),
{
}

} // verus!
