//! Debug port (DP) registers.

use vstd::prelude::*;
use vstd::std_specs::convert::FromSpecImpl;
use crate::xfer::TransferWordIdx;
use crate::bits::{
    field32, field32_u8, field32_u16, with_field32, with_field32_u8, with_field32_u16, get_field32,
    get_field32_u8, get_field32_u16, set_field32, set_field32_u8, set_field32_u16,
};

verus! {

/// Debug port (DP) register name.
#[derive(Clone, Copy, Debug, PartialEq, Eq, Structural)]
pub enum DpRegister {
    /// Offset 0x0
    DPIDR,
    /// Offset 0x4, DPBANKSEL=0x0
    CTRLSTAT,
    /// Offset 0x4, DPBANKSEL=0x1
    DLCR,
    /// Offset 0x4, DPBANKSEL=0x2
    TARGETID,
    /// Offset 0x4, DPBANKSEL=0x3
    DLPIDR,
    /// Offset 0x4, DPBANKSEL=0x4
    EVENTSTAT,
    /// Offset 0x8
    SELECT,
    /// Offset 0xc
    RDBUFF,
    Undef,
}

/// The DPBANKSEL value used to access a register (only the banked registers
/// at offset 0x4 have one).
pub open spec fn spec_dpbanksel(r: DpRegister) -> Option<u8> {
    match r {
        DpRegister::CTRLSTAT => Some(0),
        DpRegister::DLCR => Some(1),
        DpRegister::TARGETID => Some(2),
        DpRegister::DLPIDR => Some(3),
        DpRegister::EVENTSTAT => Some(4),
        _ => None,
    }
}

/// The word index (`A[3:2]`) of a register: its byte offset divided by 4.
pub open spec fn spec_dp_word(r: DpRegister) -> u8 {
    match r {
        DpRegister::DPIDR => 0,
        DpRegister::CTRLSTAT => 1,
        DpRegister::DLCR => 1,
        DpRegister::TARGETID => 1,
        DpRegister::DLPIDR => 1,
        DpRegister::EVENTSTAT => 1,
        DpRegister::SELECT => 2,
        DpRegister::RDBUFF => 3,
        DpRegister::Undef => 0,
    }
}

/// The register at word index `word` when DPBANKSEL is `dpbanksel`.
pub open spec fn spec_dp_from_address(word: u8, dpbanksel: usize) -> DpRegister {
    if word == 0 {
        DpRegister::DPIDR
    } else if word == 1 {
        if dpbanksel == 0 {
            DpRegister::CTRLSTAT
        } else if dpbanksel == 1 {
            DpRegister::DLCR
        } else if dpbanksel == 2 {
            DpRegister::TARGETID
        } else if dpbanksel == 3 {
            DpRegister::DLPIDR
        } else if dpbanksel == 4 {
            DpRegister::EVENTSTAT
        } else {
            DpRegister::Undef
        }
    } else if word == 2 {
        DpRegister::SELECT
    } else if word == 3 {
        DpRegister::RDBUFF
    } else {
        DpRegister::Undef
    }
}

impl DpRegister {
    /// Return the DPBANKSEL value used to access this register.
    pub fn dpbanksel(&self) -> (r: Option<u8>)
        ensures
            r == spec_dpbanksel(*self),
    {
        match self {
            DpRegister::DPIDR => None,
            DpRegister::CTRLSTAT => Some(0),
            DpRegister::DLCR => Some(1),
            DpRegister::TARGETID => Some(2),
            DpRegister::DLPIDR => Some(3),
            DpRegister::EVENTSTAT => Some(4),
            DpRegister::SELECT => None,
            DpRegister::RDBUFF => None,
            DpRegister::Undef => None,
        }
    }

    /// Return the word index (`A[3:2]`) used to access this register.
    pub fn word_idx(&self) -> (r: TransferWordIdx)
        requires
            *self != DpRegister::Undef,
        ensures
            r@ == spec_dp_word(*self),
    {
        proof {
            crate::xfer::lemma_word_index_masks(0);
        }
        match self {
            DpRegister::DPIDR => TransferWordIdx::new_from_offset(0x00),
            DpRegister::CTRLSTAT => TransferWordIdx::new_from_offset(0x04),
            DpRegister::DLCR => TransferWordIdx::new_from_offset(0x04),
            DpRegister::TARGETID => TransferWordIdx::new_from_offset(0x04),
            DpRegister::DLPIDR => TransferWordIdx::new_from_offset(0x04),
            DpRegister::EVENTSTAT => TransferWordIdx::new_from_offset(0x04),
            DpRegister::SELECT => TransferWordIdx::new_from_offset(0x08),
            DpRegister::RDBUFF => TransferWordIdx::new_from_offset(0x0c),
            DpRegister::Undef => TransferWordIdx::new_from_offset(0x00),
        }
    }

    /// The register at `word_idx` when DPBANKSEL is `dpbanksel`.
    pub fn from_address(word_idx: TransferWordIdx, dpbanksel: usize) -> (r: Self)
        ensures
            r == spec_dp_from_address(word_idx@, dpbanksel),
    {
        let w = word_idx.bits();
        if w == 0 {
            DpRegister::DPIDR
        } else if w == 1 {
            if dpbanksel == 0 {
                DpRegister::CTRLSTAT
            } else if dpbanksel == 1 {
                DpRegister::DLCR
            } else if dpbanksel == 2 {
                DpRegister::TARGETID
            } else if dpbanksel == 3 {
                DpRegister::DLPIDR
            } else if dpbanksel == 4 {
                DpRegister::EVENTSTAT
            } else {
                DpRegister::Undef
            }
        } else if w == 2 {
            DpRegister::SELECT
        } else if w == 3 {
            DpRegister::RDBUFF
        } else {
            DpRegister::Undef
        }
    }
}

/// Addressing a register by its word index, with its own DPBANKSEL where it
/// has one (any bank where it has none), names that register again.
pub proof fn lemma_dp_register_address_roundtrip(reg: DpRegister, dpbanksel: usize)
    requires
        reg != DpRegister::Undef,
        spec_dpbanksel(reg) matches Some(b) ==> dpbanksel == b,
    ensures
        spec_dp_from_address(spec_dp_word(reg), dpbanksel) == reg,
{
}

/// Values for CTRL/STAT.TRNMODE.
#[derive(Clone, Copy, Debug, PartialEq, Eq, Structural)]
pub enum DpApTransferMode {
    Normal,
    PushedVerify,
    PushedCompare,
    Reserved,
}

pub open spec fn spec_trn_mode_from_byte(b: u8) -> Option<DpApTransferMode> {
    if b == 0 {
        Some(DpApTransferMode::Normal)
    } else if b == 1 {
        Some(DpApTransferMode::PushedVerify)
    } else if b == 2 {
        Some(DpApTransferMode::PushedCompare)
    } else if b == 3 {
        Some(DpApTransferMode::Reserved)
    } else {
        None
    }
}

pub open spec fn spec_trn_mode_byte(m: DpApTransferMode) -> u8 {
    match m {
        DpApTransferMode::Normal => 0,
        DpApTransferMode::PushedVerify => 1,
        DpApTransferMode::PushedCompare => 2,
        DpApTransferMode::Reserved => 3,
    }
}

impl DpApTransferMode {
    /// The mode that `b` names; values above 3 are refused.
    pub fn try_from_primitive(b: u8) -> (r: Result<Self, crate::packet::DapCmdErr>)
        ensures
            match spec_trn_mode_from_byte(b) {
                Some(m) => r == Ok::<Self, crate::packet::DapCmdErr>(m),
                None => r == Err::<Self, crate::packet::DapCmdErr>(crate::packet::DapCmdErr::InvalidValue(b)),
            },
    {
        match b {
            0 => Ok(DpApTransferMode::Normal),
            1 => Ok(DpApTransferMode::PushedVerify),
            2 => Ok(DpApTransferMode::PushedCompare),
            3 => Ok(DpApTransferMode::Reserved),
            _ => Err(crate::packet::DapCmdErr::InvalidValue(b)),
        }
    }

    pub fn to_u8(self) -> (r: u8)
        ensures
            r == spec_trn_mode_byte(self),
    {
        match self {
            DpApTransferMode::Normal => 0,
            DpApTransferMode::PushedVerify => 1,
            DpApTransferMode::PushedCompare => 2,
            DpApTransferMode::Reserved => 3,
        }
    }
}

/// DP CTRL/STAT register.
#[derive(Clone, Copy, Debug, PartialEq, Eq, Structural)]
pub struct DpCtrlStat(pub u32);

impl DpCtrlStat {
    /// All fields zero.
    pub fn new() -> (r: Self)
        ensures
            r.0 == 0,
    {
        DpCtrlStat(0)
    }

    pub fn orun_detect(&self) -> (r: u8)
        ensures
            r == field32_u8(self.0, 0, 0x1),
            r <= 0x1,
    {
        get_field32_u8(self.0, 0, 0x1)
    }

    pub fn with_orun_detect(self, v: u8) -> (r: Self)
        requires
            v <= 0x1,
        ensures
            r.0 == with_field32_u8(self.0, 0, 0x1, v),
    {
        DpCtrlStat(set_field32_u8(self.0, 0, 0x1, v))
    }

    pub fn sticky_orun(&self) -> (r: u8)
        ensures
            r == field32_u8(self.0, 1, 0x1),
            r <= 0x1,
    {
        get_field32_u8(self.0, 1, 0x1)
    }

    pub fn with_sticky_orun(self, v: u8) -> (r: Self)
        requires
            v <= 0x1,
        ensures
            r.0 == with_field32_u8(self.0, 1, 0x1, v),
    {
        DpCtrlStat(set_field32_u8(self.0, 1, 0x1, v))
    }

    pub fn trn_mode(&self) -> (r: u8)
        ensures
            r == field32_u8(self.0, 2, 0x3),
            r <= 0x3,
    {
        get_field32_u8(self.0, 2, 0x3)
    }

    pub fn with_trn_mode(self, v: u8) -> (r: Self)
        requires
            v <= 0x3,
        ensures
            r.0 == with_field32_u8(self.0, 2, 0x3, v),
    {
        DpCtrlStat(set_field32_u8(self.0, 2, 0x3, v))
    }

    pub fn sticky_cmp(&self) -> (r: u8)
        ensures
            r == field32_u8(self.0, 4, 0x1),
            r <= 0x1,
    {
        get_field32_u8(self.0, 4, 0x1)
    }

    pub fn with_sticky_cmp(self, v: u8) -> (r: Self)
        requires
            v <= 0x1,
        ensures
            r.0 == with_field32_u8(self.0, 4, 0x1, v),
    {
        DpCtrlStat(set_field32_u8(self.0, 4, 0x1, v))
    }

    pub fn sticky_err(&self) -> (r: u8)
        ensures
            r == field32_u8(self.0, 5, 0x1),
            r <= 0x1,
    {
        get_field32_u8(self.0, 5, 0x1)
    }

    pub fn with_sticky_err(self, v: u8) -> (r: Self)
        requires
            v <= 0x1,
        ensures
            r.0 == with_field32_u8(self.0, 5, 0x1, v),
    {
        DpCtrlStat(set_field32_u8(self.0, 5, 0x1, v))
    }

    pub fn read_ok(&self) -> (r: u8)
        ensures
            r == field32_u8(self.0, 6, 0x1),
            r <= 0x1,
    {
        get_field32_u8(self.0, 6, 0x1)
    }

    pub fn with_read_ok(self, v: u8) -> (r: Self)
        requires
            v <= 0x1,
        ensures
            r.0 == with_field32_u8(self.0, 6, 0x1, v),
    {
        DpCtrlStat(set_field32_u8(self.0, 6, 0x1, v))
    }

    pub fn wdata_err(&self) -> (r: u8)
        ensures
            r == field32_u8(self.0, 7, 0x1),
            r <= 0x1,
    {
        get_field32_u8(self.0, 7, 0x1)
    }

    pub fn with_wdata_err(self, v: u8) -> (r: Self)
        requires
            v <= 0x1,
        ensures
            r.0 == with_field32_u8(self.0, 7, 0x1, v),
    {
        DpCtrlStat(set_field32_u8(self.0, 7, 0x1, v))
    }

    pub fn masklane(&self) -> (r: u8)
        ensures
            r == field32_u8(self.0, 8, 0xf),
            r <= 0xf,
    {
        get_field32_u8(self.0, 8, 0xf)
    }

    pub fn with_masklane(self, v: u8) -> (r: Self)
        requires
            v <= 0xf,
        ensures
            r.0 == with_field32_u8(self.0, 8, 0xf, v),
    {
        DpCtrlStat(set_field32_u8(self.0, 8, 0xf, v))
    }

    pub fn trncnt(&self) -> (r: u16)
        ensures
            r == field32_u16(self.0, 12, 0xfff),
            r <= 0xfff,
    {
        get_field32_u16(self.0, 12, 0xfff)
    }

    pub fn with_trncnt(self, v: u16) -> (r: Self)
        requires
            v <= 0xfff,
        ensures
            r.0 == with_field32_u16(self.0, 12, 0xfff, v),
    {
        DpCtrlStat(set_field32_u16(self.0, 12, 0xfff, v))
    }

    pub fn res24(&self) -> (r: u8)
        ensures
            r == field32_u8(self.0, 24, 0x3),
            r <= 0x3,
    {
        get_field32_u8(self.0, 24, 0x3)
    }

    pub fn with_res24(self, v: u8) -> (r: Self)
        requires
            v <= 0x3,
        ensures
            r.0 == with_field32_u8(self.0, 24, 0x3, v),
    {
        DpCtrlStat(set_field32_u8(self.0, 24, 0x3, v))
    }

    pub fn cdbg_rst_req(&self) -> (r: u8)
        ensures
            r == field32_u8(self.0, 26, 0x1),
            r <= 0x1,
    {
        get_field32_u8(self.0, 26, 0x1)
    }

    pub fn with_cdbg_rst_req(self, v: u8) -> (r: Self)
        requires
            v <= 0x1,
        ensures
            r.0 == with_field32_u8(self.0, 26, 0x1, v),
    {
        DpCtrlStat(set_field32_u8(self.0, 26, 0x1, v))
    }

    pub fn cdbg_rst_ack(&self) -> (r: u8)
        ensures
            r == field32_u8(self.0, 27, 0x1),
            r <= 0x1,
    {
        get_field32_u8(self.0, 27, 0x1)
    }

    pub fn with_cdbg_rst_ack(self, v: u8) -> (r: Self)
        requires
            v <= 0x1,
        ensures
            r.0 == with_field32_u8(self.0, 27, 0x1, v),
    {
        DpCtrlStat(set_field32_u8(self.0, 27, 0x1, v))
    }

    pub fn cdbg_pwrup_req(&self) -> (r: u8)
        ensures
            r == field32_u8(self.0, 28, 0x1),
            r <= 0x1,
    {
        get_field32_u8(self.0, 28, 0x1)
    }

    pub fn with_cdbg_pwrup_req(self, v: u8) -> (r: Self)
        requires
            v <= 0x1,
        ensures
            r.0 == with_field32_u8(self.0, 28, 0x1, v),
    {
        DpCtrlStat(set_field32_u8(self.0, 28, 0x1, v))
    }

    pub fn cdbg_pwrup_ack(&self) -> (r: u8)
        ensures
            r == field32_u8(self.0, 29, 0x1),
            r <= 0x1,
    {
        get_field32_u8(self.0, 29, 0x1)
    }

    pub fn with_cdbg_pwrup_ack(self, v: u8) -> (r: Self)
        requires
            v <= 0x1,
        ensures
            r.0 == with_field32_u8(self.0, 29, 0x1, v),
    {
        DpCtrlStat(set_field32_u8(self.0, 29, 0x1, v))
    }

    pub fn csys_pwrup_req(&self) -> (r: u8)
        ensures
            r == field32_u8(self.0, 30, 0x1),
            r <= 0x1,
    {
        get_field32_u8(self.0, 30, 0x1)
    }

    pub fn with_csys_pwrup_req(self, v: u8) -> (r: Self)
        requires
            v <= 0x1,
        ensures
            r.0 == with_field32_u8(self.0, 30, 0x1, v),
    {
        DpCtrlStat(set_field32_u8(self.0, 30, 0x1, v))
    }

    pub fn csys_pwrup_ack(&self) -> (r: u8)
        ensures
            r == field32_u8(self.0, 31, 0x1),
            r <= 0x1,
    {
        get_field32_u8(self.0, 31, 0x1)
    }

    pub fn with_csys_pwrup_ack(self, v: u8) -> (r: Self)
        requires
            v <= 0x1,
        ensures
            r.0 == with_field32_u8(self.0, 31, 0x1, v),
    {
        DpCtrlStat(set_field32_u8(self.0, 31, 0x1, v))
    }

}

impl From<u32> for DpCtrlStat {
    fn from(v: u32) -> (r: Self) {
        DpCtrlStat(v)
    }
}

impl FromSpecImpl<u32> for DpCtrlStat {
    open spec fn obeys_from_spec() -> bool {
        true
    }

    open spec fn from_spec(v: u32) -> Self {
        DpCtrlStat(v)
    }
}

impl From<DpCtrlStat> for u32 {
    fn from(v: DpCtrlStat) -> (r: u32) {
        v.0
    }
}

impl FromSpecImpl<DpCtrlStat> for u32 {
    open spec fn obeys_from_spec() -> bool {
        true
    }

    open spec fn from_spec(v: DpCtrlStat) -> u32 {
        v.0
    }
}

/// DP ABORT register.
#[derive(Clone, Copy, Debug, PartialEq, Eq, Structural)]
pub struct DpAbort(pub u32);

impl DpAbort {
    /// All fields zero.
    pub fn new() -> (r: Self)
        ensures
            r.0 == 0,
    {
        DpAbort(0)
    }

    pub fn dap_abort(&self) -> (r: u8)
        ensures
            r == field32_u8(self.0, 0, 0x1),
            r <= 0x1,
    {
        get_field32_u8(self.0, 0, 0x1)
    }

    pub fn with_dap_abort(self, v: u8) -> (r: Self)
        requires
            v <= 0x1,
        ensures
            r.0 == with_field32_u8(self.0, 0, 0x1, v),
    {
        DpAbort(set_field32_u8(self.0, 0, 0x1, v))
    }

    pub fn stk_cmp_clr(&self) -> (r: u8)
        ensures
            r == field32_u8(self.0, 1, 0x1),
            r <= 0x1,
    {
        get_field32_u8(self.0, 1, 0x1)
    }

    pub fn with_stk_cmp_clr(self, v: u8) -> (r: Self)
        requires
            v <= 0x1,
        ensures
            r.0 == with_field32_u8(self.0, 1, 0x1, v),
    {
        DpAbort(set_field32_u8(self.0, 1, 0x1, v))
    }

    pub fn stk_err_clr(&self) -> (r: u8)
        ensures
            r == field32_u8(self.0, 2, 0x1),
            r <= 0x1,
    {
        get_field32_u8(self.0, 2, 0x1)
    }

    pub fn with_stk_err_clr(self, v: u8) -> (r: Self)
        requires
            v <= 0x1,
        ensures
            r.0 == with_field32_u8(self.0, 2, 0x1, v),
    {
        DpAbort(set_field32_u8(self.0, 2, 0x1, v))
    }

    pub fn wd_err_clr(&self) -> (r: u8)
        ensures
            r == field32_u8(self.0, 3, 0x1),
            r <= 0x1,
    {
        get_field32_u8(self.0, 3, 0x1)
    }

    pub fn with_wd_err_clr(self, v: u8) -> (r: Self)
        requires
            v <= 0x1,
        ensures
            r.0 == with_field32_u8(self.0, 3, 0x1, v),
    {
        DpAbort(set_field32_u8(self.0, 3, 0x1, v))
    }

    pub fn orun_err_clr(&self) -> (r: u8)
        ensures
            r == field32_u8(self.0, 4, 0x1),
            r <= 0x1,
    {
        get_field32_u8(self.0, 4, 0x1)
    }

    pub fn with_orun_err_clr(self, v: u8) -> (r: Self)
        requires
            v <= 0x1,
        ensures
            r.0 == with_field32_u8(self.0, 4, 0x1, v),
    {
        DpAbort(set_field32_u8(self.0, 4, 0x1, v))
    }

    pub fn res5(&self) -> (r: u32)
        ensures
            r == field32(self.0, 5, 0x7ffffff),
            r <= 0x7ffffff,
    {
        get_field32(self.0, 5, 0x7ffffff)
    }

    pub fn with_res5(self, v: u32) -> (r: Self)
        requires
            v <= 0x7ffffff,
        ensures
            r.0 == with_field32(self.0, 5, 0x7ffffff, v),
    {
        DpAbort(set_field32(self.0, 5, 0x7ffffff, v))
    }

}

impl From<u32> for DpAbort {
    fn from(v: u32) -> (r: Self) {
        DpAbort(v)
    }
}

impl FromSpecImpl<u32> for DpAbort {
    open spec fn obeys_from_spec() -> bool {
        true
    }

    open spec fn from_spec(v: u32) -> Self {
        DpAbort(v)
    }
}

impl From<DpAbort> for u32 {
    fn from(v: DpAbort) -> (r: u32) {
        v.0
    }
}

impl FromSpecImpl<DpAbort> for u32 {
    open spec fn obeys_from_spec() -> bool {
        true
    }

    open spec fn from_spec(v: DpAbort) -> u32 {
        v.0
    }
}

/// DP DLCR register.
#[derive(Clone, Copy, Debug, PartialEq, Eq, Structural)]
pub struct DpDlcr(pub u32);

impl DpDlcr {
    /// All fields zero.
    pub fn new() -> (r: Self)
        ensures
            r.0 == 0,
    {
        DpDlcr(0)
    }

    pub fn res0(&self) -> (r: u8)
        ensures
            r == field32_u8(self.0, 0, 0x3f),
            r <= 0x3f,
    {
        get_field32_u8(self.0, 0, 0x3f)
    }

    pub fn with_res0(self, v: u8) -> (r: Self)
        requires
            v <= 0x3f,
        ensures
            r.0 == with_field32_u8(self.0, 0, 0x3f, v),
    {
        DpDlcr(set_field32_u8(self.0, 0, 0x3f, v))
    }

    pub fn res6(&self) -> (r: u8)
        ensures
            r == field32_u8(self.0, 6, 0x1),
            r <= 0x1,
    {
        get_field32_u8(self.0, 6, 0x1)
    }

    pub fn with_res6(self, v: u8) -> (r: Self)
        requires
            v <= 0x1,
        ensures
            r.0 == with_field32_u8(self.0, 6, 0x1, v),
    {
        DpDlcr(set_field32_u8(self.0, 6, 0x1, v))
    }

    pub fn res7(&self) -> (r: u8)
        ensures
            r == field32_u8(self.0, 7, 0x1),
            r <= 0x1,
    {
        get_field32_u8(self.0, 7, 0x1)
    }

    pub fn with_res7(self, v: u8) -> (r: Self)
        requires
            v <= 0x1,
        ensures
            r.0 == with_field32_u8(self.0, 7, 0x1, v),
    {
        DpDlcr(set_field32_u8(self.0, 7, 0x1, v))
    }

    pub fn turnaround(&self) -> (r: u8)
        ensures
            r == field32_u8(self.0, 8, 0x3),
            r <= 0x3,
    {
        get_field32_u8(self.0, 8, 0x3)
    }

    pub fn with_turnaround(self, v: u8) -> (r: Self)
        requires
            v <= 0x3,
        ensures
            r.0 == with_field32_u8(self.0, 8, 0x3, v),
    {
        DpDlcr(set_field32_u8(self.0, 8, 0x3, v))
    }

    pub fn res10(&self) -> (r: u32)
        ensures
            r == field32(self.0, 10, 0x3fffff),
            r <= 0x3fffff,
    {
        get_field32(self.0, 10, 0x3fffff)
    }

    pub fn with_res10(self, v: u32) -> (r: Self)
        requires
            v <= 0x3fffff,
        ensures
            r.0 == with_field32(self.0, 10, 0x3fffff, v),
    {
        DpDlcr(set_field32(self.0, 10, 0x3fffff, v))
    }

}

impl From<u32> for DpDlcr {
    fn from(v: u32) -> (r: Self) {
        DpDlcr(v)
    }
}

impl FromSpecImpl<u32> for DpDlcr {
    open spec fn obeys_from_spec() -> bool {
        true
    }

    open spec fn from_spec(v: u32) -> Self {
        DpDlcr(v)
    }
}

impl From<DpDlcr> for u32 {
    fn from(v: DpDlcr) -> (r: u32) {
        v.0
    }
}

impl FromSpecImpl<DpDlcr> for u32 {
    open spec fn obeys_from_spec() -> bool {
        true
    }

    open spec fn from_spec(v: DpDlcr) -> u32 {
        v.0
    }
}

/// DP DLPIDR register.
#[derive(Clone, Copy, Debug, PartialEq, Eq, Structural)]
pub struct DpDlpIdr(pub u32);

impl DpDlpIdr {
    /// All fields zero.
    pub fn new() -> (r: Self)
        ensures
            r.0 == 0,
    {
        DpDlpIdr(0)
    }

    pub fn protsvc(&self) -> (r: u8)
        ensures
            r == field32_u8(self.0, 0, 0xf),
            r <= 0xf,
    {
        get_field32_u8(self.0, 0, 0xf)
    }

    pub fn with_protsvc(self, v: u8) -> (r: Self)
        requires
            v <= 0xf,
        ensures
            r.0 == with_field32_u8(self.0, 0, 0xf, v),
    {
        DpDlpIdr(set_field32_u8(self.0, 0, 0xf, v))
    }

    pub fn res4(&self) -> (r: u32)
        ensures
            r == field32(self.0, 4, 0xffffff),
            r <= 0xffffff,
    {
        get_field32(self.0, 4, 0xffffff)
    }

    pub fn with_res4(self, v: u32) -> (r: Self)
        requires
            v <= 0xffffff,
        ensures
            r.0 == with_field32(self.0, 4, 0xffffff, v),
    {
        DpDlpIdr(set_field32(self.0, 4, 0xffffff, v))
    }

    pub fn tinstance(&self) -> (r: u8)
        ensures
            r == field32_u8(self.0, 28, 0xf),
            r <= 0xf,
    {
        get_field32_u8(self.0, 28, 0xf)
    }

    pub fn with_tinstance(self, v: u8) -> (r: Self)
        requires
            v <= 0xf,
        ensures
            r.0 == with_field32_u8(self.0, 28, 0xf, v),
    {
        DpDlpIdr(set_field32_u8(self.0, 28, 0xf, v))
    }

}

impl From<u32> for DpDlpIdr {
    fn from(v: u32) -> (r: Self) {
        DpDlpIdr(v)
    }
}

impl FromSpecImpl<u32> for DpDlpIdr {
    open spec fn obeys_from_spec() -> bool {
        true
    }

    open spec fn from_spec(v: u32) -> Self {
        DpDlpIdr(v)
    }
}

impl From<DpDlpIdr> for u32 {
    fn from(v: DpDlpIdr) -> (r: u32) {
        v.0
    }
}

impl FromSpecImpl<DpDlpIdr> for u32 {
    open spec fn obeys_from_spec() -> bool {
        true
    }

    open spec fn from_spec(v: DpDlpIdr) -> u32 {
        v.0
    }
}

/// DP IDR register.
#[derive(Clone, Copy, Debug, PartialEq, Eq, Structural)]
pub struct DpIdr(pub u32);

impl DpIdr {
    /// All fields zero.
    pub fn new() -> (r: Self)
        ensures
            r.0 == 0,
    {
        DpIdr(0)
    }

    pub fn rao(&self) -> (r: u8)
        ensures
            r == field32_u8(self.0, 0, 0x1),
            r <= 0x1,
    {
        get_field32_u8(self.0, 0, 0x1)
    }

    pub fn with_rao(self, v: u8) -> (r: Self)
        requires
            v <= 0x1,
        ensures
            r.0 == with_field32_u8(self.0, 0, 0x1, v),
    {
        DpIdr(set_field32_u8(self.0, 0, 0x1, v))
    }

    pub fn designer(&self) -> (r: u16)
        ensures
            r == field32_u16(self.0, 1, 0x7ff),
            r <= 0x7ff,
    {
        get_field32_u16(self.0, 1, 0x7ff)
    }

    pub fn with_designer(self, v: u16) -> (r: Self)
        requires
            v <= 0x7ff,
        ensures
            r.0 == with_field32_u16(self.0, 1, 0x7ff, v),
    {
        DpIdr(set_field32_u16(self.0, 1, 0x7ff, v))
    }

    pub fn version(&self) -> (r: u8)
        ensures
            r == field32_u8(self.0, 12, 0xf),
            r <= 0xf,
    {
        get_field32_u8(self.0, 12, 0xf)
    }

    pub fn with_version(self, v: u8) -> (r: Self)
        requires
            v <= 0xf,
        ensures
            r.0 == with_field32_u8(self.0, 12, 0xf, v),
    {
        DpIdr(set_field32_u8(self.0, 12, 0xf, v))
    }

    pub fn min(&self) -> (r: u8)
        ensures
            r == field32_u8(self.0, 16, 0x1),
            r <= 0x1,
    {
        get_field32_u8(self.0, 16, 0x1)
    }

    pub fn with_min(self, v: u8) -> (r: Self)
        requires
            v <= 0x1,
        ensures
            r.0 == with_field32_u8(self.0, 16, 0x1, v),
    {
        DpIdr(set_field32_u8(self.0, 16, 0x1, v))
    }

    pub fn res17(&self) -> (r: u8)
        ensures
            r == field32_u8(self.0, 17, 0x7),
            r <= 0x7,
    {
        get_field32_u8(self.0, 17, 0x7)
    }

    pub fn with_res17(self, v: u8) -> (r: Self)
        requires
            v <= 0x7,
        ensures
            r.0 == with_field32_u8(self.0, 17, 0x7, v),
    {
        DpIdr(set_field32_u8(self.0, 17, 0x7, v))
    }

    pub fn partno(&self) -> (r: u8)
        ensures
            r == field32_u8(self.0, 20, 0xff),
            r <= 0xff,
    {
        get_field32_u8(self.0, 20, 0xff)
    }

    pub fn with_partno(self, v: u8) -> (r: Self)
        requires
            v <= 0xff,
        ensures
            r.0 == with_field32_u8(self.0, 20, 0xff, v),
    {
        DpIdr(set_field32_u8(self.0, 20, 0xff, v))
    }

    pub fn revision(&self) -> (r: u8)
        ensures
            r == field32_u8(self.0, 28, 0xf),
            r <= 0xf,
    {
        get_field32_u8(self.0, 28, 0xf)
    }

    pub fn with_revision(self, v: u8) -> (r: Self)
        requires
            v <= 0xf,
        ensures
            r.0 == with_field32_u8(self.0, 28, 0xf, v),
    {
        DpIdr(set_field32_u8(self.0, 28, 0xf, v))
    }

}

impl From<u32> for DpIdr {
    fn from(v: u32) -> (r: Self) {
        DpIdr(v)
    }
}

impl FromSpecImpl<u32> for DpIdr {
    open spec fn obeys_from_spec() -> bool {
        true
    }

    open spec fn from_spec(v: u32) -> Self {
        DpIdr(v)
    }
}

impl From<DpIdr> for u32 {
    fn from(v: DpIdr) -> (r: u32) {
        v.0
    }
}

impl FromSpecImpl<DpIdr> for u32 {
    open spec fn obeys_from_spec() -> bool {
        true
    }

    open spec fn from_spec(v: DpIdr) -> u32 {
        v.0
    }
}

/// DP SELECT register.
#[derive(Clone, Copy, Debug, PartialEq, Eq, Structural)]
pub struct DpSelect(pub u32);

impl DpSelect {
    /// All fields zero.
    pub fn new() -> (r: Self)
        ensures
            r.0 == 0,
    {
        DpSelect(0)
    }

    pub fn dpbanksel(&self) -> (r: u8)
        ensures
            r == field32_u8(self.0, 0, 0xf),
            r <= 0xf,
    {
        get_field32_u8(self.0, 0, 0xf)
    }

    pub fn with_dpbanksel(self, v: u8) -> (r: Self)
        requires
            v <= 0xf,
        ensures
            r.0 == with_field32_u8(self.0, 0, 0xf, v),
    {
        DpSelect(set_field32_u8(self.0, 0, 0xf, v))
    }

    pub fn apbanksel(&self) -> (r: u8)
        ensures
            r == field32_u8(self.0, 4, 0xf),
            r <= 0xf,
    {
        get_field32_u8(self.0, 4, 0xf)
    }

    pub fn with_apbanksel(self, v: u8) -> (r: Self)
        requires
            v <= 0xf,
        ensures
            r.0 == with_field32_u8(self.0, 4, 0xf, v),
    {
        DpSelect(set_field32_u8(self.0, 4, 0xf, v))
    }

    pub fn res16(&self) -> (r: u16)
        ensures
            r == field32_u16(self.0, 8, 0xffff),
            r <= 0xffff,
    {
        get_field32_u16(self.0, 8, 0xffff)
    }

    pub fn with_res16(self, v: u16) -> (r: Self)
        requires
            v <= 0xffff,
        ensures
            r.0 == with_field32_u16(self.0, 8, 0xffff, v),
    {
        DpSelect(set_field32_u16(self.0, 8, 0xffff, v))
    }

    pub fn apsel(&self) -> (r: u8)
        ensures
            r == field32_u8(self.0, 24, 0xff),
            r <= 0xff,
    {
        get_field32_u8(self.0, 24, 0xff)
    }

    pub fn with_apsel(self, v: u8) -> (r: Self)
        requires
            v <= 0xff,
        ensures
            r.0 == with_field32_u8(self.0, 24, 0xff, v),
    {
        DpSelect(set_field32_u8(self.0, 24, 0xff, v))
    }

}

impl From<u32> for DpSelect {
    fn from(v: u32) -> (r: Self) {
        DpSelect(v)
    }
}

impl FromSpecImpl<u32> for DpSelect {
    open spec fn obeys_from_spec() -> bool {
        true
    }

    open spec fn from_spec(v: u32) -> Self {
        DpSelect(v)
    }
}

impl From<DpSelect> for u32 {
    fn from(v: DpSelect) -> (r: u32) {
        v.0
    }
}

impl FromSpecImpl<DpSelect> for u32 {
    open spec fn obeys_from_spec() -> bool {
        true
    }

    open spec fn from_spec(v: DpSelect) -> u32 {
        v.0
    }
}

/// Container for tracking the state of DP control registers.
#[derive(Clone, Copy, Debug, PartialEq, Eq, Structural)]
pub struct DpState {
    pub ctrlstat: DpCtrlStat,
    pub select: DpSelect,
}

impl DpState {
    /// Both registers zero.
    pub fn new() -> (r: Self)
        ensures
            r.ctrlstat.0 == 0,
            r.select.0 == 0,
    {
        DpState { ctrlstat: DpCtrlStat(0), select: DpSelect(0) }
    }
}

} // verus!
