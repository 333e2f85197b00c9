//! The client/server protocol: operations a client asks for, and the DP and
//! MEM-AP operations as sequences of DAP transfers.

use vstd::prelude::*;
use crate::bits::{field8, with_field32_u8};
use crate::dp::{DpRegister, DpSelect, spec_dpbanksel};
use crate::ap::ApRegister;
use crate::mem_ap::{MemApRegister, spec_memapregister_value};
use crate::xfer::{
    Transfer, TransferSequence, spec_dp_read, spec_dp_write, spec_ap_read, spec_ap_write,
};
use crate::component::{Armv8ExtDbgReg, CtiBlock, CtiRegister, DebugBlock};

verus! {

/// Interface exposed by a server.
#[derive(Debug)]
pub enum DaphneOp {
    Ping,
    /// Set a session flag
    SetFlag(String, bool),
    /// Get a session flag
    GetFlag(String),
    /// CMSIS-DAP command
    Dap(DapOp),
    /// DP read/write
    Dp(DpOp),
    /// MEM-AP read/write
    MemAp(MemApOp),
    /// MEM-AP bus read/write
    MemApBus(MemApBusOp),
}

/// A request packet (from client to server).
#[derive(Debug)]
pub struct DaphnePacket {
    pub msg: DaphneOp,
}

/// Status of a response packet.
#[derive(Clone, Copy, Debug, PartialEq, Eq, Structural)]
pub enum DaphneRespSts {
    RespOk,
    RespErr,
}

/// A response packet (from server to client).
#[derive(Clone, Copy, Debug, PartialEq, Eq, Structural)]
pub struct DaphneResp {
    pub data: u32,
    pub sts: DaphneRespSts,
}

/// Primitive CMSIS-DAP operations.
#[derive(Clone, Copy, Debug, PartialEq, Eq, Structural)]
pub enum DapOp {
    /// Connect to the target DAP
    Connect,
    /// Disconnect from the target DAP
    Disconnect,
}

/// Primitive DP operations. These do not write DPBANKSEL when targeting
/// unbanked registers: the bank is ignored for words other than 0x4.
#[derive(Clone, Copy, Debug, PartialEq, Eq, Structural)]
pub enum DpOp {
    /// Read a DP register
    Read { reg: DpRegister },
    /// Write a DP register
    Write { reg: DpRegister, data: u32 },
}

/// The SELECT value that picks DP bank `bank` (all other fields zero).
pub open spec fn spec_select_dp_bank(bank: u8) -> u32 {
    with_field32_u8(0, 0, 0xf, bank)
}

/// The transfers of a DP operation: a SELECT write of the register's bank
/// when it has one, then the access itself.
pub open spec fn spec_dp_op_seq(op: DpOp) -> Seq<Transfer> {
    match op {
        DpOp::Read { reg } => match spec_dpbanksel(reg) {
            Some(b) => seq![spec_dp_write(DpRegister::SELECT, spec_select_dp_bank(b)), spec_dp_read(reg)],
            None => seq![spec_dp_read(reg)],
        },
        DpOp::Write { reg, data } => match spec_dpbanksel(reg) {
            Some(b) => seq![
                spec_dp_write(DpRegister::SELECT, spec_select_dp_bank(b)),
                spec_dp_write(reg, data),
            ],
            None => seq![spec_dp_write(reg, data)],
        },
    }
}

impl TransferSequence for DpOp {
    open spec fn seq_defined(&self) -> bool {
        match self {
            DpOp::Read { reg } => *reg != DpRegister::Undef,
            DpOp::Write { reg, .. } => *reg != DpRegister::Undef,
        }
    }

    open spec fn spec_transfer_seq(&self) -> Seq<Transfer> {
        spec_dp_op_seq(*self)
    }

    fn as_transfer_seq(&self) -> (r: Vec<Transfer>) {
        let mut res: Vec<Transfer> = Vec::new();
        match self {
            DpOp::Read { reg } => {
                if let Some(dpbanksel) = reg.dpbanksel() {
                    res.push(Transfer::write_dpselect(DpSelect::new().with_dpbanksel(dpbanksel)));
                    res.push(Transfer::dp_read(*reg));
                } else {
                    res.push(Transfer::dp_read(*reg));
                }
            },
            DpOp::Write { reg, data } => {
                if let Some(dpbanksel) = reg.dpbanksel() {
                    res.push(Transfer::write_dpselect(DpSelect::new().with_dpbanksel(dpbanksel)));
                    res.push(Transfer::dp_write(*reg, *data));
                } else {
                    res.push(Transfer::dp_write(*reg, *data));
                }
            },
        }
        assert(res@ =~= spec_dp_op_seq(*self));
        res
    }
}

/// An abstract MEM-AP operation.
#[derive(Clone, Copy, Debug, PartialEq, Eq, Structural)]
pub enum MemApOp {
    /// Read from a MEM-AP register
    Read { ap: u8, reg: MemApRegister },
    /// Write to a MEM-AP register
    Write { ap: u8, reg: MemApRegister, data: u32 },
}

/// The SELECT value that picks AP `ap`, DP bank 0 and the AP bank of the
/// register at offset `off`.
pub open spec fn spec_select_ap(ap: u8, off: u8) -> u32 {
    with_field32_u8(with_field32_u8(with_field32_u8(0, 24, 0xff, ap), 0, 0xf, 0), 4, 0xf, field8(off, 4, 0xf))
}

/// The transfers of a MEM-AP operation: a SELECT write that picks the AP and
/// the register's bank, then the access at the register's word index.
pub open spec fn spec_mem_ap_op_seq(op: MemApOp) -> Seq<Transfer> {
    match op {
        MemApOp::Read { ap, reg } => {
            let off = spec_memapregister_value(reg);
            seq![
                spec_dp_write(DpRegister::SELECT, spec_select_ap(ap, off)),
                spec_ap_read(field8(off, 2, 0x3)),
            ]
        },
        MemApOp::Write { ap, reg, data } => {
            let off = spec_memapregister_value(reg);
            seq![
                spec_dp_write(DpRegister::SELECT, spec_select_ap(ap, off)),
                spec_ap_write(field8(off, 2, 0x3), data),
            ]
        },
    }
}

impl TransferSequence for MemApOp {
    open spec fn seq_defined(&self) -> bool {
        true
    }

    open spec fn spec_transfer_seq(&self) -> Seq<Transfer> {
        spec_mem_ap_op_seq(*self)
    }

    fn as_transfer_seq(&self) -> (r: Vec<Transfer>) {
        let mut res: Vec<Transfer> = Vec::new();
        match self {
            MemApOp::Read { ap, reg } => {
                let offset = reg.ap_reg_off();
                // DP write (set the value of SELECT.APBANKSEL)
                res.push(
                    Transfer::write_dpselect(
                        DpSelect::new().with_apsel(*ap).with_dpbanksel(0).with_apbanksel(
                            offset.apbanksel(),
                        ),
                    ),
                );
                // AP read
                res.push(Transfer::mem_ap_read(offset.word_idx()));
            },
            MemApOp::Write { ap, reg, data } => {
                let offset = reg.ap_reg_off();
                // DP write (set the value of SELECT.APBANKSEL)
                res.push(
                    Transfer::write_dpselect(
                        DpSelect::new().with_apsel(*ap).with_dpbanksel(0).with_apbanksel(
                            offset.apbanksel(),
                        ),
                    ),
                );
                // AP write
                res.push(Transfer::mem_ap_write(offset.word_idx(), *data));
            },
        }
        assert(res@ =~= spec_mem_ap_op_seq(*self));
        res
    }
}

/// Perform an operation on a MEM-AP bus.
#[derive(Clone, Copy, Debug, PartialEq, Eq, Structural)]
pub enum MemApBusOp {
    Read { ap: u8, addr: u32 },
    Write { ap: u8, addr: u32, data: u32 },
}

/// The transfers of a bus operation: a TAR_LO write of the address, then a
/// DRW read or write.
pub open spec fn spec_mem_ap_bus_op_seq(op: MemApBusOp) -> Seq<Transfer> {
    match op {
        MemApBusOp::Read { ap, addr } => spec_mem_ap_op_seq(
            MemApOp::Write { ap, reg: MemApRegister::TAR_LO, data: addr },
        ) + spec_mem_ap_op_seq(MemApOp::Read { ap, reg: MemApRegister::DRW }),
        MemApBusOp::Write { ap, addr, data } => spec_mem_ap_op_seq(
            MemApOp::Write { ap, reg: MemApRegister::TAR_LO, data: addr },
        ) + spec_mem_ap_op_seq(MemApOp::Write { ap, reg: MemApRegister::DRW, data }),
    }
}

impl TransferSequence for MemApBusOp {
    open spec fn seq_defined(&self) -> bool {
        true
    }

    open spec fn spec_transfer_seq(&self) -> Seq<Transfer> {
        spec_mem_ap_bus_op_seq(*self)
    }

    fn as_transfer_seq(&self) -> (r: Vec<Transfer>) {
        let mut res: Vec<Transfer> = Vec::new();
        match self {
            MemApBusOp::Read { ap, addr } => {
                let mut a = MemApOp::Write { ap: *ap, reg: MemApRegister::TAR_LO, data: *addr }.as_transfer_seq();
                let mut b = MemApOp::Read { ap: *ap, reg: MemApRegister::DRW }.as_transfer_seq();
                res.append(&mut a);
                res.append(&mut b);
            },
            MemApBusOp::Write { ap, addr, data } => {
                let mut a = MemApOp::Write { ap: *ap, reg: MemApRegister::TAR_LO, data: *addr }.as_transfer_seq();
                let mut b = MemApOp::Write { ap: *ap, reg: MemApRegister::DRW, data: *data }.as_transfer_seq();
                res.append(&mut a);
                res.append(&mut b);
            },
        }
        assert(res@ =~= spec_mem_ap_bus_op_seq(*self));
        res
    }
}

/// An operation on an external debug block register.
pub enum DbgOp {
    Read { blk: DebugBlock, reg: Armv8ExtDbgReg },
    Write { blk: DebugBlock, reg: Armv8ExtDbgReg, data: u32 },
}

/// An operation on a CTI register.
pub enum CtiOp {
    Read { blk: CtiBlock, reg: CtiRegister },
    Write { blk: CtiBlock, reg: CtiRegister, data: u32 },
}

} // verus!
