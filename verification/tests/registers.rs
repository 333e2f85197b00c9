use daphne::ap::{ApClass, ApIdr, ApRegOff, ApRegister, ApType};
use daphne::component::{Armv8ExtDbgReg, Component, CtiBlock, CtiRegister, DebugBlock, EdScr, ScrStatus};
use daphne::dp::{DpAbort, DpRegister, DpSelect};
use daphne::mem_ap::{MemApCsw, MemApRegister};
use daphne::proto::{DpOp, MemApBusOp, MemApOp};
use daphne::xfer::{
    Transfer, TransferAccessKind, TransferKind, TransferReqCtl, TransferRespCtl, TransferAck, TransferSequence,
    TransferTarget, TransferWordIdx,
};

#[test]
fn dp_register_addresses() {
    assert_eq!(DpRegister::from_address(TransferWordIdx::new_idx(0), 5), DpRegister::DPIDR);
    assert_eq!(DpRegister::from_address(TransferWordIdx::new_idx(1), 0), DpRegister::CTRLSTAT);
    assert_eq!(DpRegister::from_address(TransferWordIdx::new_idx(1), 1), DpRegister::DLCR);
    assert_eq!(DpRegister::from_address(TransferWordIdx::new_idx(1), 4), DpRegister::EVENTSTAT);
    assert_eq!(DpRegister::from_address(TransferWordIdx::new_idx(1), 9), DpRegister::Undef);
    assert_eq!(DpRegister::from_address(TransferWordIdx::new_idx(2), 3), DpRegister::SELECT);
    assert_eq!(DpRegister::from_address(TransferWordIdx::new_idx(3), 0), DpRegister::RDBUFF);
    assert_eq!(DpRegister::DLPIDR.dpbanksel(), Some(3));
    assert_eq!(DpRegister::SELECT.dpbanksel(), None);
    assert_eq!(DpRegister::TARGETID.word_idx().bits(), 1);
    assert_eq!(DpRegister::RDBUFF.word_idx().bits(), 3);
    assert_eq!(TransferWordIdx::new_from_offset(0x0c).bits(), 3);
    assert_eq!(TransferWordIdx::new_idx(6).bits(), 2);
}

#[test]
fn request_bytes() {
    let r = TransferReqCtl::create(TransferTarget::AP, TransferAccessKind::R, TransferWordIdx::new_idx(3));
    assert_eq!(r.0, 0x0f);
    assert_eq!(r.target(), TransferTarget::AP);
    assert_eq!(r.kind(), Some(TransferKind::Read));
    assert_eq!(r.word_idx().bits(), 3);
    assert_eq!(TransferReqCtl::new_dp_write(TransferWordIdx::new_idx(2)).0, 0x08);
    assert_eq!(TransferReqCtl(0x12).kind(), Some(TransferKind::ReadMatch));
    assert_eq!(TransferReqCtl(0x20).kind(), Some(TransferKind::WriteMatchMask));
    assert_eq!(TransferReqCtl(0x10).kind(), None);
    assert_eq!(Transfer::dp_read(DpRegister::DPIDR).size(), 1);
    assert_eq!(Transfer::dp_write(DpRegister::SELECT, 1).size(), 5);
    assert_eq!(Transfer::write_abort(DpAbort::new().with_orun_err_clr(1)).data, Some(0x10));
    assert_eq!(Transfer::write_dpselect(DpSelect(0x0300_0020)).data, Some(0x0300_0020));
}

#[test]
fn register_resolution() {
    let x = Transfer::mem_ap_read(TransferWordIdx::new_idx(1));
    assert_eq!(x.resolve_dp_register(0), None);
    assert_eq!(x.resolve_ap_register_offset(1).unwrap().0, 0x14);
    let d = Transfer::dp_read(DpRegister::CTRLSTAT);
    assert_eq!(d.resolve_dp_register(1), Some(DpRegister::DLCR));
    assert_eq!(d.resolve_ap_register_offset(0), None);
}

#[test]
fn response_control_byte() {
    let c = TransferRespCtl::new(0x19);
    assert_eq!(c.ack(), TransferAck::AckOk);
    assert!(c.protocol_err());
    assert!(c.value_mismatch());
    assert_eq!(TransferRespCtl::new(0x04).ack(), TransferAck::Fault);
    assert_eq!(TransferRespCtl::new(0x07).ack(), TransferAck::NoAck);
    assert_eq!(TransferRespCtl::new(0x05).ack(), TransferAck::Undef(5));
}

#[test]
fn access_ports() {
    let off = MemApRegister::BD2.ap_reg_off().0;
    assert_eq!(off, 0x18);
    assert_eq!(ApRegOff(0x18).apbanksel(), 1);
    assert_eq!(ApRegOff(0x18).word_idx().bits(), 2);
    assert_eq!(ApRegOff::from_word_bank(TransferWordIdx::new_idx(3), 0xf).0, 0xfc);
    assert_eq!(MemApRegister::try_from_primitive(0xfc), Some(MemApRegister::IDR));
    assert_eq!(MemApRegister::try_from_primitive(0x24), None);
    assert_eq!(ApType::from_type_class(0x0, ApClass::ComAp), ApType::ComAp);
    assert_eq!(ApType::from_type_class(0x3, ApClass::MemAp), ApType::Unknown(0x3, ApClass::MemAp));
    let idr = ApIdr::from(0x0477_0004);
    assert_eq!(idr.ap_class(), ApClass::MemAp);
    assert_eq!(idr.ap_type(), ApType::Axi3_Axi4);
    let csw = MemApCsw::from(0xa200_0002);
    assert_eq!(csw.size(), 2);
}

#[test]
fn transfer_sequences() {
    let x = DpOp::Write { reg: DpRegister::CTRLSTAT, data: 0x5000_0000 }.as_transfer_seq();
    assert_eq!(
        x,
        vec![Transfer::dp_write(DpRegister::SELECT, 0), Transfer::dp_write(DpRegister::CTRLSTAT, 0x5000_0000)]
    );
    let x = DpOp::Read { reg: DpRegister::RDBUFF }.as_transfer_seq();
    assert_eq!(x, vec![Transfer::dp_read(DpRegister::RDBUFF)]);
    let x = MemApOp::Read { ap: 1, reg: MemApRegister::IDR }.as_transfer_seq();
    assert_eq!(x.len(), 2);
    assert_eq!(x[0], Transfer::dp_write(DpRegister::SELECT, 0x0100_00f0));
    assert_eq!(x[1], Transfer::mem_ap_read(TransferWordIdx::new_idx(3)));
    let x = MemApBusOp::Write { ap: 0, addr: 0x8001_0088, data: 7 }.as_transfer_seq();
    assert_eq!(x.len(), 4);
    assert_eq!(x[1].data, Some(0x8001_0088));
    assert_eq!(x[3], Transfer::mem_ap_write(TransferWordIdx::new_idx(3), 7));
}

#[test]
fn debug_components() {
    let dbg = DebugBlock { base: 0x8001_0000 };
    assert_eq!(dbg.addr_of(Armv8ExtDbgReg::MIDR), 0x8001_0d00);
    assert_eq!(dbg.addr_of(Armv8ExtDbgReg::ED_SCR), 0x8001_0088);
    let cti = CtiBlock { base: 0x8002_0000 };
    assert_eq!(cti.addr_of(CtiRegister::CTI_CONTROL), 0x8002_0000);
    assert_eq!(Armv8ExtDbgReg::ED_ITR.as_u16(), 0x84);
    assert_eq!(EdScr::from(0x0300_7f13).status(), ScrStatus::ExternalDbgReq);
    assert_eq!(EdScr::from(0x0300_3c02).status(), ScrStatus::NonDebug);
    assert_eq!(EdScr::from(0x0300_0c3f).status(), ScrStatus::Undefined(0x3f));
}
