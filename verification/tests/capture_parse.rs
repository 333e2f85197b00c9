use daphne::capture::{AsUrb, Dir, LinuxUrbData, UrbTransferType};
use daphne::component::Armv8ExtDbgReg;
use daphne::dp::{DpRegister, DpSelect};
use daphne::mem_ap::MemApRegister;
use daphne::packet::{DapCommand, DapPacketBuf};
use daphne::parse::{
    is_probe_endpoint, CaptureErr, Component, ComponentRegName, MemoryMap, State, WriteEffect, XferReg,
};
use daphne::xfer::{Transfer, TransferCmd, TransferKind, TransferReqCtl, TransferRespUnresolved, TransferTarget};

fn urb(urb_type: u8, tt: u8, ep: u8) -> LinuxUrbData {
    let mut raw = [0u8; 0x40];
    raw[0x08] = urb_type;
    raw[0x09] = tt;
    raw[0x0a] = ep;
    raw[0x28] = 0xa1;
    raw[0x29] = 0x06;
    raw[0x2a] = 0x34;
    raw[0x2b] = 0x12;
    raw[0x2c] = 0x78;
    raw[0x2d] = 0x56;
    raw[0x2e] = 0x40;
    raw[0x2f] = 0x00;
    LinuxUrbData::from_slice(&raw)
}

#[test]
fn urb_header_fields() {
    let u = urb(0x43, 0x03, 0x85);
    assert!(u.is_complete());
    assert_eq!(u.urb_type(), 0x43);
    assert_eq!(u.tt(), UrbTransferType::Bulk);
    assert_eq!(u.ep(), 0x85);
    assert_eq!(u.dir(), Dir::Rx);
    assert_eq!(u.rt(), 0xa1);
    assert_eq!(u.req(), 0x06);
    assert_eq!(u.val(), 0x1234);
    assert_eq!(u.idx(), 0x5678);
    assert_eq!(u.len(), 0x40);

    let u = urb(0x53, 0x07, 0x04);
    assert!(!u.is_complete());
    assert_eq!(u.tt(), UrbTransferType::Unk(0x07));
    assert_eq!(u.dir(), Dir::Tx);
    assert_eq!(UrbTransferType::from(0x01), UrbTransferType::Intr);
    assert_eq!(UrbTransferType::from(0x02), UrbTransferType::Ctrl);
}

#[test]
fn probe_endpoints() {
    assert!(is_probe_endpoint(0x04));
    assert!(is_probe_endpoint(0x85));
    assert!(!is_probe_endpoint(0x81));
    assert!(!is_probe_endpoint(0x05));
}

#[test]
fn memory_map_components() {
    assert_eq!(MemoryMap::resolve_component(0x8001_0088), Component::ExtDbg);
    assert_eq!(MemoryMap::resolve_component(0x8012_0000), Component::Cti);
    assert_eq!(MemoryMap::resolve_component(0x8023_0010), Component::Pmu);
    assert_eq!(MemoryMap::resolve_component(0x8034_0ffc), Component::Etm);
    assert_eq!(MemoryMap::resolve_component(0x8005_0000), Component::Unk(0x8005_0000));
    assert_eq!(MemoryMap::component_reg(0x8001_0024), ComponentRegName::ExtDbg(Armv8ExtDbgReg::ED_ECR));
    assert_eq!(MemoryMap::component_reg(0x8013_0abc), ComponentRegName::Pmu(0x0abc));
    assert_eq!(MemoryMap::component_reg(0x8024_0010), ComponentRegName::Etm(0x0010));
    assert_eq!(MemoryMap::component_reg(0x1234_5678), ComponentRegName::Unk(0x1234_5678));
}

/// DP SELECT := 0; AP TAR := 0x8001_0000; DP SELECT := 0x10; AP read (BD1).
fn tx_packet() -> DapPacketBuf {
    DapPacketBuf::new_from_slice(&[
        0x05, 0x00, 0x04, 0x08, 0x00, 0x00, 0x00, 0x00, 0x05, 0x00, 0x00, 0x01, 0x80, 0x08, 0x10, 0x00, 0x00,
        0x00, 0x07,
    ])
    .unwrap()
}

#[test]
fn transfer_command_is_read() {
    let pkt = tx_packet();
    assert!(State::transfercmd_readable(&pkt));
    let cmd = State::parse_transfercmd(&pkt).unwrap();
    assert_eq!(cmd.dap_idx, 0);
    assert_eq!(cmd.xfers.len(), 4);
    assert_eq!(cmd.xfers[0], Transfer::new_with_data(TransferReqCtl(0x08), 0));
    assert_eq!(cmd.xfers[1], Transfer::new_with_data(TransferReqCtl(0x05), 0x8001_0000));
    assert_eq!(cmd.xfers[2], Transfer::new_with_data(TransferReqCtl(0x08), 0x10));
    assert_eq!(cmd.xfers[3], Transfer::new(TransferReqCtl(0x07)));
}

#[test]
fn truncated_transfer_command_is_unreadable() {
    let pkt = DapPacketBuf::new_from_slice(&[0x05, 0x00, 0x02, 0x08, 0x00, 0x00]).unwrap();
    assert!(!State::transfercmd_readable(&pkt));
    let pkt = DapPacketBuf::new_from_slice(&[0x05, 0x00]).unwrap();
    assert!(!State::transfercmd_readable(&pkt));
}

#[test]
fn unknown_transfer_kind_is_refused() {
    let pkt = DapPacketBuf::new_from_slice(&[0x05, 0x00, 0x01, 0x22]).unwrap();
    assert!(State::transfercmd_readable(&pkt));
    assert_eq!(State::parse_transfercmd(&pkt).err(), Some(CaptureErr::UnknownKind));
}

#[test]
fn transfer_command_roundtrip() {
    let xfers = [
        Transfer::dp_write(DpRegister::SELECT, 0x0100_00f0),
        Transfer::dp_read(DpRegister::CTRLSTAT),
        Transfer::new_with_data(TransferReqCtl(0x0d), 0xcafe_f00d),
    ];
    let cmd = TransferCmd::new_from_slice(3, &xfers).unwrap();
    let pkt = cmd.to_packet().unwrap();
    let back = State::parse_transfercmd(&pkt).unwrap();
    assert_eq!(back.dap_idx, 3);
    assert_eq!(back.xfers, xfers.to_vec());
}

#[test]
fn capture_session_tracks_state() {
    let mut state = State::new();
    let cmd = state.handle_xfer_tx(&tx_packet()).unwrap();
    assert_eq!(cmd.xfers.len(), 4);
    assert!(!state.txq.is_empty());

    let rx = DapPacketBuf::new_from_slice(&[0x05, 0x04, 0x01, 0xef, 0xbe, 0xad, 0xde]).unwrap();
    let front = state.txq.peek(0).unwrap();
    assert!(TransferRespUnresolved { pkt: rx }.can_resolve(front));
    let (resp, run) = state.handle_xfer_rx(&rx).unwrap();
    assert!(state.txq.is_empty());
    assert_eq!(resp.data.len(), 4);
    assert_eq!(run.error, None);
    let recs = run.records;
    assert_eq!(recs.len(), 4);
    assert_eq!(recs[0].effect, WriteEffect::DpSelect(0));
    assert_eq!(recs[0].target, TransferTarget::DP);
    assert_eq!(recs[0].reg, XferReg::Dp(DpRegister::SELECT));
    assert_eq!(recs[0].ctx_addr, None);

    assert_eq!(recs[1].effect, WriteEffect::TarLo(0x8001_0000));
    assert_eq!(recs[1].reg, XferReg::Ap(MemApRegister::TAR_LO));
    assert_eq!(recs[1].ctx_addr, Some(0x8001_0000));

    assert_eq!(recs[2].effect, WriteEffect::DpSelect(0x10));

    assert_eq!(recs[3].effect, WriteEffect::NoWrite);
    assert_eq!(recs[3].kind, TransferKind::Read);
    assert_eq!(recs[3].reg, XferReg::Ap(MemApRegister::BD1));
    assert_eq!(recs[3].data, Some(0xdead_beef));
    assert_eq!(recs[3].ctx_addr, Some(0x8001_0004));

    assert_eq!(state.dp.select.0, 0x10);
    assert_eq!(state.memap.tar_lo, 0x8001_0000);
}

#[test]
fn untracked_writes_are_reported() {
    let mut state = State::new();
    // DP CTRL/STAT write (bank 0).
    let x = Transfer::dp_write(DpRegister::CTRLSTAT, 0x5000_0000);
    assert_eq!(state.apply_write(&x), Ok(WriteEffect::DpUntracked(DpRegister::CTRLSTAT, 0x5000_0000)));
    // MEM-AP CSW write.
    let x = Transfer::new_with_data(TransferReqCtl(0x01), 0x2300_0012);
    assert_eq!(state.apply_write(&x), Ok(WriteEffect::ApUntracked(MemApRegister::CSW, 0x2300_0012)));
    // A write to the match mask.
    let x = Transfer::new_with_data(TransferReqCtl(0x20), 0xff);
    assert_eq!(state.apply_write(&x), Ok(WriteEffect::MatchMaskUntracked));
    assert_eq!(state.dp.select.0, 0);
    assert_eq!(state.memap.tar_lo, 0);
}

#[test]
fn ap_offset_outside_mem_ap_is_refused() {
    let mut state = State::new();
    state.apply_dp_write(&Transfer::dp_write(DpRegister::SELECT, 0x30));
    // AP bank 3, word 1: offset 0x34.
    let x = Transfer::new(TransferReqCtl(0x07));
    assert_eq!(state.xfer_register(&x), Err(CaptureErr::NotMemApRegister(0x34)));
    assert!(state.record_defined(&x));
    assert_eq!(state.record_xfer(&x), Err(CaptureErr::NotMemApRegister(0x34)));
    let w = Transfer::new_with_data(TransferReqCtl(0x05), 1);
    assert_eq!(state.apply_ap_write(&w), Err(CaptureErr::NotMemApRegister(0x34)));
    assert_eq!(state.dp.select.0, 0x30);
}

#[test]
fn unknown_kind_in_record() {
    let mut state = State::new();
    let x = Transfer::new(TransferReqCtl(0x22));
    assert_eq!(state.apply_write(&x), Err(CaptureErr::UnknownKind));
    assert_eq!(state.xfer_ctx_addr(&x), Err(CaptureErr::UnknownKind));
}

#[test]
fn banked_data_address_near_the_top_is_not_recordable() {
    let mut state = State::new();
    state.memap.tar_lo = 0xffff_fffc;
    state.apply_dp_write(&Transfer::dp_write(DpRegister::SELECT, 0x10));
    // BD0 is fine, BD1 would pass 2^32.
    let bd0 = Transfer::new(TransferReqCtl(0x03));
    let bd1 = Transfer::new(TransferReqCtl(0x07));
    assert!(state.record_defined(&bd0));
    assert_eq!(state.xfer_ctx_addr(&bd0), Ok(Some(0xffff_fffc)));
    assert!(!state.record_defined(&bd1));
}

#[test]
fn captured_writes_are_applied_in_order() {
    // SELECT is 0xf0 (AP bank 0xf); the command clears it, then writes the
    // AP register at A=0x4, which is then TAR.
    let mut state = State::new();
    state.dp.select = DpSelect(0xf0);
    let tx = DapPacketBuf::new_from_slice(&[
        0x05, 0x00, 0x02, 0x08, 0x00, 0x00, 0x00, 0x00, 0x05, 0x88, 0x00, 0x01, 0x80,
    ])
    .unwrap();
    state.handle_xfer_tx(&tx).unwrap();
    let rx = DapPacketBuf::new(0x05, &[0x02, 0x01]);
    let (_, run) = state.handle_xfer_rx(&rx).unwrap();
    assert_eq!(run.error, None);
    assert!(state.txq.is_empty());
    assert_eq!(state.memap.tar_lo, 0x8001_0088);
    assert_eq!(u32::from(state.dp.select), 0);
    assert_eq!(run.records[1].reg, XferReg::Ap(MemApRegister::TAR_LO));
    assert_eq!(run.records[1].ctx_addr, Some(0x8001_0088));
}

#[test]
fn captured_writes_before_a_refusal_stay_applied() {
    let mut state = State::new();
    // SELECT := 0x30 (AP bank 3), then an AP read at offset 0x34: no MEM-AP
    // register.
    let xs = [Transfer::dp_write(DpRegister::SELECT, 0x30), Transfer::new(TransferReqCtl(0x07))];
    assert!(state.record_all_defined(&xs));
    let run = state.record_all(&xs);
    assert_eq!(run.error, Some(CaptureErr::NotMemApRegister(0x34)));
    assert_eq!(run.records.len(), 1);
    assert_eq!(state.dp.select.0, 0x30);
}

#[test]
fn read_only_response_leaves_state() {
    let mut state = State::new();
    state.dp.select = DpSelect(0x0000_0010);
    state.memap.tar_lo = 0x1234;
    let tx = DapPacketBuf::new_from_slice(&[0x05, 0x00, 0x02, 0x0a, 0x07]).unwrap();
    state.handle_xfer_tx(&tx).unwrap();
    let rx = DapPacketBuf::new(0x05, &[0x02, 0x01, 0xff, 0, 0, 0, 0x44, 0x33, 0x22, 0x11]);
    let (resp, run) = state.handle_xfer_rx(&rx).unwrap();
    assert_eq!(resp.data[0].data, Some(0xff));
    assert_eq!(run.error, None);
    assert_eq!(state.dp.select.0, 0x10);
    assert_eq!(state.memap.tar_lo, 0x1234);
}

#[test]
fn unrecordable_transfers_are_detected() {
    let mut state = State::new();
    state.memap.tar_lo = 0xffff_fffc;
    let xs = [Transfer::dp_write(DpRegister::SELECT, 0x10), Transfer::new(TransferReqCtl(0x07))];
    assert!(!state.record_all_defined(&xs));
}

#[test]
fn component_register_text() {
    assert_eq!(State::make_component_reg_string(0x8001_0088), "ED_SCR");
    assert_eq!(State::make_component_reg_string(0x8002_0000), "CTI_CONTROL");
    assert_eq!(State::make_component_reg_string(0x8003_0010), "PMU:0010");
    assert_eq!(State::make_component_reg_string(0x8034_0abc), "ETM:0abc");
    assert_eq!(State::make_component_reg_string(0x1234_00ff), "UNK:123400ff");
    assert_eq!(State::make_component_reg_string(0x8001_001a), "Undefined(1a)");
    assert_eq!(State::make_component_reg_string(0x8001_0000), "Undefined(0)");
    assert_eq!(State::make_component_reg_string(0x8012_0ffc), format!("{:x?}", daphne::component::CtiRegister::from(0x0ffc)));
    assert_eq!(ComponentRegName::Pmu(0x0abc).to_string(), "PMU:0abc");
}
