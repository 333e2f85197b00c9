use daphne::dap::{swj_switch_jtag_to_swd, swj_switch_swd_to_jtag, XferQueue};
use daphne::dp::DpRegister;
use daphne::mem_ap::MemApRegister;
use daphne::parse::{State, XferReg};
use daphne::proto::{DpOp, MemApBusOp, MemApOp};
use daphne::swd_seq::{JTAG_TO_SWD_BYTES, JTAG_TO_SWD_SELECT, LINE_RESET_BYTES, SWD_TO_JTAG_BYTES, SWD_TO_JTAG_SELECT};
use daphne::packet::DapPacketBuf;
use daphne::xfer::{Transfer, TransferAck, TransferCmd, TransferRespUnresolved, TransferSequence, XferErr};

#[test]
fn queue_gives_commands_back_in_order() {
    let mut q = XferQueue::new();
    assert!(q.is_empty());
    let a = TransferCmd::new_from_slice(1, &[Transfer::dp_read(DpRegister::DPIDR)]).unwrap();
    let b = TransferCmd::new_from_slice(2, &[Transfer::dp_read(DpRegister::RDBUFF)]).unwrap();
    q.push(&a);
    q.push(&b);
    assert_eq!(q.peek(1).unwrap().dap_idx, 2);
    assert!(q.peek(2).is_none());
    assert_eq!(q.pop().unwrap().dap_idx, 1);
    assert_eq!(q.pop().unwrap().dap_idx, 2);
    assert!(q.pop().is_none());
    assert!(q.is_empty());
}

#[test]
fn switch_sequences() {
    assert_eq!(LINE_RESET_BYTES, [0xff; 7]);
    assert_eq!(JTAG_TO_SWD_SELECT, [0x9e, 0xe7]);
    assert_eq!(SWD_TO_JTAG_SELECT, [0x3c, 0xe7]);
    assert_eq!(&JTAG_TO_SWD_BYTES[7..9], &JTAG_TO_SWD_SELECT);
    assert_eq!(&SWD_TO_JTAG_BYTES[7..9], &SWD_TO_JTAG_SELECT);
    let c = swj_switch_jtag_to_swd();
    assert_eq!(c.seq_bitcnt, 136);
    assert_eq!(c.seq_bitdata, JTAG_TO_SWD_BYTES.to_vec());
    let c = swj_switch_swd_to_jtag();
    assert_eq!(c.seq_bitcnt, 80);
    assert_eq!(c.seq_bitdata, SWD_TO_JTAG_BYTES.to_vec());
}

#[test]
fn capture_reader_names_what_operations_reach() {
    let mut state = State::new();
    let xs = MemApBusOp::Read { ap: 2, addr: 0x8011_0088 }.as_transfer_seq();
    assert!(state.record_all_defined(&xs));
    let run = state.record_all(&xs);
    assert_eq!(run.error, None);
    assert_eq!(run.records[1].ctx_addr, Some(0x8011_0088));
    assert_eq!(run.records[3].reg, XferReg::Ap(MemApRegister::DRW));
    assert_eq!(state.memap.tar_lo, 0x8011_0088);

    let xs = MemApOp::Write { ap: 1, reg: MemApRegister::CSW, data: 0x2300_0012 }.as_transfer_seq();
    let recs = state.record_all(&xs).records;
    assert_eq!(recs[0].reg, XferReg::Dp(DpRegister::SELECT));
    assert_eq!(recs[1].reg, XferReg::Ap(MemApRegister::CSW));
    assert_eq!(recs[1].apsel, 1);

    let xs = DpOp::Read { reg: DpRegister::TARGETID }.as_transfer_seq();
    let recs = state.record_all(&xs).records;
    assert_eq!(recs.last().unwrap().reg, XferReg::Dp(DpRegister::TARGETID));
}

#[test]
fn resolve_keeps_writes_and_fills_reads() {
    let xfers = [
        Transfer::dp_write(DpRegister::SELECT, 0x10),
        Transfer::dp_read(DpRegister::RDBUFF),
        Transfer::dp_write(DpRegister::SELECT, 0x20),
        Transfer::dp_read(DpRegister::DPIDR),
    ];
    let cmd = TransferCmd::new_from_slice(0, &xfers).unwrap();
    let pkt = DapPacketBuf::new_from_slice(&[0x05, 0x04, 0x01, 1, 0, 0, 0, 2, 0, 0, 0]).unwrap();
    let uresp = TransferRespUnresolved { pkt };
    assert!(uresp.can_resolve(&cmd));
    assert_eq!(uresp.xfer_cnt(), 4);
    assert_eq!(uresp.xfer_respctl().ack(), TransferAck::AckOk);
    assert_eq!(uresp.xfer_data(), &[1, 0, 0, 0, 2, 0, 0, 0]);
    let resp = uresp.resolve(&cmd).unwrap();
    assert_eq!(resp.data[0], xfers[0]);
    assert_eq!(resp.data[1].req, xfers[1].req);
    assert_eq!(resp.data[1].data, Some(1));
    assert_eq!(resp.data[2], xfers[2]);
    assert_eq!(resp.data[3].data, Some(2));
    assert_eq!(resp.last_result(), Some(2));

    // Read data that does not come in whole words is refused.
    let pkt = DapPacketBuf::new_from_slice(&[0x05, 0x04, 0x01, 1, 0, 0, 0, 2, 0, 0]).unwrap();
    let uresp = TransferRespUnresolved { pkt };
    assert!(uresp.can_resolve(&cmd));
    assert_eq!(uresp.resolve(&cmd).err(), Some(XferErr::ParseErr));
}
