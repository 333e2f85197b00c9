use daphne::general::{
    ConnectCmd, ConnectCmdPort, ConnectResp, ConnectRespPort, DapCapabilityInfo0, DisconnectCmd, DisconnectResp,
    HostStatusCmd, HostStatusType, InfoCmd, InfoReqId, InfoResp,
};
use daphne::packet::{DapCmdErr, DapCmdId, DapCommand, DapPacketBuf, DapResponse, DapResponseStatus, MAX_PKT_SZ};
use daphne::swd::{SwdConfigurationBits, SwdConfigureCmd, SwdConfigureResp, SwdSeqInfo, SwdSeqMode};
use daphne::swj::{SwjClockCmd, SwjClockResp, SwjPinBits, SwjPinsCmd, SwjPinsResp, SwjSequenceCmd};
use daphne::xfer::{TransferConfigureCmd, TransferConfigureResp};

fn pkt(bytes: &[u8]) -> DapPacketBuf {
    DapPacketBuf::new_from_slice(bytes).unwrap()
}

#[test]
fn packet_buffers() {
    let p = DapPacketBuf::new(0x05, &[1, 2, 3]);
    assert_eq!(p.len(), 4);
    assert_eq!(p.id(), 0x05);
    assert_eq!(p.cmd(), DapCmdId::Transfer);
    assert_eq!(p.content(), &[1, 2, 3]);
    assert_eq!(p.data(), &[5, 1, 2, 3]);

    let e = DapPacketBuf::new_empty(3);
    assert_eq!(e.data(), &[0, 0, 0]);
    assert_eq!(e.id(), 0);

    assert_eq!(DapPacketBuf::new_from_slice(&[]).err(), Some(DapCmdErr::PacketTooShort));
    let long = vec![0u8; MAX_PKT_SZ + 1];
    assert_eq!(DapPacketBuf::new_from_slice(&long).err(), Some(DapCmdErr::PacketTooLong));
    let full = vec![7u8; MAX_PKT_SZ];
    assert_eq!(DapPacketBuf::new_from_slice(&full).unwrap().len(), 64);
}

#[test]
fn command_ids() {
    assert_eq!(DapCmdId::from_primitive(0x00), DapCmdId::Info);
    assert_eq!(DapCmdId::from_primitive(0x05), DapCmdId::Transfer);
    assert_eq!(DapCmdId::from_primitive(0x12), DapCmdId::SwjSequence);
    assert_eq!(DapCmdId::Transfer.to_u8(), 0x05);
    assert_eq!(DapCmdId::SwdSequence.to_u8(), 0x1d);
    assert_eq!(DapResponseStatus::try_from_primitive(0x00), Ok(DapResponseStatus::DapOk));
    assert_eq!(DapResponseStatus::try_from_primitive(0xff), Ok(DapResponseStatus::DapErr));
    assert_eq!(DapResponseStatus::try_from_primitive(0x01), Err(DapCmdErr::InvalidValue(0x01)));
}

#[test]
fn capability_names() {
    assert_eq!(DapCapabilityInfo0(0x13).to_string(), "SWD | JTAG | ATOMIC");
    assert_eq!(DapCapabilityInfo0(0x00).to_string(), "");
    assert_eq!(DapCapabilityInfo0(0x80).to_string(), "UART");
    assert_eq!(
        DapCapabilityInfo0(0xff).to_string(),
        "SWD | JTAG | SWO_UART | SWO_MANCHESTER | ATOMIC | TEST_DOMAIN_TIMER | SWO_STREAMING_TRACE | UART"
    );
    let c = DapCapabilityInfo0(0x13);
    assert!(c.contains(DapCapabilityInfo0::SWD | DapCapabilityInfo0::ATOMIC));
    assert!(!c.contains(DapCapabilityInfo0::UART));
    assert_eq!(c.bits(), 0x13);
}

#[test]
fn general_commands() {
    let p = InfoCmd { req_id: InfoReqId::Capabilities }.to_packet().unwrap();
    assert_eq!(p.data(), &[0x00, 0xf0]);
    let p = InfoCmd { req_id: InfoReqId::VendorName }.to_packet().unwrap();
    assert_eq!(p.data(), &[0x00, 0x01]);
    let p = HostStatusCmd { ty: HostStatusType::Running, sts: 1 }.to_packet().unwrap();
    assert_eq!(p.data(), &[0x01, 0x01, 0x01]);
    let p = ConnectCmd { port: ConnectCmdPort::SwdMode }.to_packet().unwrap();
    assert_eq!(p.data(), &[0x02, 0x01]);
    let p = DisconnectCmd.to_packet().unwrap();
    assert_eq!(p.data(), &[0x03]);

    let r = InfoResp::from_packet(&pkt(&[0x00, 0x02, 0x13, 0x00])).unwrap();
    assert_eq!(r.data, vec![0x13, 0x00]);
    let r = ConnectResp::from_packet(&pkt(&[0x02, 0x01])).unwrap();
    assert_eq!(r.port, ConnectRespPort::Swd);
    assert_eq!(ConnectResp::from_packet(&pkt(&[0x02, 0x09])).err(), Some(DapCmdErr::InvalidValue(9)));
    let r = DisconnectResp::from_packet(&pkt(&[0x03, 0xff])).unwrap();
    assert_eq!(r.sts, DapResponseStatus::DapErr);
}

#[test]
fn swd_commands() {
    let i = SwdSeqInfo::new(8, SwdSeqMode::Input).unwrap();
    assert_eq!(i.bits(), 0x88);
    assert_eq!(i.cycles(), 8);
    assert_eq!(i.mode(), SwdSeqMode::Input);
    let i = SwdSeqInfo::new(64, SwdSeqMode::Output).unwrap();
    assert_eq!(i.bits(), 0x00);
    assert_eq!(i.cycles(), 64);
    assert_eq!(i.mode(), SwdSeqMode::Output);
    assert_eq!(SwdSeqInfo::new(0, SwdSeqMode::Output).err(), Some(DapCmdErr::CycleCountOutOfRange));
    assert_eq!(SwdSeqInfo::new(65, SwdSeqMode::Output).err(), Some(DapCmdErr::CycleCountOutOfRange));

    let cfg = SwdConfigurationBits::from_bits_retain(SwdConfigurationBits::TURNAROUND_2CYC | SwdConfigurationBits::DATA_PHASE);
    let p = SwdConfigureCmd { cfg }.to_packet().unwrap();
    assert_eq!(p.data(), &[0x13, 0x05]);
    let r = SwdConfigureResp::from_packet(&pkt(&[0x13, 0x00])).unwrap();
    assert_eq!(r.sts, DapResponseStatus::DapOk);
}

#[test]
fn swj_commands() {
    let p = SwjPinsCmd {
        pin_out: SwjPinBits(SwjPinBits::nRESET),
        pin_sel: SwjPinBits(SwjPinBits::nRESET | SwjPinBits::SWCLK_TCK),
        pin_wait: 0x0102_0304,
    }
    .to_packet()
    .unwrap();
    assert_eq!(p.data(), &[0x10, 0x80, 0x81, 0x04, 0x03, 0x02, 0x01]);
    let p = SwjClockCmd { clock: 1_000_000 }.to_packet().unwrap();
    assert_eq!(p.data(), &[0x11, 0x40, 0x42, 0x0f, 0x00]);
    let p = SwjSequenceCmd { seq_bitcnt: 16, seq_bitdata: vec![0x9e, 0xe7] }.to_packet().unwrap();
    assert_eq!(p.data(), &[0x12, 16, 0x9e, 0xe7]);

    let r = SwjPinsResp::from_packet(&pkt(&[0x10, 0x5a])).unwrap();
    assert_eq!(r.pin_inp.0, 0x5a);
    let r = SwjClockResp::from_packet(&pkt(&[0x11, 0x00])).unwrap();
    assert_eq!(r.sts, DapResponseStatus::DapOk);
}

#[test]
fn transfer_configure() {
    let p = TransferConfigureCmd { idle_cycles: 2, wait_retry: 0x40, match_retry: 0x0102 }.to_packet().unwrap();
    assert_eq!(p.data(), &[0x04, 0x02, 0x40, 0x00, 0x02, 0x01]);
    let r = TransferConfigureResp::from_packet(&pkt(&[0x04, 0x00])).unwrap();
    assert_eq!(r.sts, DapResponseStatus::DapOk);
}

#[test]
fn transfer_packet_size_limit() {
    let w = daphne::xfer::Transfer::dp_write(daphne::dp::DpRegister::SELECT, 0);
    let r = daphne::xfer::Transfer::dp_read(daphne::dp::DpRegister::RDBUFF);
    // 12 writes and 1 read: 61 bytes, a 64-byte packet.
    let mut xs = vec![w; 12];
    xs.push(r);
    let cmd = daphne::xfer::TransferCmd::new_from_slice(0, &xs).unwrap();
    assert_eq!(cmd.to_packet().unwrap().len(), 64);
    // One more read: 62 bytes, which would need a 65-byte packet.
    xs.push(r);
    let cmd = daphne::xfer::TransferCmd::new_from_slice(0, &xs).unwrap();
    assert_eq!(cmd.to_packet().err(), Some(DapCmdErr::TransferTooLong));
    let mut dap = daphne::dap::Dap::new();
    match dap.send_xfer_raw(0, &xs) {
        daphne::dap::DapAction::Done(res) => assert_eq!(res, Err(daphne::dap::DapErr::PacketErr)),
        _ => panic!(),
    }
    assert!(!dap.is_busy());
    let empty = daphne::xfer::TransferCmd::new_from_slice(0, &[]).unwrap();
    assert_eq!(empty.to_packet().err(), Some(DapCmdErr::EmptyTransfer));
}

#[test]
fn swd_info_bit6_is_clear() {
    for cycles in 1..=64 {
        for mode in [SwdSeqMode::Input, SwdSeqMode::Output] {
            let i = SwdSeqInfo::new(cycles, mode).unwrap();
            assert_eq!(i.bits() & 0x40, 0);
            assert_eq!(i.cycles(), cycles);
            assert_eq!(i.mode(), mode);
        }
    }
}
