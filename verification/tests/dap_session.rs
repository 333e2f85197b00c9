use daphne::general::{HostStatusCmd, HostStatusType};
use daphne::dap::{Dap, DapAction, DapErr, DapTransportMode, ProbeErr};
use daphne::general::ConnectCmdPort;
use daphne::packet::DapPacketBuf;
use daphne::xfer::{Transfer, TransferAck, XferErr};
use daphne::dp::DpRegister;
use daphne::proto::DpOp;

/// A probe that answers every request well; reads give `read_val`.
fn good_reply(p: &DapPacketBuf, read_val: u32) -> DapPacketBuf {
    let d = p.data();
    let mut out = Vec::new();
    match d[0] {
        0x05 => {
            let cnt = d[2];
            let mut reads = 0;
            let mut i = 3;
            for _ in 0..cnt {
                let req = d[i];
                if req & 0x02 != 0 {
                    reads += 1;
                    i += 1;
                } else {
                    i += 5;
                }
            }
            out.extend_from_slice(&[0x05, cnt, 0x01]);
            for _ in 0..reads {
                out.extend_from_slice(&read_val.to_le_bytes());
            }
        },
        0x02 => out.extend_from_slice(&[0x02, 0x01]),
        0x00 => out.extend_from_slice(&[0x00, 0x01, 0x13]),
        id => out.extend_from_slice(&[id, 0x00]),
    }
    DapPacketBuf::new_from_slice(&out).unwrap()
}

/// Runs `a` to its end against a well-behaved probe; gives the result and
/// the packets sent.
fn drive(dap: &mut Dap, mut a: DapAction, read_val: u32) -> (Result<u32, DapErr>, Vec<Vec<u8>>) {
    let mut sent = Vec::new();
    loop {
        match a {
            DapAction::Done(r) => return (r, sent),
            DapAction::Exchange(p) => {
                sent.push(p.data().to_vec());
                let reply = good_reply(&p, read_val);
                assert!(dap.accepts_reply(&reply));
                a = dap.resume(Ok(reply));
            },
        }
    }
}

fn connected() -> Dap {
    let mut dap = Dap::new();
    let a = dap.connect(ConnectCmdPort::SwdMode);
    let (r, _) = drive(&mut dap, a, 0xf000_0000);
    assert_eq!(r, Ok(0));
    dap
}

#[test]
fn connect_runs_the_whole_sequence() {
    let mut dap = Dap::new();
    assert_eq!(dap.connection_mode(), DapTransportMode::Undefined);
    let a = dap.connect(ConnectCmdPort::SwdMode);
    let (r, sent) = drive(&mut dap, a, 0xf000_0000);
    assert_eq!(r, Ok(0));
    assert_eq!(dap.connection_mode(), DapTransportMode::Swd);
    assert!(!dap.is_busy());
    assert_eq!(sent.len(), 12);
    assert_eq!(sent[0], vec![0x02, 0x01]);
    assert_eq!(sent[1], vec![0x10, 0x00, 0x00, 0x00, 0x00, 0x00, 0x00]);
    assert_eq!(sent[2], vec![0x11, 0x00, 0x09, 0x3d, 0x00]);
    assert_eq!(sent[3], vec![0x04, 0x00, 0x40, 0x00, 0x00, 0x00]);
    assert_eq!(sent[4], vec![0x13, 0x00]);
    assert_eq!(sent[5][0], 0x12);
    assert_eq!(sent[5][1], 136);
    assert_eq!(sent[5].len(), 19);
    assert_eq!(sent[6], sent[2]);
    // DPIDR read
    assert_eq!(sent[7], vec![0x05, 0x00, 0x01, 0x02]);
    // ABORT write clearing every sticky flag
    assert_eq!(sent[8], vec![0x05, 0x00, 0x01, 0x00, 0x1e, 0x00, 0x00, 0x00]);
    // the power-up request with the sticky flags cleared
    assert!(sent[10].windows(4).any(|w| w == [0x22, 0x00, 0x00, 0x50]));
}

#[test]
fn connect_when_connected_is_done_at_once() {
    let mut dap = connected();
    match dap.connect(ConnectCmdPort::SwdMode) {
        DapAction::Done(r) => assert_eq!(r, Ok(0)),
        DapAction::Exchange(_) => panic!("no exchange expected"),
    }
    assert_eq!(dap.connection_mode(), DapTransportMode::Swd);
}

#[test]
fn connect_fails_without_power_up_ack() {
    let mut dap = Dap::new();
    let a = dap.connect(ConnectCmdPort::SwdMode);
    let (r, sent) = drive(&mut dap, a, 0x0000_0000);
    assert_eq!(r, Err(DapErr::CommandFailed));
    assert_eq!(sent.len(), 12);
}

#[test]
fn connect_refused_port() {
    let mut dap = Dap::new();
    let a = dap.connect(ConnectCmdPort::SwdMode);
    assert!(matches!(a, DapAction::Exchange(_)));
    let failed = DapPacketBuf::new_from_slice(&[0x02, 0x00]).unwrap();
    match dap.resume(Ok(failed)) {
        DapAction::Done(r) => assert_eq!(r, Err(DapErr::CommandFailed)),
        _ => panic!(),
    }
    assert_eq!(dap.connection_mode(), DapTransportMode::Undefined);

    let a = dap.connect(ConnectCmdPort::SwdMode);
    assert!(matches!(a, DapAction::Exchange(_)));
    let jtag = DapPacketBuf::new_from_slice(&[0x02, 0x02]).unwrap();
    match dap.resume(Ok(jtag)) {
        DapAction::Done(r) => assert_eq!(r, Err(DapErr::Unimpl)),
        _ => panic!(),
    }

    let a = dap.connect(ConnectCmdPort::SwdMode);
    assert!(matches!(a, DapAction::Exchange(_)));
    let bad = DapPacketBuf::new_from_slice(&[0x02, 0x07]).unwrap();
    match dap.resume(Ok(bad)) {
        DapAction::Done(r) => assert_eq!(r, Err(DapErr::PacketErr)),
        _ => panic!(),
    }
}

#[test]
fn reply_with_wrong_id_is_refused() {
    let mut dap = Dap::new();
    let _ = dap.connect(ConnectCmdPort::SwdMode);
    let wrong = DapPacketBuf::new_from_slice(&[0x03, 0x00]).unwrap();
    assert!(dap.accepts_reply(&wrong));
    match dap.resume(Ok(wrong)) {
        DapAction::Done(r) => assert_eq!(r, Err(DapErr::PacketErr)),
        _ => panic!(),
    }
    assert!(!dap.is_busy());
}

#[test]
fn probe_error_ends_the_operation() {
    let mut dap = Dap::new();
    let _ = dap.connect(ConnectCmdPort::SwdMode);
    match dap.resume(Err(DapErr::Probe(ProbeErr::Timeout))) {
        DapAction::Done(r) => assert_eq!(r, Err(DapErr::Probe(ProbeErr::Timeout))),
        _ => panic!(),
    }
    assert!(!dap.is_busy());
}

#[test]
fn failed_status_in_connect_stage() {
    let mut dap = Dap::new();
    let a = dap.connect(ConnectCmdPort::SwdMode);
    assert!(matches!(a, DapAction::Exchange(_)));
    let ok = DapPacketBuf::new_from_slice(&[0x02, 0x01]).unwrap();
    let a = dap.resume(Ok(ok));
    assert!(matches!(a, DapAction::Exchange(_)));
    let pins = DapPacketBuf::new_from_slice(&[0x10, 0x00]).unwrap();
    let a = dap.resume(Ok(pins));
    assert!(matches!(a, DapAction::Exchange(_)));
    let clock_failed = DapPacketBuf::new_from_slice(&[0x11, 0xff]).unwrap();
    match dap.resume(Ok(clock_failed)) {
        DapAction::Done(r) => assert_eq!(r, Err(DapErr::CommandFailed)),
        _ => panic!(),
    }
}

#[test]
fn short_reply_is_not_accepted() {
    let mut dap = Dap::new();
    let _ = dap.connect(ConnectCmdPort::SwdMode);
    let short = DapPacketBuf::new_from_slice(&[0x02]).unwrap();
    assert!(!dap.accepts_reply(&short));
}

#[test]
fn disconnect_when_disconnected_is_done() {
    let mut dap = Dap::new();
    match dap.disconnect() {
        DapAction::Done(r) => assert_eq!(r, Ok(0)),
        _ => panic!(),
    }
}

#[test]
fn disconnect_after_connect() {
    let mut dap = connected();
    let a = dap.disconnect();
    let (r, sent) = drive(&mut dap, a, 0);
    assert_eq!(r, Ok(0));
    assert_eq!(sent, vec![vec![0x03]]);
    assert_eq!(dap.connection_mode(), DapTransportMode::Undefined);
}

#[test]
fn capabilities_are_read() {
    let mut dap = Dap::new();
    let a = dap.get_capabilities();
    let (r, sent) = drive(&mut dap, a, 0);
    assert_eq!(sent, vec![vec![0x00, 0xf0]]);
    assert_eq!(r, Ok(0x13));
}

#[test]
fn xfer_seq_gives_last_read() {
    let mut dap = connected();
    let a = dap.send_xfer_seq(0, DpOp::Read { reg: DpRegister::DPIDR });
    let (r, sent) = drive(&mut dap, a, 0x2ba0_1477);
    assert_eq!(r, Ok(0x2ba0_1477));
    assert_eq!(sent, vec![vec![0x05, 0x00, 0x01, 0x02]]);
}

#[test]
fn xfer_write_gives_written_value() {
    let mut dap = connected();
    let a = dap.send_xfer_seq(0, DpOp::Write { reg: DpRegister::SELECT, data: 0x0100_00f0 });
    let (r, sent) = drive(&mut dap, a, 0);
    assert_eq!(r, Ok(0x0100_00f0));
    assert_eq!(sent, vec![vec![0x05, 0x00, 0x01, 0x08, 0xf0, 0x00, 0x00, 0x01]]);
}

#[test]
fn xfer_errors() {
    let mut dap = connected();
    // An empty list is refused at once.
    match dap.send_xfer_raw(0, &[]) {
        DapAction::Done(r) => assert_eq!(r, Err(DapErr::PacketErr)),
        _ => panic!(),
    }
    // A WAIT acknowledgement.
    let x = Transfer::dp_read(DpRegister::DPIDR);
    let a = dap.send_xfer_raw(0, &[x]);
    assert!(matches!(a, DapAction::Exchange(_)));
    let wait = DapPacketBuf::new_from_slice(&[0x05, 0x01, 0x02, 0, 0, 0, 0]).unwrap();
    match dap.resume(Ok(wait)) {
        DapAction::Done(r) => assert_eq!(r, Err(DapErr::Xfer(XferErr::Ack(TransferAck::Wait)))),
        _ => panic!(),
    }
    // A protocol error.
    let a = dap.send_xfer_raw(0, &[x]);
    assert!(matches!(a, DapAction::Exchange(_)));
    let perr = DapPacketBuf::new_from_slice(&[0x05, 0x01, 0x09, 0, 0, 0, 0]).unwrap();
    match dap.resume(Ok(perr)) {
        DapAction::Done(r) => assert_eq!(r, Err(DapErr::Xfer(XferErr::ProtocolErr))),
        _ => panic!(),
    }
    // A value mismatch.
    let a = dap.send_xfer_raw(0, &[x]);
    assert!(matches!(a, DapAction::Exchange(_)));
    let vm = DapPacketBuf::new_from_slice(&[0x05, 0x01, 0x11, 0, 0, 0, 0]).unwrap();
    match dap.resume(Ok(vm)) {
        DapAction::Done(r) => assert_eq!(r, Err(DapErr::Xfer(XferErr::ValueMismatch))),
        _ => panic!(),
    }
    // A count that does not match the command.
    let a = dap.send_xfer_raw(0, &[x]);
    assert!(matches!(a, DapAction::Exchange(_)));
    let cnt = DapPacketBuf::new_from_slice(&[0x05, 0x02, 0x01]).unwrap();
    assert!(dap.accepts_reply(&cnt));
    match dap.resume(Ok(cnt)) {
        DapAction::Done(r) => assert_eq!(r, Err(DapErr::Xfer(XferErr::ParseErr))),
        _ => panic!(),
    }
}

#[test]
fn any_command_is_exchanged() {
    let mut dap = Dap::new();
    let a = dap.send_cmd(&HostStatusCmd { ty: HostStatusType::Running, sts: 1 });
    match a {
        DapAction::Exchange(p) => assert_eq!(p.data(), &[0x01, 0x01, 0x01]),
        _ => panic!(),
    }
    assert!(dap.is_busy());
    let reply = DapPacketBuf::new_from_slice(&[0x01, 0x00]).unwrap();
    assert!(dap.accepts_reply(&reply));
    match dap.resume(Ok(reply)) {
        DapAction::Done(r) => assert_eq!(r, Ok(0)),
        _ => panic!(),
    }
    // A reply with another ID is refused.
    let _ = dap.send_cmd(&HostStatusCmd { ty: HostStatusType::Connect, sts: 0 });
    let wrong = DapPacketBuf::new_from_slice(&[0x02, 0x00]).unwrap();
    match dap.resume(Ok(wrong)) {
        DapAction::Done(r) => assert_eq!(r, Err(DapErr::PacketErr)),
        _ => panic!(),
    }
    assert!(!dap.is_busy());
}
