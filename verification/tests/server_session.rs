use daphne::server::{after_reply, on_signal, LoopStep};
use daphne::dap::{Dap, DapAction, DapErr, DapTransportMode};
use daphne::dp::DpRegister;
use daphne::proto::{DapOp, DaphneOp, DaphneResp, DaphneRespSts, DpOp, MemApBusOp};
use daphne::server::{
    handle_msg, make_response, on_read_fault, on_send_fault, DaphneSessionData, FaultAction, ServerStep,
    TransportFault, PING_REPLY,
};

#[test]
fn session_flags_read_back_what_was_written() {
    let mut s = DaphneSessionData::new();
    assert_eq!(s.get_bool("armed"), None);
    s.insert_bool("armed", true);
    assert_eq!(s.get_bool("armed"), Some(true));
    s.insert_bool("other", false);
    assert_eq!(s.get_bool("armed"), Some(true));
    assert_eq!(s.get_bool("other"), Some(false));
    s.insert_bool("armed", false);
    assert_eq!(s.get_bool("armed"), Some(false));
    assert_eq!(s.get_bool("missing"), None);
}

#[test]
fn ping_and_flags() {
    let mut s = DaphneSessionData::new();
    let mut dap = Dap::new();
    assert!(matches!(handle_msg(&mut s, &mut dap, &DaphneOp::Ping), ServerStep::Reply(PING_REPLY)));
    assert_eq!(PING_REPLY, 0x504f_4e47);
    assert!(matches!(handle_msg(&mut s, &mut dap, &DaphneOp::GetFlag("x".to_string())), ServerStep::Reply(0)));
    assert!(matches!(handle_msg(&mut s, &mut dap, &DaphneOp::SetFlag("x".to_string(), true)), ServerStep::Reply(0)));
    assert!(matches!(handle_msg(&mut s, &mut dap, &DaphneOp::GetFlag("x".to_string())), ServerStep::Reply(1)));
    assert!(!dap.is_busy());
}

#[test]
fn probe_operations_start_exchanges() {
    let mut s = DaphneSessionData::new();
    let mut dap = Dap::new();
    match handle_msg(&mut s, &mut dap, &DaphneOp::Dap(DapOp::Connect)) {
        ServerStep::Dap(DapAction::Exchange(p)) => assert_eq!(p.data(), &[0x02, 0x01]),
        _ => panic!(),
    }
    assert!(dap.is_busy());

    let mut dap = Dap::new();
    match handle_msg(&mut s, &mut dap, &DaphneOp::Dap(DapOp::Disconnect)) {
        ServerStep::Dap(DapAction::Done(r)) => assert_eq!(r, Ok(0)),
        _ => panic!(),
    }
    assert_eq!(dap.connection_mode(), DapTransportMode::Undefined);

    match handle_msg(&mut s, &mut dap, &DaphneOp::Dp(DpOp::Read { reg: DpRegister::RDBUFF })) {
        ServerStep::Dap(DapAction::Exchange(p)) => assert_eq!(p.data(), &[0x05, 0x00, 0x01, 0x0e]),
        _ => panic!(),
    }

    let mut dap = Dap::new();
    match handle_msg(&mut s, &mut dap, &DaphneOp::MemApBus(MemApBusOp::Read { ap: 0, addr: 0x8001_0000 })) {
        ServerStep::Dap(DapAction::Exchange(p)) => assert_eq!(p.id(), 0x05),
        _ => panic!(),
    }
}

#[test]
fn responses_and_faults() {
    assert_eq!(make_response(&Ok(7)), DaphneResp { data: 7, sts: DaphneRespSts::RespOk });
    assert_eq!(make_response(&Err(DapErr::CommandFailed)), DaphneResp { data: 0, sts: DaphneRespSts::RespErr });
    assert_eq!(on_read_fault(TransportFault::WouldBlock), FaultAction::Retry);
    assert_eq!(on_read_fault(TransportFault::BrokenPipe), FaultAction::HangUp);
    assert_eq!(on_read_fault(TransportFault::NoData), FaultAction::HangUp);
    assert_eq!(on_read_fault(TransportFault::Other), FaultAction::Fail);
    assert_eq!(on_send_fault(TransportFault::BrokenPipe), FaultAction::HangUp);
    assert_eq!(on_send_fault(TransportFault::WouldBlock), FaultAction::Fail);
    assert_eq!(on_send_fault(TransportFault::Other), FaultAction::Fail);
}

#[test]
fn loop_steps() {
    assert_eq!(on_signal(true), LoopStep::Stop);
    assert_eq!(on_signal(false), LoopStep::Continue);
    assert_eq!(after_reply(&Ok(3)), LoopStep::Continue);
    assert_eq!(after_reply(&Err(DapErr::Unimpl)), LoopStep::Fail(DapErr::Unimpl));
}
