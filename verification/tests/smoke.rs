use daphne::aarch64::SysregOp;
use daphne::ap::{ApClass, ApIdr, ApType};
use daphne::component::EdScr;
use daphne::dp::DpCtrlStat;
use daphne::mem_ap::MemApCsw;
use daphne::proto::MemApBusOp;
use daphne::xfer::TransferSequence;

#[test]
fn sysreg_enc_smoke() {
    let encs: &[u32] = &[
        0xd53b_0000,
        0xd539_0020,
        0xd53b_4500,
        0xd53b_4520,
        0xd53e_1000,
        0xd513_0500,
        0xd513_0400,
        0xd50e_f400,
    ];
    for enc in encs {
        let op = SysregOp::from(*enc);
        println!("{:08x} {} {:x?}", enc, op.to_string(), op);
    }
}

#[test]
fn apidr_smoke() {
    let x = ApIdr::from(0x24770002);
    assert!(x.ap_class() == ApClass::MemAp);
    assert!(x.ap_type() == ApType::Apb2_Apb3);
    assert!(x.jep106() == 0x3b);
}

#[test]
fn mem_ap_bitfield_smoke() {
    let x = MemApCsw::from(0xa200_0002);
    println!("{:#?}", x);
}

#[test]
fn dp_bitfield_smoke() {
    let x = DpCtrlStat::from(0x50000022);
    assert!(x.sticky_orun() == 1);
    assert!(x.sticky_err() == 1);
    assert!(x.cdbg_pwrup_req() == 1);
    assert!(x.csys_pwrup_req() == 1);

    let x: u32 = DpCtrlStat::new()
        .with_sticky_orun(1)
        .with_sticky_err(1)
        .with_cdbg_pwrup_req(1)
        .with_csys_pwrup_req(1)
        .into();
    assert!(x == 0x50000022);
}

#[test]
fn ed_scr_smoke() {
    let x = EdScr::from(0x0300_3c02);
    println!("{:x?}", x);
    let x = EdScr::from(0x0300_7c02);
    println!("{:x?}", x);
    let x = EdScr::from(0x0300_7f13);
    println!("{:x?}", x);
    let x = EdScr::from(0x2300_7f13);
    println!("{:x?}", x);
}

#[test]
fn foo() {
    let x = MemApBusOp::Read { ap: 0, addr: 0x80010000 }.as_transfer_seq();
    println!("{:#x?}", x);
}
