use daphne::aarch64::{Aarch64Enc, ExceptionClass, Gpr, Sysreg, SysregEnc, SysregOp};

#[test]
fn sysreg_encodings() {
    assert_eq!(SysregEnc::enc(0b11, 0b110, 0b0101, 0b0010, 0b000), 0xf290);
    let e = SysregEnc::from_enc(0b11, 0b110, 0b0101, 0b0010, 0b000);
    assert_eq!(e.op0(), 3);
    assert_eq!(e.op1(), 6);
    assert_eq!(e.crn(), 5);
    assert_eq!(e.crm(), 2);
    assert_eq!(e.op2(), 0);
    assert_eq!(e.as_sysreg(), Sysreg::ESR_EL3);
    assert_eq!(Sysreg::ESR_EL3.enc().0, 0xf290);
    assert_eq!(Sysreg::from(0x1234), Sysreg::Undefined(0x1234));
    // Fields wider than their width are cut.
    assert_eq!(SysregEnc::enc(0xff, 0, 0, 0, 0), 0xc000);
}

#[test]
fn mrs_and_msr() {
    let op = SysregOp::new_mrs(3, Sysreg::ESR_EL3.enc());
    assert_eq!(op.rt(), 3);
    assert_eq!(op.l(), 1);
    assert_eq!(op.opcd(), SysregOp::OPCD);
    assert_eq!(op.sysreg_enc().0, 0xf290);
    assert_eq!(op.to_string(), "mrs x3, ESR_EL3");
    assert_eq!(op.0, 0xd53e_5203);

    let op = SysregOp::new_msr(Sysreg::DBG_DTR_RXTX_EL0.enc(), 30);
    assert_eq!(op.l(), 0);
    assert_eq!(op.to_string(), "msr DBG_DTR_RXTX_EL0, x30");

    let op = SysregOp::new_msr(SysregEnc::from_enc(3, 0, 1, 2, 3), 5);
    assert_eq!(op.to_string(), "msr S3_0_c1_c2_3, x5");
    let op = SysregOp::from(0xd53b_4500);
    assert_eq!(op.to_string(), "mrs x0, DS_PSR_EL0");
    let op = SysregOp::new_mrs(12, SysregEnc::from_enc(2, 7, 15, 15, 7));
    assert_eq!(op.to_string(), "mrs x12, S2_7_c15_c15_7");
}

#[test]
fn registers_and_classes() {
    assert_eq!(Gpr::from(0), Gpr::x0);
    assert_eq!(Gpr::from(30), Gpr::x30);
    assert_eq!(Gpr::from(31), Gpr::Undef(31));
    assert_eq!(u8::from(Gpr::x17), 17);
    assert_eq!(ExceptionClass::from(0b100_101), ExceptionClass::DataAbort);
    assert_eq!(ExceptionClass::from(0b111_111), ExceptionClass::Undef(0x3f));
    assert_eq!(u8::from(ExceptionClass::SErrorInt), 0b101_111);
    assert_eq!(Aarch64Enc::HLT_0, 0xd440_0000);
    assert_eq!(Aarch64Enc::DSB_SY, 0xd503_3f9f);
}
