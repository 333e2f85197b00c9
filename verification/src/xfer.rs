//! CMSIS-DAP transfers: DP/AP read and write transactions, the transfer
//! command, and the resolution of its response.

use vstd::prelude::*;
use vstd::std_specs::convert::FromSpecImpl;
use crate::bits::{
    field8, with_field8, get_field8, set_field8, le_bytes32, le_bytes16, le32_bytes, le16_bytes,
    le_value32_at, le32_value_at,
};
use crate::dp::{DpRegister, DpAbort, DpSelect, spec_dp_word, spec_dp_from_address};
use crate::ap::ApRegOff;
use crate::packet::{
    DapCmdErr, DapCmdId, DapCommand, DapPacketBuf, DapResponse, DapResponseStatus,
    spec_status_from_byte, status_decodable, status_from_packet,
};

verus! {

/// Representing different types of CMSIS-DAP transfers.
#[derive(Clone, Copy, Debug, PartialEq, Eq, Structural)]
pub enum TransferKind {
    Read,
    ReadMatch,
    Write,
    WriteMatchMask,
}

/// Direction of a transfer: `W` is 0, `R` is 1.
#[derive(Clone, Copy, Debug, PartialEq, Eq, Structural)]
pub enum TransferAccessKind {
    W,
    R,
}

pub open spec fn spec_access_bit(a: TransferAccessKind) -> u8 {
    match a {
        TransferAccessKind::W => 0,
        TransferAccessKind::R => 1,
    }
}

/// The target of a transfer: `DP` is 0, `AP` is 1.
#[derive(Clone, Copy, Debug, PartialEq, Eq, Structural)]
pub enum TransferTarget {
    DP,
    AP,
}

pub open spec fn spec_target_bit(t: TransferTarget) -> u8 {
    match t {
        TransferTarget::DP => 0,
        TransferTarget::AP => 1,
    }
}

/// The word index (`A[3:2]`) of a DP or AP register: a value from 0 to 3.
#[derive(Clone, Copy, Debug, PartialEq, Eq, Structural)]
pub struct TransferWordIdx(u8);

impl View for TransferWordIdx {
    type V = u8;

    closed spec fn view(&self) -> u8 {
        self.0
    }
}

/// Facts about the two-bit masks that build word indexes.
pub proof fn lemma_word_index_masks(x: u8)
    ensures
        x <= 3 ==> x & 3 == x,
        x & 3 <= 3,
        (x & 0b1100) >> 2 <= 3,
        (0x00u8 & 0b1100) >> 2 == 0,
        (0x04u8 & 0b1100) >> 2 == 1,
        (0x08u8 & 0b1100) >> 2 == 2,
        (0x0cu8 & 0b1100) >> 2 == 3,
{
    assert(x <= 3 ==> x & 3 == x) by (bit_vector);
    assert(x & 3 <= 3) by (bit_vector);
    assert((x & 0b1100) >> 2 <= 3 && (0x00u8 & 0b1100) >> 2 == 0 && (0x04u8 & 0b1100) >> 2 == 1
        && (0x08u8 & 0b1100) >> 2 == 2 && (0x0cu8 & 0b1100) >> 2 == 3) by (bit_vector);
}

impl TransferWordIdx {
    #[verifier::type_invariant]
    closed spec fn inv(&self) -> bool {
        self.0 <= 3
    }

    /// The word index held in the low two bits of `val`.
    pub fn new_idx(val: usize) -> (r: Self)
        ensures
            r@ == (val & 3) as u8,
            val <= 3 ==> r@ == val,
    {
        let x = (val & 3) as u8;
        proof {
            assert(val <= 3 ==> val & 3 == val) by (bit_vector);
            assert(val & 3 <= 3) by (bit_vector);
        }
        Self(x)
    }

    /// The word index of a register at byte offset `val` (bits 3:2).
    pub fn new_from_offset(val: u8) -> (r: Self)
        ensures
            r@ == (val & 0b1100) >> 2,
    {
        proof {
            lemma_word_index_masks(val);
        }
        Self((val & 0b0000_1100) >> 2)
    }

    pub fn bits(&self) -> (r: u8)
        ensures
            r == self@,
            r <= 3,
    {
        proof {
            use_type_invariant(self);
        }
        self.0
    }
}

/// Transfer request (control) byte.
#[derive(Clone, Copy, Debug, PartialEq, Eq, Structural)]
pub struct TransferReqCtl(pub u8);

impl TransferReqCtl {
    /// All fields zero.
    pub fn new() -> (r: Self)
        ensures
            r.0 == 0,
    {
        TransferReqCtl(0)
    }

    pub fn apndp(&self) -> (r: u8)
        ensures
            r == field8(self.0, 0, 0x1),
            r <= 0x1,
    {
        get_field8(self.0, 0, 0x1)
    }

    pub fn with_apndp(self, v: u8) -> (r: Self)
        requires
            v <= 0x1,
        ensures
            r.0 == with_field8(self.0, 0, 0x1, v),
    {
        TransferReqCtl(set_field8(self.0, 0, 0x1, v))
    }

    pub fn rnw(&self) -> (r: u8)
        ensures
            r == field8(self.0, 1, 0x1),
            r <= 0x1,
    {
        get_field8(self.0, 1, 0x1)
    }

    pub fn with_rnw(self, v: u8) -> (r: Self)
        requires
            v <= 0x1,
        ensures
            r.0 == with_field8(self.0, 1, 0x1, v),
    {
        TransferReqCtl(set_field8(self.0, 1, 0x1, v))
    }

    pub fn a(&self) -> (r: u8)
        ensures
            r == field8(self.0, 2, 0x3),
            r <= 0x3,
    {
        get_field8(self.0, 2, 0x3)
    }

    pub fn with_a(self, v: u8) -> (r: Self)
        requires
            v <= 0x3,
        ensures
            r.0 == with_field8(self.0, 2, 0x3, v),
    {
        TransferReqCtl(set_field8(self.0, 2, 0x3, v))
    }

    pub fn value_match(&self) -> (r: u8)
        ensures
            r == field8(self.0, 4, 0x1),
            r <= 0x1,
    {
        get_field8(self.0, 4, 0x1)
    }

    pub fn with_value_match(self, v: u8) -> (r: Self)
        requires
            v <= 0x1,
        ensures
            r.0 == with_field8(self.0, 4, 0x1, v),
    {
        TransferReqCtl(set_field8(self.0, 4, 0x1, v))
    }

    pub fn match_mask(&self) -> (r: u8)
        ensures
            r == field8(self.0, 5, 0x1),
            r <= 0x1,
    {
        get_field8(self.0, 5, 0x1)
    }

    pub fn with_match_mask(self, v: u8) -> (r: Self)
        requires
            v <= 0x1,
        ensures
            r.0 == with_field8(self.0, 5, 0x1, v),
    {
        TransferReqCtl(set_field8(self.0, 5, 0x1, v))
    }

    pub fn unk6(&self) -> (r: u8)
        ensures
            r == field8(self.0, 6, 0x1),
            r <= 0x1,
    {
        get_field8(self.0, 6, 0x1)
    }

    pub fn with_unk6(self, v: u8) -> (r: Self)
        requires
            v <= 0x1,
        ensures
            r.0 == with_field8(self.0, 6, 0x1, v),
    {
        TransferReqCtl(set_field8(self.0, 6, 0x1, v))
    }

    pub fn td_timestamp(&self) -> (r: u8)
        ensures
            r == field8(self.0, 7, 0x1),
            r <= 0x1,
    {
        get_field8(self.0, 7, 0x1)
    }

    pub fn with_td_timestamp(self, v: u8) -> (r: Self)
        requires
            v <= 0x1,
        ensures
            r.0 == with_field8(self.0, 7, 0x1, v),
    {
        TransferReqCtl(set_field8(self.0, 7, 0x1, v))
    }

}

impl From<u8> for TransferReqCtl {
    fn from(v: u8) -> (r: Self) {
        TransferReqCtl(v)
    }
}

impl FromSpecImpl<u8> for TransferReqCtl {
    open spec fn obeys_from_spec() -> bool {
        true
    }

    open spec fn from_spec(v: u8) -> Self {
        TransferReqCtl(v)
    }
}

impl From<TransferReqCtl> for u8 {
    fn from(v: TransferReqCtl) -> (r: u8) {
        v.0
    }
}

impl FromSpecImpl<TransferReqCtl> for u8 {
    open spec fn obeys_from_spec() -> bool {
        true
    }

    open spec fn from_spec(v: TransferReqCtl) -> u8 {
        v.0
    }
}

/// The transfer target that a request byte names (bit 0).
pub open spec fn spec_req_target(b: u8) -> TransferTarget {
    if field8(b, 0, 0x1) == 1 {
        TransferTarget::AP
    } else {
        TransferTarget::DP
    }
}

/// The transfer kind that a request byte names, from its RnW (bit 1), value
/// match (bit 4) and match mask (bit 5) bits; `None` for the combinations
/// that name no kind.
pub open spec fn spec_req_kind(b: u8) -> Option<TransferKind> {
    let read = field8(b, 1, 0x1) != 0;
    let read_match = field8(b, 4, 0x1) != 0;
    let write_mask = field8(b, 5, 0x1) != 0;
    if read && read_match && !write_mask {
        Some(TransferKind::ReadMatch)
    } else if read && !read_match && !write_mask {
        Some(TransferKind::Read)
    } else if !read && !read_match && write_mask {
        Some(TransferKind::WriteMatchMask)
    } else if !read && !read_match && !write_mask {
        Some(TransferKind::Write)
    } else {
        None
    }
}

/// The request byte that `TransferReqCtl::create` builds.
pub open spec fn spec_req_byte(target: TransferTarget, access: TransferAccessKind, a: u8) -> u8 {
    with_field8(
        with_field8(with_field8(0u8, 0, 0x1, spec_target_bit(target)), 1, 0x1, spec_access_bit(access)),
        2,
        0x3,
        a,
    )
}

/// A request byte built from a target, a direction and a word index names
/// that target, that word index, and a plain read or write.
pub proof fn lemma_req_byte_fields(target: TransferTarget, access: TransferAccessKind, a: u8)
    requires
        a <= 3,
    ensures
        spec_req_target(spec_req_byte(target, access, a)) == target,
        field8(spec_req_byte(target, access, a), 2, 0x3) == a,
        spec_req_kind(spec_req_byte(target, access, a)) == (match access {
            TransferAccessKind::R => Some(TransferKind::Read),
            TransferAccessKind::W => Some(TransferKind::Write),
        }),
{
    let t = spec_target_bit(target);
    let acc = spec_access_bit(access);
    let b = spec_req_byte(target, access, a);
    assert(t <= 1 && acc <= 1);
    assert(field8(b, 0, 0x1) == t && field8(b, 1, 0x1) == acc && field8(b, 2, 0x3) == a
        && field8(b, 4, 0x1) == 0 && field8(b, 5, 0x1) == 0) by (bit_vector)
        requires
            t <= 1,
            acc <= 1,
            a <= 3,
            b == with_field8(with_field8(with_field8(0u8, 0, 0x1, t), 1, 0x1, acc), 2, 0x3, a),
    ;
}

impl TransferReqCtl {
    pub fn create(target: TransferTarget, access: TransferAccessKind, addr: TransferWordIdx) -> (r:
        Self)
        ensures
            r.0 == spec_req_byte(target, access, addr@),
            spec_req_target(r.0) == target,
            field8(r.0, 2, 0x3) == addr@,
            spec_req_kind(r.0) == (match access {
                TransferAccessKind::R => Some(TransferKind::Read),
                TransferAccessKind::W => Some(TransferKind::Write),
            }),
    {
        let t: u8 = match target {
            TransferTarget::DP => 0,
            TransferTarget::AP => 1,
        };
        let acc: u8 = match access {
            TransferAccessKind::W => 0,
            TransferAccessKind::R => 1,
        };
        let a = addr.bits();
        proof {
            lemma_req_byte_fields(target, access, a);
        }
        Self::new().with_apndp(t).with_rnw(acc).with_a(a)
    }

    pub fn new_dp_read(idx: TransferWordIdx) -> (r: Self)
        ensures
            r.0 == spec_req_byte(TransferTarget::DP, TransferAccessKind::R, idx@),
            spec_req_target(r.0) == TransferTarget::DP,
            field8(r.0, 2, 0x3) == idx@,
            spec_req_kind(r.0) == Some(TransferKind::Read),
    {
        Self::create(TransferTarget::DP, TransferAccessKind::R, idx)
    }

    pub fn new_dp_write(idx: TransferWordIdx) -> (r: Self)
        ensures
            r.0 == spec_req_byte(TransferTarget::DP, TransferAccessKind::W, idx@),
            spec_req_target(r.0) == TransferTarget::DP,
            field8(r.0, 2, 0x3) == idx@,
            spec_req_kind(r.0) == Some(TransferKind::Write),
    {
        Self::create(TransferTarget::DP, TransferAccessKind::W, idx)
    }

    pub fn new_ap_read(idx: TransferWordIdx) -> (r: Self)
        ensures
            r.0 == spec_req_byte(TransferTarget::AP, TransferAccessKind::R, idx@),
            spec_req_target(r.0) == TransferTarget::AP,
            field8(r.0, 2, 0x3) == idx@,
            spec_req_kind(r.0) == Some(TransferKind::Read),
    {
        Self::create(TransferTarget::AP, TransferAccessKind::R, idx)
    }

    pub fn new_ap_write(idx: TransferWordIdx) -> (r: Self)
        ensures
            r.0 == spec_req_byte(TransferTarget::AP, TransferAccessKind::W, idx@),
            spec_req_target(r.0) == TransferTarget::AP,
            field8(r.0, 2, 0x3) == idx@,
            spec_req_kind(r.0) == Some(TransferKind::Write),
    {
        Self::create(TransferTarget::AP, TransferAccessKind::W, idx)
    }

    /// Return the word index (`A[3:2]`) associated with this transfer.
    pub fn word_idx(&self) -> (r: TransferWordIdx)
        ensures
            r@ == field8(self.0, 2, 0x3),
    {
        let a = self.a();
        proof {
            crate::bits::lemma_and_le8(self.0 >> 2u8, 0x3);
        }
        TransferWordIdx::new_idx(a as usize)
    }

    /// Return the associated transfer target.
    pub fn target(&self) -> (r: TransferTarget)
        ensures
            r == spec_req_target(self.0),
    {
        if self.apndp() == 1 {
            TransferTarget::AP
        } else {
            TransferTarget::DP
        }
    }

    /// Return the associated transfer kind, if the bits name one.
    pub fn kind(&self) -> (r: Option<TransferKind>)
        ensures
            r == spec_req_kind(self.0),
    {
        let read = self.rnw() != 0;
        let read_match = self.value_match() != 0;
        let write_mask = self.match_mask() != 0;
        if read && read_match && !write_mask {
            Some(TransferKind::ReadMatch)
        } else if read && !read_match && !write_mask {
            Some(TransferKind::Read)
        } else if !read && !read_match && write_mask {
            Some(TransferKind::WriteMatchMask)
        } else if !read && !read_match && !write_mask {
            Some(TransferKind::Write)
        } else {
            None
        }
    }
}

/// A CMSIS-DAP transfer, representing some DP/AP read or write transaction.
#[derive(Clone, Copy, Debug, PartialEq, Eq, Structural)]
pub struct Transfer {
    pub req: TransferReqCtl,
    pub data: Option<u32>,
}

/// The transfer that reads DP register `reg`.
pub open spec fn spec_dp_read(reg: DpRegister) -> Transfer {
    Transfer {
        req: TransferReqCtl(spec_req_byte(TransferTarget::DP, TransferAccessKind::R, spec_dp_word(reg))),
        data: None,
    }
}

/// The transfer that writes `data` to DP register `reg`.
pub open spec fn spec_dp_write(reg: DpRegister, data: u32) -> Transfer {
    Transfer {
        req: TransferReqCtl(spec_req_byte(TransferTarget::DP, TransferAccessKind::W, spec_dp_word(reg))),
        data: Some(data),
    }
}

/// The transfer that reads the AP register at word index `word`.
pub open spec fn spec_ap_read(word: u8) -> Transfer {
    Transfer { req: TransferReqCtl(spec_req_byte(TransferTarget::AP, TransferAccessKind::R, word)), data: None }
}

/// The transfer that writes `data` to the AP register at word index `word`.
pub open spec fn spec_ap_write(word: u8, data: u32) -> Transfer {
    Transfer {
        req: TransferReqCtl(spec_req_byte(TransferTarget::AP, TransferAccessKind::W, word)),
        data: Some(data),
    }
}

/// The size of a transfer in a transfer command: its request byte, and four
/// data bytes when it carries data.
pub open spec fn spec_xfer_size(t: Transfer) -> nat {
    if t.data is None {
        1
    } else {
        5
    }
}

impl Transfer {
    pub fn new(req: TransferReqCtl) -> (r: Self)
        ensures
            r == (Transfer { req, data: None }),
    {
        Self { req, data: None }
    }

    pub fn new_with_data(req: TransferReqCtl, val: u32) -> (r: Self)
        ensures
            r == (Transfer { req, data: Some(val) }),
    {
        Self { req, data: Some(val) }
    }

    /// A write to some DP register. This only encodes the register's word
    /// index: DPBANKSEL must already select the register's bank.
    pub fn dp_write(reg: DpRegister, data: u32) -> (r: Self)
        requires
            reg != DpRegister::Undef,
        ensures
            r == spec_dp_write(reg, data),
    {
        let req = TransferReqCtl::new_dp_write(reg.word_idx());
        Self { req, data: Some(data) }
    }

    /// A read of some DP register. This only encodes the register's word
    /// index: DPBANKSEL must already select the register's bank.
    pub fn dp_read(reg: DpRegister) -> (r: Self)
        requires
            reg != DpRegister::Undef,
        ensures
            r == spec_dp_read(reg),
    {
        let req = TransferReqCtl::new_dp_read(reg.word_idx());
        Self { req, data: None }
    }

    /// A read of some MEM-AP register. This only encodes the word index:
    /// APBANKSEL must already select the register's bank.
    pub fn mem_ap_read(word_idx: TransferWordIdx) -> (r: Self)
        ensures
            r == spec_ap_read(word_idx@),
    {
        let req = TransferReqCtl::new_ap_read(word_idx);
        Self { req, data: None }
    }

    /// A write to some MEM-AP register. This only encodes the word index:
    /// APBANKSEL must already select the register's bank.
    pub fn mem_ap_write(word_idx: TransferWordIdx, data: u32) -> (r: Self)
        ensures
            r == spec_ap_write(word_idx@, data),
    {
        let req = TransferReqCtl::new_ap_write(word_idx);
        Self { req, data: Some(data) }
    }

    /// A write to the DP ABORT register (which shares DPIDR's address).
    pub fn write_abort(abort: DpAbort) -> (r: Self)
        ensures
            r == spec_dp_write(DpRegister::DPIDR, abort.0),
    {
        Self::dp_write(DpRegister::DPIDR, abort.0)
    }

    /// A write to the DP SELECT register.
    pub fn write_dpselect(select: DpSelect) -> (r: Self)
        ensures
            r == spec_dp_write(DpRegister::SELECT, select.0),
    {
        Self::dp_write(DpRegister::SELECT, select.0)
    }

    /// The size of this transfer (in bytes).
    pub fn size(&self) -> (r: usize)
        ensures
            r == spec_xfer_size(*self),
    {
        if self.data.is_none() {
            1
        } else {
            5
        }
    }

    /// The DP register this transfer accesses when DPBANKSEL is `dpbanksel`;
    /// `None` for an AP transfer.
    pub fn resolve_dp_register(&self, dpbanksel: usize) -> (r: Option<DpRegister>)
        ensures
            r == (if spec_req_target(self.req.0) != TransferTarget::DP {
                None
            } else {
                Some(spec_dp_from_address(field8(self.req.0, 2, 0x3), dpbanksel))
            }),
    {
        if self.req.target() != TransferTarget::DP {
            return None;
        }
        Some(DpRegister::from_address(self.req.word_idx(), dpbanksel))
    }

    /// The offset of the AP register this transfer accesses when APBANKSEL
    /// is `apbanksel`; `None` for a DP transfer.
    pub fn resolve_ap_register_offset(&self, apbanksel: u8) -> (r: Option<ApRegOff>)
        requires
            spec_req_target(self.req.0) == TransferTarget::AP ==> apbanksel <= 0xf,
        ensures
            r == (if spec_req_target(self.req.0) != TransferTarget::AP {
                None
            } else {
                Some(
                    ApRegOff(
                        with_field8(with_field8(0, 2, 0x3, field8(self.req.0, 2, 0x3)), 4, 0xf, apbanksel),
                    ),
                )
            }),
    {
        if self.req.target() != TransferTarget::AP {
            return None;
        }
        Some(ApRegOff::from_word_bank(self.req.word_idx(), apbanksel))
    }
}

/// Transfer response (control) byte: acknowledgement in bits 0..2, protocol
/// error in bit 3, value mismatch in bit 4.
pub struct TransferRespCtl(u8);

impl TransferRespCtl {
    pub closed spec fn spec_bits(&self) -> u8 {
        self.0
    }

    pub fn new(val: u8) -> (r: Self)
        ensures
            r.spec_bits() == val,
    {
        Self(val)
    }

    pub fn ack(&self) -> (r: TransferAck)
        ensures
            r == spec_transferack_from(self.spec_bits() & 0b111),
    {
        TransferAck::from_primitive(self.0 & 0b0000_0111)
    }

    pub fn protocol_err(&self) -> (r: bool)
        ensures
            r == (self.spec_bits() & 0b1000 != 0),
    {
        (self.0 & 0b0000_1000) != 0
    }

    pub fn value_mismatch(&self) -> (r: bool)
        ensures
            r == (self.spec_bits() & 0b1_0000 != 0),
    {
        (self.0 & 0b0001_0000) != 0
    }
}

/// Transfer acknowledgement bits.
#[derive(Clone, Copy, Debug, PartialEq, Eq, Structural)]
pub enum TransferAck {
    AckOk,
    Wait,
    Fault,
    NoAck,
    Undef(u8),
}

/// The value that `v` names; a number that names none is kept in `Undef`.
pub open spec fn spec_transferack_from(v: u8) -> TransferAck {
    if v == 0x1 {
        TransferAck::AckOk
    } else if v == 0x2 {
        TransferAck::Wait
    } else if v == 0x4 {
        TransferAck::Fault
    } else if v == 0x7 {
        TransferAck::NoAck
    } else {
        TransferAck::Undef(v)
    }
}

pub open spec fn spec_transferack_value(e: TransferAck) -> u8 {
    match e {
        TransferAck::AckOk => 0x1,
        TransferAck::Wait => 0x2,
        TransferAck::Fault => 0x4,
        TransferAck::NoAck => 0x7,
        TransferAck::Undef(v) => v,
    }
}

impl TransferAck {
    pub fn from_primitive(v: u8) -> (r: Self)
        ensures
            r == spec_transferack_from(v),
    {
        match v {
            0x1 => TransferAck::AckOk,
            0x2 => TransferAck::Wait,
            0x4 => TransferAck::Fault,
            0x7 => TransferAck::NoAck,
            _ => TransferAck::Undef(v),
        }
    }

    pub fn to_primitive(self) -> (r: u8)
        ensures
            r == spec_transferack_value(self),
    {
        match self {
            TransferAck::AckOk => 0x1,
            TransferAck::Wait => 0x2,
            TransferAck::Fault => 0x4,
            TransferAck::NoAck => 0x7,
            TransferAck::Undef(v) => v,
        }
    }
}

impl From<u8> for TransferAck {
    fn from(v: u8) -> (r: Self) {
        Self::from_primitive(v)
    }
}

impl FromSpecImpl<u8> for TransferAck {
    open spec fn obeys_from_spec() -> bool {
        true
    }

    open spec fn from_spec(v: u8) -> Self {
        spec_transferack_from(v)
    }
}

impl From<TransferAck> for u8 {
    fn from(v: TransferAck) -> (r: u8) {
        v.to_primitive()
    }
}

impl FromSpecImpl<TransferAck> for u8 {
    open spec fn obeys_from_spec() -> bool {
        true
    }

    open spec fn from_spec(v: TransferAck) -> u8 {
        spec_transferack_value(v)
    }
}

/// Reading any number as a `TransferAck` and writing it back gives the number.
pub proof fn lemma_transferack_roundtrip(v: u8)
    ensures
        spec_transferack_value(spec_transferack_from(v)) == v,
{
}

/// Errors in resolving a transfer response.
#[derive(Clone, Copy, Debug, PartialEq, Eq, Structural)]
pub enum XferErr {
    ParseErr,
    ProtocolErr,
    ValueMismatch,
    Ack(TransferAck),
}

/// DAP "transfer configure" command.
pub struct TransferConfigureCmd {
    /// "Number of extra idle cycles after each transfer"
    pub idle_cycles: u8,
    /// "Number of transfer retries after WAIT response"
    pub wait_retry: u16,
    /// "Number of retries on reads with Value Match"
    pub match_retry: u16,
}

impl DapCommand for TransferConfigureCmd {
    type Resp = TransferConfigureResp;

    open spec fn spec_cmd_id() -> DapCmdId {
        DapCmdId::TransferConfigure
    }

    fn cmd_id() -> (r: DapCmdId) {
        DapCmdId::TransferConfigure
    }

    open spec fn encodable(&self) -> bool {
        true
    }

    open spec fn spec_packet(&self) -> Result<Seq<u8>, DapCmdErr> {
        Ok(seq![0x04u8, self.idle_cycles] + le_bytes16(self.wait_retry) + le_bytes16(self.match_retry))
    }

    fn to_packet(&self) -> (r: Result<DapPacketBuf, DapCmdErr>) {
        let w = le16_bytes(self.wait_retry);
        let m = le16_bytes(self.match_retry);
        let c = [self.idle_cycles, w[0], w[1], m[0], m[1]];
        let p = DapPacketBuf::new(DapCmdId::TransferConfigure.to_u8(), c.as_slice());
        assert(p@ =~= seq![0x04u8, self.idle_cycles] + le_bytes16(self.wait_retry) + le_bytes16(
            self.match_retry,
        ));
        Ok(p)
    }
}

#[derive(Clone, Copy, Debug, PartialEq, Eq, Structural)]
pub struct TransferConfigureResp {
    pub sts: DapResponseStatus,
}

impl View for TransferConfigureResp {
    type V = TransferConfigureResp;

    open spec fn view(&self) -> TransferConfigureResp {
        *self
    }
}

impl DapResponse for TransferConfigureResp {
    open spec fn decodable(pkt: Seq<u8>) -> bool {
        status_decodable(pkt)
    }

    open spec fn spec_decode(pkt: Seq<u8>) -> Result<TransferConfigureResp, DapCmdErr> {
        match spec_status_from_byte(pkt[1]) {
            Ok(sts) => Ok(TransferConfigureResp { sts }),
            Err(e) => Err(e),
        }
    }

    fn from_packet(pkt: &DapPacketBuf) -> (r: Result<Self, DapCmdErr>) {
        let sts = status_from_packet(pkt)?;
        Ok(TransferConfigureResp { sts })
    }
}

} // verus!

verus! {

/// The total size of a list of transfers in a transfer command.
pub open spec fn spec_xfers_size(xs: Seq<Transfer>) -> nat
    decreases xs.len(),
{
    if xs.len() == 0 {
        0
    } else {
        spec_xfers_size(xs.drop_last()) + spec_xfer_size(xs.last())
    }
}

/// The bytes of one transfer in a transfer command: its request byte, then
/// its data (little-endian) when it carries data.
pub open spec fn spec_xfer_bytes(t: Transfer) -> Seq<u8> {
    seq![t.req.0] + match t.data {
        Some(v) => le_bytes32(v),
        None => Seq::empty(),
    }
}

/// The bytes of a list of transfers, one after the other.
pub open spec fn spec_xfers_bytes(xs: Seq<Transfer>) -> Seq<u8>
    decreases xs.len(),
{
    if xs.len() == 0 {
        Seq::empty()
    } else {
        spec_xfers_bytes(xs.drop_last()) + spec_xfer_bytes(xs.last())
    }
}

pub proof fn lemma_xfers_bytes_len(xs: Seq<Transfer>)
    ensures
        spec_xfers_bytes(xs).len() == spec_xfers_size(xs),
    decreases xs.len(),
{
    if xs.len() > 0 {
        lemma_xfers_bytes_len(xs.drop_last());
    }
}

/// Each transfer takes at most five bytes.
pub proof fn lemma_xfers_size_bound(xs: Seq<Transfer>)
    ensures
        spec_xfers_size(xs) <= 5 * xs.len(),
    decreases xs.len(),
{
    if xs.len() > 0 {
        lemma_xfers_size_bound(xs.drop_last());
    }
}

proof fn lemma_xfers_size_prefix(xs: Seq<Transfer>, i: int)
    requires
        0 <= i <= xs.len(),
    ensures
        spec_xfers_size(xs.take(i)) <= spec_xfers_size(xs),
    decreases xs.len() - i,
{
    if i < xs.len() {
        lemma_xfers_size_prefix(xs, i + 1);
        assert(xs.take(i + 1).drop_last() =~= xs.take(i));
    } else {
        assert(xs.take(i) =~= xs);
    }
}

/// The size of the transfers in `xs`, exact when it is at most 62 and some
/// number above 62 otherwise.
fn xfers_size_capped(xs: &[Transfer]) -> (r: usize)
    ensures
        r <= 62 ==> r == spec_xfers_size(xs@),
        r > 62 ==> spec_xfers_size(xs@) > 62,
        r <= 67,
{
    let n = xs.len();
    let mut total: usize = 0;
    let mut i: usize = 0;
    while i < n
        invariant
            n == xs@.len(),
            i <= n,
            total == spec_xfers_size(xs@.take(i as int)),
            total <= 62,
        decreases n - i,
    {
        assert(xs@.take(i + 1).drop_last() =~= xs@.take(i as int));
        total = total + xs[i].size();
        i = i + 1;
        if total > 62 {
            proof {
                lemma_xfers_size_prefix(xs@, i as int);
            }
            return total;
        }
    }
    assert(xs@.take(n as int) =~= xs@);
    total
}

/// A transfer command: transfers to run on the DAP with index `dap_idx`.
pub struct TransferCmd {
    pub dap_idx: u8,
    pub xfers: Vec<Transfer>,
}

impl Clone for TransferCmd {
    fn clone(&self) -> (r: Self)
        ensures
            r.dap_idx == self.dap_idx,
            r.xfers@ == self.xfers@,
    {
        TransferCmd { dap_idx: self.dap_idx, xfers: vstd::slice::slice_to_vec(self.xfers.as_slice()) }
    }
}

impl DapCommand for TransferCmd {
    type Resp = TransferRespUnresolved;

    open spec fn spec_cmd_id() -> DapCmdId {
        DapCmdId::Transfer
    }

    fn cmd_id() -> (r: DapCmdId) {
        DapCmdId::Transfer
    }

    /// Every transfer command can be encoded or refused.
    open spec fn encodable(&self) -> bool {
        true
    }

    /// Refused when there is no transfer or the packet (ID, DAP index, count
    /// and transfers) would exceed `MAX_PKT_SZ`; otherwise the DAP index, the
    /// transfer count and the transfers.
    open spec fn spec_packet(&self) -> Result<Seq<u8>, DapCmdErr> {
        if self.xfers@.len() == 0 {
            Err(DapCmdErr::EmptyTransfer)
        } else if spec_xfers_size(self.xfers@) + 3 > 64 {
            Err(DapCmdErr::TransferTooLong)
        } else {
            Ok(seq![0x05u8, self.dap_idx, self.xfers@.len() as u8] + spec_xfers_bytes(self.xfers@))
        }
    }

    fn to_packet(&self) -> (r: Result<DapPacketBuf, DapCmdErr>) {
        let n = self.xfers.len();
        if n == 0 {
            return Err(DapCmdErr::EmptyTransfer);
        }
        let total = xfers_size_capped(self.xfers.as_slice());
        if total + 3 > 64 {
            return Err(DapCmdErr::TransferTooLong);
        }
        let mut buf: Vec<u8> = Vec::new();
        buf.push(self.dap_idx);
        buf.push(n as u8);
        let mut i: usize = 0;
        while i < n
            invariant
                n == self.xfers@.len(),
                i <= n,
                buf@ == seq![self.dap_idx, n as u8] + spec_xfers_bytes(self.xfers@.take(i as int)),
            decreases n - i,
        {
            let x = self.xfers[i];
            buf.push(x.req.0);
            match x.data {
                Some(val) => {
                    let b = le32_bytes(val);
                    buf.push(b[0]);
                    buf.push(b[1]);
                    buf.push(b[2]);
                    buf.push(b[3]);
                },
                None => {},
            }
            proof {
                let t = self.xfers@.take(i + 1);
                assert(t.drop_last() =~= self.xfers@.take(i as int));
                assert(buf@ =~= seq![self.dap_idx, n as u8] + spec_xfers_bytes(t));
            }
            i = i + 1;
        }
        proof {
            assert(self.xfers@.take(n as int) =~= self.xfers@);
            lemma_xfers_bytes_len(self.xfers@);
        }
        let p = DapPacketBuf::new(DapCmdId::Transfer.to_u8(), buf.as_slice());
        assert(p@ =~= seq![0x05u8, self.dap_idx, n as u8] + spec_xfers_bytes(self.xfers@));
        Ok(p)
    }
}

impl TransferCmd {
    /// A transfer command over a copy of `slice`; refused when the transfers
    /// need more than 62 bytes.
    pub fn new_from_slice(dap_idx: u8, slice: &[Transfer]) -> (r: Result<Self, DapCmdErr>)
        ensures
            spec_xfers_size(slice@) + 2 > 64 ==> r == Err::<Self, DapCmdErr>(
                DapCmdErr::TransferTooLong,
            ),
            spec_xfers_size(slice@) + 2 <= 64 ==> (r matches Ok(c) && c.dap_idx == dap_idx
                && c.xfers@ == slice@),
    {
        let total = xfers_size_capped(slice);
        if total + 2 > 64 {
            return Err(DapCmdErr::TransferTooLong);
        }
        let xfers = vstd::slice::slice_to_vec(slice);
        Ok(TransferCmd { dap_idx, xfers })
    }

    /// The number of transfers, as the one byte that a packet carries.
    pub fn xfer_cnt(&self) -> (r: u8)
        ensures
            r == self.xfers@.len() as u8,
    {
        self.xfers.len() as u8
    }

    pub fn get_xfer(&self, idx: usize) -> (r: Transfer)
        requires
            idx < self.xfers@.len(),
        ensures
            r == self.xfers@[idx as int],
    {
        self.xfers[idx]
    }
}

/// The result of filling in the data of read transfers from a response.
pub enum FillOutcome {
    /// The transfers with read data filled in, and the number of data bytes used.
    Filled(Seq<Transfer>, nat),
    /// A transfer whose request names no transfer kind.
    UnknownKind,
    /// A read transfer for which the response holds too few data bytes.
    Short,
}

/// Fills in the first `n` transfers of `xs` from the response data `d`: each
/// read, in order, takes the next four bytes (little-endian) as its data;
/// writes are kept as they are.
pub open spec fn spec_fill(xs: Seq<Transfer>, d: Seq<u8>, n: nat) -> FillOutcome
    decreases n,
{
    if n == 0 {
        FillOutcome::Filled(xs, 0)
    } else {
        match spec_fill(xs, d, (n - 1) as nat) {
            FillOutcome::Filled(ys, cur) => match spec_req_kind(xs[n - 1].req.0) {
                None => FillOutcome::UnknownKind,
                Some(TransferKind::Write) => FillOutcome::Filled(ys, cur),
                Some(TransferKind::WriteMatchMask) => FillOutcome::Filled(ys, cur),
                Some(_) => if cur + 4 > d.len() {
                    FillOutcome::Short
                } else {
                    FillOutcome::Filled(
                        ys.update(n - 1, Transfer { req: xs[n - 1].req, data: Some(le_value32_at(d, cur as int)) }),
                        cur + 4,
                    )
                },
            },
            other => other,
        }
    }
}

/// Once filling stops, it stops with the same outcome for every longer prefix.
proof fn lemma_fill_stops(xs: Seq<Transfer>, d: Seq<u8>, k: nat, n: nat)
    requires
        k <= n,
        !(spec_fill(xs, d, k) is Filled),
    ensures
        spec_fill(xs, d, n) == spec_fill(xs, d, k),
    decreases n - k,
{
    if k < n {
        lemma_fill_stops(xs, d, k, (n - 1) as nat);
    }
}

proof fn lemma_fill_shape(xs: Seq<Transfer>, d: Seq<u8>, n: nat)
    requires
        n <= xs.len(),
    ensures
        spec_fill(xs, d, n) matches FillOutcome::Filled(ys, cur) ==> (ys.len() == xs.len() && cur
            <= d.len() && forall|i: int| n <= i < xs.len() ==> ys[i] == xs[i]),
    decreases n,
{
    if n > 0 {
        lemma_fill_shape(xs, d, (n - 1) as nat);
    }
}

/// What resolving a transfer response packet `pkt` against the transfers
/// `xs` of its command gives: the response control byte and the transfers
/// with read data filled in, or the error.
pub open spec fn spec_resolve(pkt: Seq<u8>, xs: Seq<Transfer>) -> Result<(u8, Seq<Transfer>), XferErr> {
    if pkt[1] != xs.len() as u8 {
        Err(XferErr::ParseErr)
    } else if (pkt.len() - 3) % 4 != 0 {
        Err(XferErr::ParseErr)
    } else {
        match spec_fill(xs, pkt.subrange(3, pkt.len() as int), (xs.len() as u8) as nat) {
            FillOutcome::Filled(ys, _) => Ok((pkt[2], ys)),
            _ => Err(XferErr::ParseErr),
        }
    }
}

/// Resolving keeps one entry per transfer of the command.
pub proof fn lemma_resolve_len(pkt: Seq<u8>, xs: Seq<Transfer>)
    ensures
        spec_resolve(pkt, xs) matches Ok((_, ys)) ==> ys.len() == xs.len(),
{
    if pkt[1] == xs.len() as u8 {
        if xs.len() <= 255 {
            assert(xs.len() as u8 == xs.len());
        }
        lemma_fill_shape(xs, pkt.subrange(3, pkt.len() as int), (xs.len() as u8) as nat);
    }
}

proof fn lemma_fill_entries(xs: Seq<Transfer>, d: Seq<u8>, n: nat)
    requires
        n <= xs.len(),
    ensures
        spec_fill(xs, d, n) matches FillOutcome::Filled(ys, _) ==> forall|i: int|
            0 <= i < n ==> {
                &&& (#[trigger] ys[i]).req == xs[i].req
                &&& (spec_req_kind(xs[i].req.0) == Some(TransferKind::Write) || spec_req_kind(xs[i].req.0)
                    == Some(TransferKind::WriteMatchMask)) ==> ys[i] == xs[i]
                &&& (spec_req_kind(xs[i].req.0) == Some(TransferKind::Read) || spec_req_kind(xs[i].req.0)
                    == Some(TransferKind::ReadMatch)) ==> ys[i].data is Some
            },
    decreases n,
{
    if n > 0 {
        lemma_fill_entries(xs, d, (n - 1) as nat);
        lemma_fill_shape(xs, d, (n - 1) as nat);
    }
}

/// Resolving a response, for any number of transfers, keeps each transfer of
/// the command in its place with its request.
pub proof fn lemma_resolve_keeps_requests(pkt: Seq<u8>, xs: Seq<Transfer>)
    ensures
        spec_resolve(pkt, xs) matches Ok((_, ys)) ==> {
            &&& ys.len() == xs.len()
            &&& forall|i: int| 0 <= i < xs.len() ==> (#[trigger] ys[i]).req == xs[i].req
        },
{
    let n = (xs.len() as u8) as nat;
    if xs.len() <= 255 {
        assert(xs.len() as u8 == xs.len());
    }
    assert(n <= xs.len());
    let d = pkt.subrange(3, pkt.len() as int);
    lemma_resolve_len(pkt, xs);
    lemma_fill_entries(xs, d, n);
    lemma_fill_shape(xs, d, n);
}

/// Resolving a response keeps each transfer of the command in its place with
/// its request: writes come back as they were sent, and each read comes
/// back with data.
pub proof fn lemma_resolve_entries(pkt: Seq<u8>, xs: Seq<Transfer>)
    requires
        xs.len() <= 255,
    ensures
        spec_resolve(pkt, xs) matches Ok((_, ys)) ==> {
            &&& ys.len() == xs.len()
            &&& forall|i: int|
                0 <= i < xs.len() ==> {
                    &&& (#[trigger] ys[i]).req == xs[i].req
                    &&& (spec_req_kind(xs[i].req.0) == Some(TransferKind::Write) || spec_req_kind(
                        xs[i].req.0,
                    ) == Some(TransferKind::WriteMatchMask)) ==> ys[i] == xs[i]
                    &&& (spec_req_kind(xs[i].req.0) == Some(TransferKind::Read) || spec_req_kind(
                        xs[i].req.0,
                    ) == Some(TransferKind::ReadMatch)) ==> ys[i].data is Some
                }
        },
{
    assert(xs.len() as u8 == xs.len());
    lemma_resolve_len(pkt, xs);
    lemma_fill_entries(xs, pkt.subrange(3, pkt.len() as int), xs.len());
}

/// The response packets that can be resolved against `xs` without reading
/// past their end.
pub open spec fn spec_resolve_defined(pkt: Seq<u8>, xs: Seq<Transfer>) -> bool {
    &&& pkt.len() >= 2
    &&& pkt[1] == xs.len() as u8 ==> {
        &&& pkt.len() >= 3
        &&& (pkt.len() - 3) % 4 == 0 ==> !(spec_fill(
            xs,
            pkt.subrange(3, pkt.len() as int),
            (xs.len() as u8) as nat,
        ) is Short)
    }
}

/// Response to a transfer command, before it is matched with the command.
pub struct TransferRespUnresolved {
    pub pkt: DapPacketBuf,
}

impl View for TransferRespUnresolved {
    type V = Seq<u8>;

    open spec fn view(&self) -> Seq<u8> {
        self.pkt@
    }
}

impl DapResponse for TransferRespUnresolved {
    open spec fn decodable(pkt: Seq<u8>) -> bool {
        true
    }

    open spec fn spec_decode(pkt: Seq<u8>) -> Result<Seq<u8>, DapCmdErr> {
        Ok(pkt)
    }

    fn from_packet(pkt: &DapPacketBuf) -> (r: Result<Self, DapCmdErr>) {
        Ok(Self { pkt: *pkt })
    }
}

impl TransferRespUnresolved {
    /// The number of transfers that the probe reports.
    pub fn xfer_cnt(&self) -> (r: u8)
        requires
            self.pkt@.len() >= 2,
        ensures
            r == self.pkt@[1],
    {
        let c = self.pkt.content();
        c[0]
    }

    pub fn xfer_respctl(&self) -> (r: TransferRespCtl)
        requires
            self.pkt@.len() >= 3,
        ensures
            r.spec_bits() == self.pkt@[2],
    {
        let c = self.pkt.content();
        TransferRespCtl::new(c[1])
    }

    /// The data bytes of the response: the words read.
    pub fn xfer_data(&self) -> (r: &[u8])
        requires
            self.pkt@.len() >= 3,
        ensures
            r@ == self.pkt@.subrange(3, self.pkt@.len() as int),
    {
        let c = self.pkt.content();
        let r = vstd::slice::slice_subrange(c, 2, c.len());
        assert(r@ =~= self.pkt@.subrange(3, self.pkt@.len() as int));
        r
    }

    /// Whether resolving this response against `cmd` stays within the
    /// response's bytes (so that `resolve` may be called).
    pub fn can_resolve(&self, cmd: &TransferCmd) -> (r: bool)
        ensures
            r == spec_resolve_defined(self.pkt@, cmd.xfers@),
    {
        let plen = self.pkt.len();
        if plen < 2 {
            return false;
        }
        if self.xfer_cnt() != cmd.xfer_cnt() {
            return true;
        }
        if plen < 3 {
            return false;
        }
        let xfer_data = self.xfer_data();
        if xfer_data.len() % 4 != 0 {
            return true;
        }
        let ghost xs = cmd.xfers@;
        let ghost d = xfer_data@;
        let cnt = cmd.xfer_cnt() as usize;
        let ghost n = cnt as nat;
        proof {
            assert(cnt <= xs.len()) by {
                if xs.len() <= 255 {
                    assert(xs.len() as u8 == xs.len());
                }
            }
        }
        let mut cur: usize = 0;
        let mut idx: usize = 0;
        while idx < cnt
            invariant
                plen == self.pkt@.len(),
                plen <= 64,
                plen >= 3,
                d == self.pkt@.subrange(3, self.pkt@.len() as int),
                n == (xs.len() as u8) as nat,
                n == cnt,
                xs == cmd.xfers@,
                d == xfer_data@,
                self.pkt@[1] == xs.len() as u8,
                d.len() % 4 == 0,
                cnt <= xs.len(),
                idx <= cnt,
                spec_fill(xs, d, idx as nat) matches FillOutcome::Filled(_, c) && c == cur,
                cur <= d.len(),
            decreases cnt - idx,
        {
            let kind = cmd.xfers[idx].req.kind();
            match kind {
                Some(TransferKind::Write) | Some(TransferKind::WriteMatchMask) => {},
                Some(TransferKind::Read) | Some(TransferKind::ReadMatch) => {
                    if cur + 4 > xfer_data.len() {
                        proof {
                            assert(spec_fill(xs, d, (idx + 1) as nat) == FillOutcome::Short);
                            lemma_fill_stops(xs, d, (idx + 1) as nat, n);
                        }
                        return false;
                    }
                    cur = cur + 4;
                },
                None => {
                    proof {
                        assert(spec_fill(xs, d, (idx + 1) as nat) == FillOutcome::UnknownKind);
                        lemma_fill_stops(xs, d, (idx + 1) as nat, n);
                    }
                    return true;
                },
            }
            idx = idx + 1;
        }
        true
    }

    /// Use the given command to "resolve" this response: the response only
    /// holds the data of reads, so the command's transfers are copied and
    /// each read gets the next word of the response.
    pub fn resolve(&self, cmd: &TransferCmd) -> (r: Result<TransferResp, XferErr>)
        requires
            spec_resolve_defined(self.pkt@, cmd.xfers@),
        ensures
            match r {
                Ok(resp) => spec_resolve(self.pkt@, cmd.xfers@) == Ok::<(u8, Seq<Transfer>), XferErr>(
                    (resp.ctl.spec_bits(), resp.data@),
                ),
                Err(e) => spec_resolve(self.pkt@, cmd.xfers@) == Err::<(u8, Seq<Transfer>), XferErr>(e),
            },
    {
        if self.xfer_cnt() != cmd.xfer_cnt() {
            return Err(XferErr::ParseErr);
        }
        let xfer_cnt = self.xfer_cnt();
        let ctl = self.xfer_respctl();
        let xfer_data = self.xfer_data();
        if xfer_data.len() % 4 != 0 {
            return Err(XferErr::ParseErr);
        }
        let ghost xs = cmd.xfers@;
        let ghost d = xfer_data@;
        let ghost n = xfer_cnt as nat;
        let mut data = vstd::slice::slice_to_vec(cmd.xfers.as_slice());
        let mut cur: usize = 0;
        let cnt = xfer_cnt as usize;
        proof {
            assert(cnt <= xs.len()) by {
                assert(xs.len() as u8 == xfer_cnt);
                if xs.len() <= 255 {
                    assert(xs.len() as u8 == xs.len());
                }
            }
        }
        let plen = self.pkt.len();
        let mut idx: usize = 0;
        while idx < cnt
            invariant
                plen == self.pkt@.len(),
                plen <= 64,
                plen >= 3,
                d == self.pkt@.subrange(3, self.pkt@.len() as int),
                n == (xs.len() as u8) as nat,
                xs == cmd.xfers@,
                d == xfer_data@,
                n == cnt,
                cnt <= xs.len(),
                idx <= cnt,
                spec_fill(xs, d, n) !is Short,
                spec_fill(xs, d, idx as nat) == FillOutcome::Filled(data@, cur as nat),
                data@.len() == xs.len(),
                cur <= d.len(),
            decreases cnt - idx,
        {
            proof {
                lemma_fill_shape(xs, d, idx as nat);
            }
            let kind = data[idx].req.kind();
            assert(data@[idx as int] == xs[idx as int]);
            match kind {
                Some(TransferKind::Write) | Some(TransferKind::WriteMatchMask) => {},
                Some(TransferKind::Read) | Some(TransferKind::ReadMatch) => {
                    proof {
                        if cur + 4 > d.len() {
                            assert(spec_fill(xs, d, (idx + 1) as nat) == FillOutcome::Short);
                            lemma_fill_stops(xs, d, (idx + 1) as nat, n);
                            assert(false);
                        }
                    }
                    let val = le32_value_at(xfer_data, cur);
                    let t = Transfer { req: data[idx].req, data: Some(val) };
                    data.set(idx, t);
                    cur = cur + 4;
                },
                None => {
                    proof {
                        assert(spec_fill(xs, d, (idx + 1) as nat) == FillOutcome::UnknownKind);
                        lemma_fill_stops(xs, d, (idx + 1) as nat, n);
                        assert(d == self.pkt@.subrange(3, self.pkt@.len() as int));
                        assert(n == (xs.len() as u8) as nat);
                    }
                    return Err(XferErr::ParseErr);
                },
            }
            idx = idx + 1;
        }
        Ok(TransferResp { ctl, data })
    }
}

/// A response corresponding to some transfer command.
pub struct TransferResp {
    pub ctl: TransferRespCtl,
    pub data: Vec<Transfer>,
}

impl TransferResp {
    /// The data of the last transfer.
    pub fn last_result(&self) -> (r: Option<u32>)
        requires
            self.data@.len() > 0,
        ensures
            r == self.data@.last().data,
    {
        self.data[self.data.len() - 1].data
    }
}

/// Implemented on types that stand for one or more DAP transfers.
pub trait TransferSequence {
    /// The values that stand for transfers.
    spec fn seq_defined(&self) -> bool;

    /// The transfers this value stands for.
    spec fn spec_transfer_seq(&self) -> Seq<Transfer>;

    fn as_transfer_seq(&self) -> (r: Vec<Transfer>)
        requires
            self.seq_defined(),
        ensures
            r@ == self.spec_transfer_seq(),
    ;
}

/// Builds a list of transfers from a series of operations.
pub struct SequenceBuilder {
    xfers: Vec<Transfer>,
}

impl View for SequenceBuilder {
    type V = Seq<Transfer>;

    closed spec fn view(&self) -> Seq<Transfer> {
        self.xfers@
    }
}

impl SequenceBuilder {
    pub fn new() -> (r: Self)
        ensures
            r@ == Seq::<Transfer>::empty(),
    {
        Self { xfers: Vec::new() }
    }

    /// Appends the transfers of `op`.
    pub fn add<T: TransferSequence>(self, op: T) -> (r: Self)
        requires
            op.seq_defined(),
        ensures
            r@ == self@ + op.spec_transfer_seq(),
    {
        let mut xfers = self.xfers;
        let mut more = op.as_transfer_seq();
        xfers.append(&mut more);
        Self { xfers }
    }

    pub fn finish(self) -> (r: Vec<Transfer>)
        ensures
            r@ == self@,
    {
        self.xfers
    }
}

proof fn lemma_fill_reads(xs: Seq<Transfer>, d: Seq<u8>, n: nat)
    requires
        n <= xs.len(),
        forall|i: int| 0 <= i < n ==> spec_req_kind((#[trigger] xs[i]).req.0) == Some(TransferKind::Read),
    ensures
        spec_fill(xs, d, n) matches FillOutcome::Filled(ys, cur) ==> cur == 4 * n && forall|i: int|
            0 <= i < n ==> (#[trigger] ys[i]).data == Some(le_value32_at(d, 4 * i)),
    decreases n,
{
    if n > 0 {
        lemma_fill_reads(xs, d, (n - 1) as nat);
        lemma_fill_shape(xs, d, (n - 1) as nat);
        assert(spec_req_kind(xs[n - 1].req.0) == Some(TransferKind::Read));
    }
}

/// In the response to a command of plain reads, the i-th read gets the i-th
/// little-endian word of the response's data (which starts at byte 3).
pub proof fn lemma_resolve_reads_in_order(pkt: Seq<u8>, xs: Seq<Transfer>)
    requires
        xs.len() <= 255,
        forall|i: int| 0 <= i < xs.len() ==> spec_req_kind((#[trigger] xs[i]).req.0) == Some(TransferKind::Read),
    ensures
        spec_resolve(pkt, xs) matches Ok((_, ys)) ==> forall|i: int|
            0 <= i < xs.len() ==> (#[trigger] ys[i]).data == Some(
                le_value32_at(pkt.subrange(3, pkt.len() as int), 4 * i),
            ),
{
    assert(xs.len() as u8 == xs.len());
    lemma_fill_reads(xs, pkt.subrange(3, pkt.len() as int), xs.len());
}

} // verus!
