//! SWD commands: configure and sequence.

use vstd::prelude::*;
use crate::packet::{
    DapCmdErr, DapCmdId, DapCommand, DapPacketBuf, DapResponse, DapResponseStatus,
    spec_status_from_byte, status_decodable, status_from_packet,
};

verus! {

/// SWD sequencing mode.
#[derive(Clone, Copy, Debug, PartialEq, Eq, Structural)]
pub enum SwdSeqMode {
    /// Bits are being driven over SWDIO
    Output,
    /// Bits are being received over SWDIO
    Input,
}

/// SWD sequence information: clock cycles (bits 0..5, 0 meaning 64) and the
/// SWDIO mode (bit 7); bit 6 is always clear.
#[derive(Clone, Copy, Debug, PartialEq, Eq, Structural)]
pub struct SwdSeqInfo(u8);

/// The mode that an info byte encodes.
pub open spec fn spec_seq_mode(b: u8) -> SwdSeqMode {
    if b & 0x80 != 0 {
        SwdSeqMode::Input
    } else {
        SwdSeqMode::Output
    }
}

/// The number of clock cycles that an info byte encodes.
pub open spec fn spec_seq_cycles(b: u8) -> usize {
    if b & 0x3f == 0 {
        64
    } else {
        (b & 0x3f) as usize
    }
}

/// The info byte for `cycles` clock cycles (1 to 64) in mode `mode`.
pub open spec fn spec_seq_info_byte(cycles: usize, mode: SwdSeqMode) -> u8 {
    let mde: u8 = match mode {
        SwdSeqMode::Output => 0x00,
        SwdSeqMode::Input => 0x80,
    };
    mde | ((cycles as u8) & 0x3f)
}

impl SwdSeqInfo {
    pub const CYCLE_MASK: u8 = 0b0011_1111;

    pub closed spec fn spec_bits(&self) -> u8 {
        self.0
    }

    #[verifier::type_invariant]
    closed spec fn inv(&self) -> bool {
        self.0 & 0x40 == 0
    }

    /// Sequence information for `cycles` clock cycles; refused unless
    /// `1 <= cycles <= 64`.
    pub fn new(cycles: usize, mode: SwdSeqMode) -> (r: Result<Self, DapCmdErr>)
        ensures
            !(1 <= cycles <= 64) ==> r == Err::<Self, DapCmdErr>(DapCmdErr::CycleCountOutOfRange),
            1 <= cycles <= 64 ==> (r matches Ok(i) && i.spec_bits() == spec_seq_info_byte(
                cycles,
                mode,
            )),
    {
        if !(1 <= cycles && cycles <= 64) {
            return Err(DapCmdErr::CycleCountOutOfRange);
        }
        let cyc = (cycles as u8) & Self::CYCLE_MASK;
        let mde: u8 = match mode {
            SwdSeqMode::Output => 0x00,
            SwdSeqMode::Input => 0x80,
        };
        proof {
            lemma_seq_info_bit6_clear(cycles, mode);
        }
        Ok(Self(mde | cyc))
    }

    pub fn cycles(&self) -> (r: usize)
        ensures
            r == spec_seq_cycles(self.spec_bits()),
    {
        let res = self.0 & Self::CYCLE_MASK;
        if res == 0 {
            64
        } else {
            res as usize
        }
    }

    pub fn mode(&self) -> (r: SwdSeqMode)
        ensures
            r == spec_seq_mode(self.spec_bits()),
    {
        if self.0 & 0b1000_0000 != 0 {
            SwdSeqMode::Input
        } else {
            SwdSeqMode::Output
        }
    }

    pub fn bits(&self) -> (r: u8)
        ensures
            r == self.spec_bits(),
            r & 0x40 == 0,
    {
        proof {
            use_type_invariant(self);
        }
        self.0
    }
}

/// Bit 6 of an info byte is never set.
pub proof fn lemma_seq_info_bit6_clear(cycles: usize, mode: SwdSeqMode)
    ensures
        spec_seq_info_byte(cycles, mode) & 0x40 == 0,
{
    let c = cycles as u8;
    assert((0x00u8 | (c & 0x3f)) & 0x40 == 0 && (0x80u8 | (c & 0x3f)) & 0x40 == 0) by (bit_vector);
}

/// The cycle count and mode that go into sequence information come back out
/// of it.
pub proof fn lemma_seq_info_roundtrip(cycles: usize, mode: SwdSeqMode)
    requires
        1 <= cycles <= 64,
    ensures
        spec_seq_cycles(spec_seq_info_byte(cycles, mode)) == cycles,
        spec_seq_mode(spec_seq_info_byte(cycles, mode)) == mode,
{
    let c = cycles as u8;
    assert(1 <= c <= 64);
    assert(((0x00u8 | (c & 0x3f)) & 0x3f == 0 <==> c == 64) && ((0x00u8 | (c & 0x3f)) & 0x3f
        == 0 || (0x00u8 | (c & 0x3f)) & 0x3f == c) && (0x00u8 | (c & 0x3f)) & 0x80 == 0 && ((
    0x80u8 | (c & 0x3f)) & 0x3f == 0 <==> c == 64) && ((0x80u8 | (c & 0x3f)) & 0x3f == 0 || (
    0x80u8 | (c & 0x3f)) & 0x3f == c) && (0x80u8 | (c & 0x3f)) & 0x80 != 0) by (bit_vector)
        requires
            1 <= c <= 64,
    ;
}

/// Describes an SWD sequence: its info byte and its SWDIO data.
#[derive(Clone, Copy, Debug, PartialEq, Eq, Structural)]
pub struct SwdSeq {
    /// SWCLK cycles and SWDIO mode
    info: SwdSeqInfo,
    /// SWDIO data
    data: u8,
}

impl SwdSeq {
    /// The two bytes of this sequence in a sequence command.
    pub closed spec fn spec_bytes(&self) -> Seq<u8> {
        seq![self.info.spec_bits(), self.data]
    }

    pub fn as_bytes(&self) -> (r: [u8; 2])
        ensures
            r@ == self.spec_bytes(),
    {
        let r = [self.info.bits(), self.data];
        assert(r@ =~= self.spec_bytes());
        r
    }
}

/// SWD configuration: turnaround period (bits 0..1) and data phase (bit 2).
#[derive(Clone, Copy, Debug, PartialEq, Eq, Structural)]
pub struct SwdConfigurationBits(u8);

impl SwdConfigurationBits {
    pub const TURNAROUND_1CYC: u8 = 0b00;
    pub const TURNAROUND_2CYC: u8 = 0b01;
    pub const TURNAROUND_3CYC: u8 = 0b10;
    pub const TURNAROUND_4CYC: u8 = 0b11;
    pub const DATA_PHASE: u8 = 0b01 << 2;

    pub closed spec fn spec_bits(&self) -> u8 {
        self.0
    }

    /// Configuration bits holding exactly `bits`, unknown bits included.
    pub fn from_bits_retain(bits: u8) -> (r: Self)
        ensures
            r.spec_bits() == bits,
    {
        Self(bits)
    }

    pub fn bits(&self) -> (r: u8)
        ensures
            r == self.spec_bits(),
    {
        self.0
    }
}

/// DAP "SWD configure" command.
pub struct SwdConfigureCmd {
    pub cfg: SwdConfigurationBits,
}

impl DapCommand for SwdConfigureCmd {
    type Resp = SwdConfigureResp;

    open spec fn spec_cmd_id() -> DapCmdId {
        DapCmdId::SwdConfigure
    }

    fn cmd_id() -> (r: DapCmdId) {
        DapCmdId::SwdConfigure
    }

    open spec fn encodable(&self) -> bool {
        true
    }

    open spec fn spec_packet(&self) -> Result<Seq<u8>, DapCmdErr> {
        Ok(seq![0x13u8, self.cfg.spec_bits()])
    }

    fn to_packet(&self) -> (r: Result<DapPacketBuf, DapCmdErr>) {
        let c = [self.cfg.bits()];
        let p = DapPacketBuf::new(DapCmdId::SwdConfigure.to_u8(), c.as_slice());
        assert(p@ =~= seq![0x13u8, self.cfg.spec_bits()]);
        Ok(p)
    }
}

#[derive(Clone, Copy, Debug, PartialEq, Eq, Structural)]
pub struct SwdConfigureResp {
    pub sts: DapResponseStatus,
}

impl View for SwdConfigureResp {
    type V = SwdConfigureResp;

    open spec fn view(&self) -> SwdConfigureResp {
        *self
    }
}

impl DapResponse for SwdConfigureResp {
    open spec fn decodable(pkt: Seq<u8>) -> bool {
        status_decodable(pkt)
    }

    open spec fn spec_decode(pkt: Seq<u8>) -> Result<SwdConfigureResp, DapCmdErr> {
        match spec_status_from_byte(pkt[1]) {
            Ok(sts) => Ok(SwdConfigureResp { sts }),
            Err(e) => Err(e),
        }
    }

    fn from_packet(pkt: &DapPacketBuf) -> (r: Result<Self, DapCmdErr>) {
        let sts = status_from_packet(pkt)?;
        Ok(SwdConfigureResp { sts })
    }
}

/// The bytes of a list of SWD sequences, each as its info byte and data byte.
pub open spec fn swd_seq_bytes(seqs: Seq<SwdSeq>) -> Seq<u8>
    decreases seqs.len(),
{
    if seqs.len() == 0 {
        Seq::empty()
    } else {
        swd_seq_bytes(seqs.drop_last()) + seqs.last().spec_bytes()
    }
}

proof fn lemma_swd_seq_bytes_len(seqs: Seq<SwdSeq>)
    ensures
        swd_seq_bytes(seqs).len() == 2 * seqs.len(),
    decreases seqs.len(),
{
    if seqs.len() > 0 {
        lemma_swd_seq_bytes_len(seqs.drop_last());
    }
}

/// DAP "SWD sequence" command.
pub struct SwdSequenceCmd {
    seq_cnt: usize,
    seq_data: Vec<SwdSeq>,
}

impl SwdSequenceCmd {
    pub const MAX_CNT: usize = 31;

    pub closed spec fn spec_seq_cnt(&self) -> usize {
        self.seq_cnt
    }

    pub closed spec fn spec_seq_data(&self) -> Seq<SwdSeq> {
        self.seq_data@
    }
}

impl DapCommand for SwdSequenceCmd {
    type Resp = SwdSequenceResp;

    open spec fn spec_cmd_id() -> DapCmdId {
        DapCmdId::SwdSequence
    }

    fn cmd_id() -> (r: DapCmdId) {
        DapCmdId::SwdSequence
    }

    /// The sequences of a command whose count is accepted fit in one packet.
    open spec fn encodable(&self) -> bool {
        1 <= self.spec_seq_cnt() <= Self::MAX_CNT ==> self.spec_seq_data().len() <= Self::MAX_CNT
    }

    open spec fn spec_packet(&self) -> Result<Seq<u8>, DapCmdErr> {
        if self.spec_seq_cnt() == 0 {
            Err(DapCmdErr::EmptySequence)
        } else if self.spec_seq_cnt() > Self::MAX_CNT {
            Err(DapCmdErr::SequenceTooLong)
        } else {
            Ok(seq![0x1du8, self.spec_seq_cnt() as u8] + swd_seq_bytes(self.spec_seq_data()))
        }
    }

    fn to_packet(&self) -> (r: Result<DapPacketBuf, DapCmdErr>) {
        if self.seq_cnt == 0 {
            return Err(DapCmdErr::EmptySequence);
        }
        if self.seq_cnt > Self::MAX_CNT {
            return Err(DapCmdErr::SequenceTooLong);
        }
        let cnt = self.seq_cnt as u8;
        let mut buf: Vec<u8> = Vec::new();
        buf.push(cnt);
        let n = self.seq_data.len();
        let mut i: usize = 0;
        while i < n
            invariant
                n == self.seq_data@.len(),
                n <= 31,
                i <= n,
                buf@ == seq![cnt] + swd_seq_bytes(self.seq_data@.take(i as int)),
            decreases n - i,
        {
            let b = self.seq_data[i].as_bytes();
            buf.push(b[0]);
            buf.push(b[1]);
            proof {
                let s = self.seq_data@.take(i + 1);
                assert(s.drop_last() =~= self.seq_data@.take(i as int));
                assert(buf@ =~= seq![cnt] + swd_seq_bytes(s));
            }
            i = i + 1;
        }
        proof {
            assert(self.seq_data@.take(n as int) =~= self.seq_data@);
            lemma_swd_seq_bytes_len(self.seq_data@);
        }
        let p = DapPacketBuf::new(DapCmdId::SwdSequence.to_u8(), buf.as_slice());
        assert(p@ =~= seq![0x1du8, cnt] + swd_seq_bytes(self.seq_data@));
        Ok(p)
    }
}

/// Response to an SWD sequence command: status and captured SWDIO data.
pub struct SwdSequenceResp {
    sts: DapResponseStatus,
    data: Vec<u8>,
}

impl View for SwdSequenceResp {
    type V = (DapResponseStatus, Seq<u8>);

    closed spec fn view(&self) -> (DapResponseStatus, Seq<u8>) {
        (self.sts, self.data@)
    }
}

impl DapResponse for SwdSequenceResp {
    open spec fn decodable(pkt: Seq<u8>) -> bool {
        pkt.len() >= 2
    }

    open spec fn spec_decode(pkt: Seq<u8>) -> Result<(DapResponseStatus, Seq<u8>), DapCmdErr> {
        match spec_status_from_byte(pkt[1]) {
            Ok(sts) => Ok((sts, pkt.subrange(2, pkt.len() as int))),
            Err(e) => Err(e),
        }
    }

    fn from_packet(pkt: &DapPacketBuf) -> (r: Result<Self, DapCmdErr>) {
        let c = pkt.content();
        let sts = DapResponseStatus::try_from_primitive(c[0])?;
        let data = vstd::slice::slice_to_vec(vstd::slice::slice_subrange(c, 1, c.len()));
        let r = SwdSequenceResp { sts, data };
        assert(r@.1 =~= pkt@.subrange(2, pkt@.len() as int));
        Ok(r)
    }
}

} // verus!
