//! Commands common to SWD and JTAG: pins, clock and sequence.

use vstd::prelude::*;
use crate::bits::{le_bytes32, le32_bytes};
use crate::packet::{
    DapCmdErr, DapCmdId, DapCommand, DapPacketBuf, DapResponse, DapResponseStatus,
    spec_status_from_byte, status_decodable, status_from_packet,
};

verus! {

/// SWD/JTAG pin bits.
#[derive(Clone, Copy, Debug, PartialEq, Eq, Structural)]
pub struct SwjPinBits(pub u8);

#[allow(non_upper_case_globals)]
impl SwjPinBits {
    pub const SWCLK_TCK: u8 = 1 << 0;
    pub const SWDIO_TMS: u8 = 1 << 1;
    pub const TDI: u8 = 1 << 2;
    pub const TDO: u8 = 1 << 3;
    pub const _UNK4: u8 = 1 << 4;
    pub const nRTST: u8 = 1 << 5;
    pub const _UNK6: u8 = 1 << 6;
    pub const nRESET: u8 = 1 << 7;

    /// Pin bits holding exactly `bits`.
    pub fn from_bits_retain(bits: u8) -> (r: Self)
        ensures
            r.0 == bits,
    {
        SwjPinBits(bits)
    }

    pub fn bits(&self) -> (r: u8)
        ensures
            r == self.0,
    {
        self.0
    }
}

/// DAP "SWD/JTAG pins" command.
pub struct SwjPinsCmd {
    pub pin_out: SwjPinBits,
    pub pin_sel: SwjPinBits,
    pub pin_wait: u32,
}

impl DapCommand for SwjPinsCmd {
    type Resp = SwjPinsResp;

    open spec fn spec_cmd_id() -> DapCmdId {
        DapCmdId::SwjPins
    }

    fn cmd_id() -> (r: DapCmdId) {
        DapCmdId::SwjPins
    }

    open spec fn encodable(&self) -> bool {
        true
    }

    open spec fn spec_packet(&self) -> Result<Seq<u8>, DapCmdErr> {
        Ok(seq![0x10u8, self.pin_out.0, self.pin_sel.0] + le_bytes32(self.pin_wait))
    }

    fn to_packet(&self) -> (r: Result<DapPacketBuf, DapCmdErr>) {
        let w = le32_bytes(self.pin_wait);
        let c = [self.pin_out.bits(), self.pin_sel.bits(), w[0], w[1], w[2], w[3]];
        let p = DapPacketBuf::new(DapCmdId::SwjPins.to_u8(), c.as_slice());
        assert(p@ =~= seq![0x10u8, self.pin_out.0, self.pin_sel.0] + le_bytes32(self.pin_wait));
        Ok(p)
    }
}

#[derive(Clone, Copy, Debug, PartialEq, Eq, Structural)]
pub struct SwjPinsResp {
    pub pin_inp: SwjPinBits,
}

impl View for SwjPinsResp {
    type V = SwjPinsResp;

    open spec fn view(&self) -> SwjPinsResp {
        *self
    }
}

impl DapResponse for SwjPinsResp {
    open spec fn decodable(pkt: Seq<u8>) -> bool {
        pkt.len() == 2
    }

    open spec fn spec_decode(pkt: Seq<u8>) -> Result<SwjPinsResp, DapCmdErr> {
        Ok(SwjPinsResp { pin_inp: SwjPinBits(pkt[1]) })
    }

    fn from_packet(pkt: &DapPacketBuf) -> (r: Result<Self, DapCmdErr>) {
        let c = pkt.content();
        Ok(SwjPinsResp { pin_inp: SwjPinBits::from_bits_retain(c[0]) })
    }
}

/// DAP "SWD/JTAG clock" command.
pub struct SwjClockCmd {
    /// In hertz
    pub clock: u32,
}

impl DapCommand for SwjClockCmd {
    type Resp = SwjClockResp;

    open spec fn spec_cmd_id() -> DapCmdId {
        DapCmdId::SwjClock
    }

    fn cmd_id() -> (r: DapCmdId) {
        DapCmdId::SwjClock
    }

    open spec fn encodable(&self) -> bool {
        true
    }

    open spec fn spec_packet(&self) -> Result<Seq<u8>, DapCmdErr> {
        Ok(seq![0x11u8] + le_bytes32(self.clock))
    }

    fn to_packet(&self) -> (r: Result<DapPacketBuf, DapCmdErr>) {
        let w = le32_bytes(self.clock);
        let p = DapPacketBuf::new(DapCmdId::SwjClock.to_u8(), w.as_slice());
        assert(p@ =~= seq![0x11u8] + le_bytes32(self.clock));
        Ok(p)
    }
}

#[derive(Clone, Copy, Debug, PartialEq, Eq, Structural)]
pub struct SwjClockResp {
    pub sts: DapResponseStatus,
}

impl View for SwjClockResp {
    type V = SwjClockResp;

    open spec fn view(&self) -> SwjClockResp {
        *self
    }
}

impl DapResponse for SwjClockResp {
    open spec fn decodable(pkt: Seq<u8>) -> bool {
        status_decodable(pkt)
    }

    open spec fn spec_decode(pkt: Seq<u8>) -> Result<SwjClockResp, DapCmdErr> {
        match spec_status_from_byte(pkt[1]) {
            Ok(sts) => Ok(SwjClockResp { sts }),
            Err(e) => Err(e),
        }
    }

    fn from_packet(pkt: &DapPacketBuf) -> (r: Result<Self, DapCmdErr>) {
        let sts = status_from_packet(pkt)?;
        Ok(SwjClockResp { sts })
    }
}

/// DAP "SWD/JTAG sequence" command.
pub struct SwjSequenceCmd {
    pub seq_bitcnt: u8,
    pub seq_bitdata: Vec<u8>,
}

impl DapCommand for SwjSequenceCmd {
    type Resp = SwjSequenceResp;

    open spec fn spec_cmd_id() -> DapCmdId {
        DapCmdId::SwjSequence
    }

    fn cmd_id() -> (r: DapCmdId) {
        DapCmdId::SwjSequence
    }

    /// The bit data fits in one packet beside the ID and count bytes.
    open spec fn encodable(&self) -> bool {
        self.seq_bitdata@.len() <= 62
    }

    open spec fn spec_packet(&self) -> Result<Seq<u8>, DapCmdErr> {
        Ok(seq![0x12u8, self.seq_bitcnt] + self.seq_bitdata@)
    }

    fn to_packet(&self) -> (r: Result<DapPacketBuf, DapCmdErr>) {
        let mut buf: Vec<u8> = Vec::new();
        buf.push(self.seq_bitcnt);
        let n = self.seq_bitdata.len();
        let mut i: usize = 0;
        while i < n
            invariant
                n == self.seq_bitdata@.len(),
                i <= n,
                buf@ == seq![self.seq_bitcnt] + self.seq_bitdata@.take(i as int),
            decreases n - i,
        {
            buf.push(self.seq_bitdata[i]);
            assert(buf@ =~= seq![self.seq_bitcnt] + self.seq_bitdata@.take(i + 1));
            i = i + 1;
        }
        assert(self.seq_bitdata@.take(n as int) =~= self.seq_bitdata@);
        let p = DapPacketBuf::new(DapCmdId::SwjSequence.to_u8(), buf.as_slice());
        assert(p@ =~= seq![0x12u8, self.seq_bitcnt] + self.seq_bitdata@);
        Ok(p)
    }
}

#[derive(Clone, Copy, Debug, PartialEq, Eq, Structural)]
pub struct SwjSequenceResp {
    pub sts: DapResponseStatus,
}

impl View for SwjSequenceResp {
    type V = SwjSequenceResp;

    open spec fn view(&self) -> SwjSequenceResp {
        *self
    }
}

impl DapResponse for SwjSequenceResp {
    open spec fn decodable(pkt: Seq<u8>) -> bool {
        status_decodable(pkt)
    }

    open spec fn spec_decode(pkt: Seq<u8>) -> Result<SwjSequenceResp, DapCmdErr> {
        match spec_status_from_byte(pkt[1]) {
            Ok(sts) => Ok(SwjSequenceResp { sts }),
            Err(e) => Err(e),
        }
    }

    fn from_packet(pkt: &DapPacketBuf) -> (r: Result<Self, DapCmdErr>) {
        let sts = status_from_packet(pkt)?;
        Ok(SwjSequenceResp { sts })
    }
}

} // verus!
