//! CMSIS-DAP packets: the command ID byte and the packet buffer.

use vstd::prelude::*;

verus! {

/// The maximum size of a CMSIS-DAPv2 packet (in bytes).
pub const MAX_PKT_SZ: usize = 64;

/// The maximum size of CMSIS-DAPv2 packet contents (in bytes).
pub const MAX_DAT_SZ: usize = 63;

/// Errors of the command layer: packets that cannot be built or read.
#[derive(Clone, Copy, Debug, PartialEq, Eq, Structural)]
pub enum DapCmdErr {
    /// A packet must hold at least its command ID byte.
    PacketTooShort,
    /// A packet holds at most `MAX_PKT_SZ` bytes.
    PacketTooLong,
    /// A byte that names no value of the expected kind.
    InvalidValue(u8),
    /// An SWD sequence command needs at least one sequence.
    EmptySequence,
    /// An SWD sequence command holds at most `SwdSequenceCmd::MAX_CNT` sequences.
    SequenceTooLong,
    /// A transfer command needs at least one transfer.
    EmptyTransfer,
    /// The transfers of a command would not fit in one packet.
    TransferTooLong,
    /// An SWD sequence lasts between 1 and 64 clock cycles.
    CycleCountOutOfRange,
}

/// 8-bit DAP command ID.
#[derive(Clone, Copy, Debug, PartialEq, Eq, Structural)]
pub enum DapCmdId {
    // General Commands
    Info,
    HostStatus,
    Connect,
    Disconnect,
    TransferConfigure,
    Transfer,
    WriteAbort,
    Delay,
    ResetTarget,
    // Common SWD/JTAG Commands
    SwjPins,
    SwjClock,
    SwjSequence,
    // SWD Commands
    SwdConfigure,
    SwdSequence,
    /// Any other ID byte.
    Undef(u8),
}

/// The command ID that a byte names; a byte that names none is kept in `Undef`.
pub open spec fn spec_cmd_id_from_byte(b: u8) -> DapCmdId {
    if b == 0x00 {
        DapCmdId::Info
    } else if b == 0x01 {
        DapCmdId::HostStatus
    } else if b == 0x02 {
        DapCmdId::Connect
    } else if b == 0x03 {
        DapCmdId::Disconnect
    } else if b == 0x04 {
        DapCmdId::TransferConfigure
    } else if b == 0x05 {
        DapCmdId::Transfer
    } else if b == 0x08 {
        DapCmdId::WriteAbort
    } else if b == 0x09 {
        DapCmdId::Delay
    } else if b == 0x0a {
        DapCmdId::ResetTarget
    } else if b == 0x10 {
        DapCmdId::SwjPins
    } else if b == 0x11 {
        DapCmdId::SwjClock
    } else if b == 0x12 {
        DapCmdId::SwjSequence
    } else if b == 0x13 {
        DapCmdId::SwdConfigure
    } else if b == 0x1d {
        DapCmdId::SwdSequence
    } else {
        DapCmdId::Undef(b)
    }
}

/// The byte of a command ID.
pub open spec fn spec_cmd_id_byte(id: DapCmdId) -> u8 {
    match id {
        DapCmdId::Info => 0x00,
        DapCmdId::HostStatus => 0x01,
        DapCmdId::Connect => 0x02,
        DapCmdId::Disconnect => 0x03,
        DapCmdId::TransferConfigure => 0x04,
        DapCmdId::Transfer => 0x05,
        DapCmdId::WriteAbort => 0x08,
        DapCmdId::Delay => 0x09,
        DapCmdId::ResetTarget => 0x0a,
        DapCmdId::SwjPins => 0x10,
        DapCmdId::SwjClock => 0x11,
        DapCmdId::SwjSequence => 0x12,
        DapCmdId::SwdConfigure => 0x13,
        DapCmdId::SwdSequence => 0x1d,
        DapCmdId::Undef(b) => b,
    }
}

impl DapCmdId {
    /// The command ID that the byte `b` names (`Undef(b)` if it names none).
    pub fn from_primitive(b: u8) -> (r: DapCmdId)
        ensures
            r == spec_cmd_id_from_byte(b),
    {
        match b {
            0x00 => DapCmdId::Info,
            0x01 => DapCmdId::HostStatus,
            0x02 => DapCmdId::Connect,
            0x03 => DapCmdId::Disconnect,
            0x04 => DapCmdId::TransferConfigure,
            0x05 => DapCmdId::Transfer,
            0x08 => DapCmdId::WriteAbort,
            0x09 => DapCmdId::Delay,
            0x0a => DapCmdId::ResetTarget,
            0x10 => DapCmdId::SwjPins,
            0x11 => DapCmdId::SwjClock,
            0x12 => DapCmdId::SwjSequence,
            0x13 => DapCmdId::SwdConfigure,
            0x1d => DapCmdId::SwdSequence,
            _ => DapCmdId::Undef(b),
        }
    }

    /// The byte of this command ID.
    pub fn to_u8(self) -> (r: u8)
        ensures
            r == spec_cmd_id_byte(self),
    {
        match self {
            DapCmdId::Info => 0x00,
            DapCmdId::HostStatus => 0x01,
            DapCmdId::Connect => 0x02,
            DapCmdId::Disconnect => 0x03,
            DapCmdId::TransferConfigure => 0x04,
            DapCmdId::Transfer => 0x05,
            DapCmdId::WriteAbort => 0x08,
            DapCmdId::Delay => 0x09,
            DapCmdId::ResetTarget => 0x0a,
            DapCmdId::SwjPins => 0x10,
            DapCmdId::SwjClock => 0x11,
            DapCmdId::SwjSequence => 0x12,
            DapCmdId::SwdConfigure => 0x13,
            DapCmdId::SwdSequence => 0x1d,
            DapCmdId::Undef(b) => b,
        }
    }
}

/// Reading any byte as a command ID and writing the ID back gives the byte.
pub proof fn lemma_cmd_id_byte_roundtrip(b: u8)
    ensures
        spec_cmd_id_byte(spec_cmd_id_from_byte(b)) == b,
{
}

/// Status byte of a CMSIS-DAP response.
#[derive(Clone, Copy, Debug, PartialEq, Eq, Structural)]
pub enum DapResponseStatus {
    DapOk,
    DapErr,
}

/// The status a byte names, or the error for a byte that names none.
pub open spec fn spec_status_from_byte(b: u8) -> Result<DapResponseStatus, DapCmdErr> {
    if b == 0x00 {
        Ok(DapResponseStatus::DapOk)
    } else if b == 0xff {
        Ok(DapResponseStatus::DapErr)
    } else {
        Err(DapCmdErr::InvalidValue(b))
    }
}

pub open spec fn spec_status_byte(s: DapResponseStatus) -> u8 {
    match s {
        DapResponseStatus::DapOk => 0x00,
        DapResponseStatus::DapErr => 0xff,
    }
}

impl DapResponseStatus {
    /// The status that `b` names; any byte but `0x00` and `0xff` is refused.
    pub fn try_from_primitive(b: u8) -> (r: Result<DapResponseStatus, DapCmdErr>)
        ensures
            r == spec_status_from_byte(b),
    {
        if b == 0x00 {
            Ok(DapResponseStatus::DapOk)
        } else if b == 0xff {
            Ok(DapResponseStatus::DapErr)
        } else {
            Err(DapCmdErr::InvalidValue(b))
        }
    }

    pub fn to_u8(self) -> (r: u8)
        ensures
            r == spec_status_byte(self),
    {
        match self {
            DapResponseStatus::DapOk => 0x00,
            DapResponseStatus::DapErr => 0xff,
        }
    }
}

/// A CMSIS-DAPv2 packet: a command ID byte followed by its content.
#[derive(Clone, Copy)]
pub struct DapPacketBuf {
    data: [u8; 64],
    len: usize,
}

impl View for DapPacketBuf {
    type V = Seq<u8>;

    /// The bytes of the packet (ID byte, then content).
    closed spec fn view(&self) -> Seq<u8> {
        self.data@.subrange(0, self.len as int)
    }
}

impl DapPacketBuf {
    #[verifier::type_invariant]
    closed spec fn inv(&self) -> bool {
        self.len <= MAX_PKT_SZ
    }

    /// The first byte of the buffer: the command ID, or 0 for an empty packet.
    pub closed spec fn spec_id(&self) -> u8 {
        self.data@[0]
    }

    /// The content of the packet: every byte after the command ID.
    pub open spec fn spec_content(&self) -> Seq<u8> {
        self@.subrange(1, self@.len() as int)
    }

    /// A packet of `len` zero bytes.
    pub fn new_empty(len: usize) -> (r: Self)
        requires
            len <= MAX_PKT_SZ,
        ensures
            r@ == Seq::new(len as nat, |i: int| 0u8),
            r.spec_id() == 0,
    {
        let r = Self { data: [0u8; 64], len };
        assert(r@ =~= Seq::new(len as nat, |i: int| 0u8));
        r
    }

    /// A packet with command ID `cmd` and the given content.
    pub fn new(cmd: u8, content: &[u8]) -> (r: Self)
        requires
            content@.len() + 1 <= MAX_PKT_SZ,
        ensures
            r@ == seq![cmd] + content@,
            r.spec_id() == cmd,
    {
        let mut data = [0u8; 64];
        data[0] = cmd;
        let n = content.len();
        let mut i: usize = 0;
        while i < n
            invariant
                n == content@.len(),
                n + 1 <= 64,
                i <= n,
                data@.len() == 64,
                data@[0] == cmd,
                forall|j: int| 0 <= j < i ==> data@[j + 1] == content@[j],
            decreases n - i,
        {
            data[i + 1] = content[i];
            i = i + 1;
        }
        let r = Self { data, len: n + 1 };
        assert(r@ =~= seq![cmd] + content@);
        r
    }

    /// A packet holding exactly the bytes of `slice`; refused when `slice` is
    /// empty or longer than `MAX_PKT_SZ`.
    pub fn new_from_slice(slice: &[u8]) -> (r: Result<Self, DapCmdErr>)
        ensures
            slice@.len() < 1 ==> r == Err::<Self, DapCmdErr>(DapCmdErr::PacketTooShort),
            slice@.len() > MAX_PKT_SZ ==> r == Err::<Self, DapCmdErr>(DapCmdErr::PacketTooLong),
            1 <= slice@.len() <= MAX_PKT_SZ ==> (r matches Ok(p) && p@ == slice@),
    {
        if slice.len() < 1 {
            return Err(DapCmdErr::PacketTooShort);
        }
        if slice.len() > MAX_PKT_SZ {
            return Err(DapCmdErr::PacketTooLong);
        }
        let mut data = [0u8; 64];
        let n = slice.len();
        let mut i: usize = 0;
        while i < n
            invariant
                n == slice@.len(),
                n <= 64,
                i <= n,
                data@.len() == 64,
                forall|j: int| 0 <= j < i ==> data@[j] == slice@[j],
            decreases n - i,
        {
            data[i] = slice[i];
            i = i + 1;
        }
        let r = Self { data, len: n };
        assert(r@ =~= slice@);
        Ok(r)
    }

    /// Return the 8-bit command ID header byte.
    pub fn id(&self) -> (r: u8)
        ensures
            r == self.spec_id(),
            self@.len() >= 1 ==> r == self@[0],
    {
        proof {
            use_type_invariant(self);
        }
        self.data[0]
    }

    /// The command ID named by the header byte.
    pub fn cmd(&self) -> (r: DapCmdId)
        ensures
            r == spec_cmd_id_from_byte(self.spec_id()),
    {
        DapCmdId::from_primitive(self.id())
    }

    /// The length of the entire message (header byte plus content bytes).
    pub fn len(&self) -> (r: usize)
        ensures
            r == self@.len(),
            r <= MAX_PKT_SZ,
    {
        proof {
            use_type_invariant(self);
        }
        self.len
    }

    /// The content of the packet (without the header byte).
    pub fn content(&self) -> (r: &[u8])
        requires
            self@.len() >= 1,
        ensures
            r@ == self.spec_content(),
    {
        proof {
            use_type_invariant(self);
        }
        let r = vstd::slice::slice_subrange(self.data.as_slice(), 1, self.len);
        assert(r@ =~= self.spec_content());
        r
    }

    /// The entire packet.
    pub fn data(&self) -> (r: &[u8])
        ensures
            r@ == self@,
    {
        proof {
            use_type_invariant(self);
        }
        vstd::slice::slice_subrange(self.data.as_slice(), 0, self.len)
    }
}

} // verus!

verus! {

/// What a `to_packet` result says: the packet's bytes, or the error.
pub open spec fn packet_result_view(r: Result<DapPacketBuf, DapCmdErr>) -> Result<
    Seq<u8>,
    DapCmdErr,
> {
    match r {
        Ok(p) => Ok(p@),
        Err(e) => Err(e),
    }
}

/// Implemented on types that represent a CMSIS-DAPv2 command.
pub trait DapCommand: Sized {
    /// Associated response type.
    type Resp: DapResponse;

    /// Associated command ID.
    spec fn spec_cmd_id() -> DapCmdId;

    fn cmd_id() -> (r: DapCmdId)
        ensures
            r == Self::spec_cmd_id(),
    ;

    /// The commands whose packet can be built without overrunning a packet.
    spec fn encodable(&self) -> bool;

    /// The bytes of this command's packet, or why it cannot be built.
    spec fn spec_packet(&self) -> Result<Seq<u8>, DapCmdErr>;

    fn to_packet(&self) -> (r: Result<DapPacketBuf, DapCmdErr>)
        requires
            self.encodable(),
        ensures
            packet_result_view(r) == self.spec_packet(),
    ;
}

/// Implemented on types that represent a CMSIS-DAPv2 command response.
pub trait DapResponse: Sized + View {
    /// The packets that this response can be read from without overrunning
    /// them or breaking the response's length rules.
    spec fn decodable(pkt: Seq<u8>) -> bool;

    /// The response that a packet holds, or why it holds none.
    spec fn spec_decode(pkt: Seq<u8>) -> Result<<Self as View>::V, DapCmdErr>;

    fn from_packet(pkt: &DapPacketBuf) -> (r: Result<Self, DapCmdErr>)
        requires
            Self::decodable(pkt@),
        ensures
            match r {
                Ok(v) => Self::spec_decode(pkt@) == Ok::<<Self as View>::V, DapCmdErr>(v@),
                Err(e) => Self::spec_decode(pkt@) == Err::<<Self as View>::V, DapCmdErr>(e),
            },
    ;
}

} // verus!

verus! {

/// A one-byte status response: the packets that hold exactly an ID byte and
/// a status byte.
pub open spec fn status_decodable(pkt: Seq<u8>) -> bool {
    pkt.len() == 2
}

/// Reads the status byte of a one-byte status response.
pub fn status_from_packet(pkt: &DapPacketBuf) -> (r: Result<DapResponseStatus, DapCmdErr>)
    requires
        status_decodable(pkt@),
    ensures
        r == spec_status_from_byte(pkt@[1]),
{
    let c = pkt.content();
    assert(c@.len() == 1 && c@[0] == pkt@[1]);
    DapResponseStatus::try_from_primitive(c[0])
}

} // verus!
