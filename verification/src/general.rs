//! General CMSIS-DAP commands: info, host status, connect and disconnect.

use vstd::prelude::*;
use crate::packet::{
    DapCmdErr, DapCmdId, DapCommand, DapPacketBuf, DapResponse, DapResponseStatus,
    spec_status_from_byte, status_decodable, status_from_packet,
};

verus! {

/// Subcommands for the DAP info command.
#[derive(Clone, Copy, Debug, PartialEq, Eq, Structural)]
pub enum InfoReqId {
    VendorName,
    ProductName,
    SerialNo,
    ProtocolVer,
    TgtDevVendor,
    TgtDevName,
    TgtBrdVendor,
    TgtBrdName,
    ProductFwVer,
    Capabilities,
    MaxPktCnt,
    MaxPktSize,
}

pub open spec fn spec_info_req_byte(r: InfoReqId) -> u8 {
    match r {
        InfoReqId::VendorName => 0x01,
        InfoReqId::ProductName => 0x02,
        InfoReqId::SerialNo => 0x03,
        InfoReqId::ProtocolVer => 0x04,
        InfoReqId::TgtDevVendor => 0x05,
        InfoReqId::TgtDevName => 0x06,
        InfoReqId::TgtBrdVendor => 0x07,
        InfoReqId::TgtBrdName => 0x08,
        InfoReqId::ProductFwVer => 0x09,
        InfoReqId::Capabilities => 0xf0,
        InfoReqId::MaxPktCnt => 0xfe,
        InfoReqId::MaxPktSize => 0xff,
    }
}

impl InfoReqId {
    pub fn to_u8(self) -> (r: u8)
        ensures
            r == spec_info_req_byte(self),
    {
        match self {
            InfoReqId::VendorName => 0x01,
            InfoReqId::ProductName => 0x02,
            InfoReqId::SerialNo => 0x03,
            InfoReqId::ProtocolVer => 0x04,
            InfoReqId::TgtDevVendor => 0x05,
            InfoReqId::TgtDevName => 0x06,
            InfoReqId::TgtBrdVendor => 0x07,
            InfoReqId::TgtBrdName => 0x08,
            InfoReqId::ProductFwVer => 0x09,
            InfoReqId::Capabilities => 0xf0,
            InfoReqId::MaxPktCnt => 0xfe,
            InfoReqId::MaxPktSize => 0xff,
        }
    }
}

/// Capability byte 0 reported by the info command, one flag per bit.
#[derive(Clone, Copy, Debug, PartialEq, Eq, Structural)]
pub struct DapCapabilityInfo0(pub u8);

/// The names of the capability flags, bit 0 first.
pub open spec fn capability_name(bit: int) -> Seq<char> {
    if bit == 0 {
        "SWD"@
    } else if bit == 1 {
        "JTAG"@
    } else if bit == 2 {
        "SWO_UART"@
    } else if bit == 3 {
        "SWO_MANCHESTER"@
    } else if bit == 4 {
        "ATOMIC"@
    } else if bit == 5 {
        "TEST_DOMAIN_TIMER"@
    } else if bit == 6 {
        "SWO_STREAMING_TRACE"@
    } else {
        "UART"@
    }
}

/// Whether bit `bit` of `b` is set.
pub open spec fn bit_set8(b: u8, bit: u8) -> bool {
    (b >> bit) & 1 == 1
}

/// Whether any of the first `n` bits of `b` is set.
pub open spec fn any_bit_below(b: u8, n: int) -> bool
    decreases n,
{
    if n <= 0 {
        false
    } else {
        bit_set8(b, (n - 1) as u8) || any_bit_below(b, n - 1)
    }
}

/// The text of the flags set among the first `n` bits of `b`: their names in
/// bit order, separated by `" | "`.
pub open spec fn capability_text(b: u8, n: int) -> Seq<char>
    decreases n,
{
    if n <= 0 {
        Seq::empty()
    } else {
        let prev = capability_text(b, n - 1);
        if bit_set8(b, (n - 1) as u8) {
            if !any_bit_below(b, n - 1) {
                capability_name(n - 1)
            } else {
                prev + " | "@ + capability_name(n - 1)
            }
        } else {
            prev
        }
    }
}

impl DapCapabilityInfo0 {
    pub const SWD: u8 = 0x01;
    pub const JTAG: u8 = 0x02;
    pub const SWO_UART: u8 = 0x04;
    pub const SWO_MANCHESTER: u8 = 0x08;
    pub const ATOMIC: u8 = 0x10;
    pub const TEST_DOMAIN_TIMER: u8 = 0x20;
    pub const SWO_STREAMING_TRACE: u8 = 0x40;
    pub const UART: u8 = 0x80;

    pub fn bits(&self) -> (r: u8)
        ensures
            r == self.0,
    {
        self.0
    }

    /// Whether every bit of `flag` is set.
    pub fn contains(&self, flag: u8) -> (r: bool)
        ensures
            r == (self.0 & flag == flag),
    {
        self.0 & flag == flag
    }

    /// The names of the set flags in bit order, separated by `" | "`; the
    /// empty string when no flag is set.
    pub fn to_string(&self) -> (s: String)
        ensures
            s@ == capability_text(self.0, 8),
    {
        let b = self.0;
        let mut s = String::new();
        let mut first = true;
        let mut i: u8 = 0;
        while i < 8
            invariant
                i <= 8,
                b == self.0,
                s@ == capability_text(b, i as int),
                first == !any_bit_below(b, i as int),
                first ==> s@.len() == 0,
            decreases 8 - i,
        {
            assert(((i + 1) as int - 1) as u8 == i);
            if (b >> i) & 1 == 1 {
                let name = Self::flag_name(i);
                let ghost prev = s@;
                if !first {
                    s.append(" | ");
                }
                s.append(name);
                first = false;
                proof {
                    if !any_bit_below(b, i as int) {
                        assert(s@ =~= capability_name(i as int));
                    }
                }
            }
            i = i + 1;
        }
        s
    }

    fn flag_name(bit: u8) -> (r: &'static str)
        requires
            bit < 8,
        ensures
            r@ == capability_name(bit as int),
    {
        match bit {
            0 => "SWD",
            1 => "JTAG",
            2 => "SWO_UART",
            3 => "SWO_MANCHESTER",
            4 => "ATOMIC",
            5 => "TEST_DOMAIN_TIMER",
            6 => "SWO_STREAMING_TRACE",
            _ => "UART",
        }
    }
}

} // verus!

verus! {

#[derive(Clone, Copy, Debug, PartialEq, Eq, Structural)]
pub enum HostStatusType {
    Connect,
    Running,
}

pub open spec fn spec_host_status_byte(t: HostStatusType) -> u8 {
    match t {
        HostStatusType::Connect => 0x00,
        HostStatusType::Running => 0x01,
    }
}

impl HostStatusType {
    pub fn to_u8(self) -> (r: u8)
        ensures
            r == spec_host_status_byte(self),
    {
        match self {
            HostStatusType::Connect => 0x00,
            HostStatusType::Running => 0x01,
        }
    }
}

/// The port that a connect command asks for.
#[derive(Clone, Copy, Debug, PartialEq, Eq, Structural)]
pub enum ConnectCmdPort {
    Default,
    SwdMode,
    JtagMode,
}

pub open spec fn spec_connect_cmd_port_byte(p: ConnectCmdPort) -> u8 {
    match p {
        ConnectCmdPort::Default => 0x00,
        ConnectCmdPort::SwdMode => 0x01,
        ConnectCmdPort::JtagMode => 0x02,
    }
}

impl ConnectCmdPort {
    pub fn to_u8(self) -> (r: u8)
        ensures
            r == spec_connect_cmd_port_byte(self),
    {
        match self {
            ConnectCmdPort::Default => 0x00,
            ConnectCmdPort::SwdMode => 0x01,
            ConnectCmdPort::JtagMode => 0x02,
        }
    }
}

/// The port that a connect response reports.
#[derive(Clone, Copy, Debug, PartialEq, Eq, Structural)]
pub enum ConnectRespPort {
    Failed,
    Swd,
    Jtag,
}

pub open spec fn spec_connect_resp_port_from_byte(b: u8) -> Result<ConnectRespPort, DapCmdErr> {
    if b == 0x00 {
        Ok(ConnectRespPort::Failed)
    } else if b == 0x01 {
        Ok(ConnectRespPort::Swd)
    } else if b == 0x02 {
        Ok(ConnectRespPort::Jtag)
    } else {
        Err(DapCmdErr::InvalidValue(b))
    }
}

pub open spec fn spec_connect_resp_port_byte(p: ConnectRespPort) -> u8 {
    match p {
        ConnectRespPort::Failed => 0x00,
        ConnectRespPort::Swd => 0x01,
        ConnectRespPort::Jtag => 0x02,
    }
}

impl ConnectRespPort {
    pub fn try_from_primitive(b: u8) -> (r: Result<ConnectRespPort, DapCmdErr>)
        ensures
            r == spec_connect_resp_port_from_byte(b),
    {
        if b == 0x00 {
            Ok(ConnectRespPort::Failed)
        } else if b == 0x01 {
            Ok(ConnectRespPort::Swd)
        } else if b == 0x02 {
            Ok(ConnectRespPort::Jtag)
        } else {
            Err(DapCmdErr::InvalidValue(b))
        }
    }

    pub fn to_u8(self) -> (r: u8)
        ensures
            r == spec_connect_resp_port_byte(self),
    {
        match self {
            ConnectRespPort::Failed => 0x00,
            ConnectRespPort::Swd => 0x01,
            ConnectRespPort::Jtag => 0x02,
        }
    }
}

/// DAP "info" command.
pub struct InfoCmd {
    pub req_id: InfoReqId,
}

impl DapCommand for InfoCmd {
    type Resp = InfoResp;

    open spec fn spec_cmd_id() -> DapCmdId {
        DapCmdId::Info
    }

    fn cmd_id() -> (r: DapCmdId) {
        DapCmdId::Info
    }

    open spec fn encodable(&self) -> bool {
        true
    }

    open spec fn spec_packet(&self) -> Result<Seq<u8>, DapCmdErr> {
        Ok(seq![0x00u8, spec_info_req_byte(self.req_id)])
    }

    fn to_packet(&self) -> (r: Result<DapPacketBuf, DapCmdErr>) {
        let c = [self.req_id.to_u8()];
        let p = DapPacketBuf::new(DapCmdId::Info.to_u8(), c.as_slice());
        assert(p@ =~= seq![0x00u8, spec_info_req_byte(self.req_id)]);
        Ok(p)
    }
}

/// Response to the info command: the reported bytes.
pub struct InfoResp {
    pub data: Vec<u8>,
}

impl View for InfoResp {
    type V = Seq<u8>;

    open spec fn view(&self) -> Seq<u8> {
        self.data@
    }
}

impl DapResponse for InfoResp {
    /// A length byte of at most 61, followed by exactly that many bytes.
    open spec fn decodable(pkt: Seq<u8>) -> bool {
        &&& pkt.len() >= 2
        &&& pkt[1] <= 61
        &&& pkt.len() - 2 == pkt[1]
    }

    open spec fn spec_decode(pkt: Seq<u8>) -> Result<Seq<u8>, DapCmdErr> {
        Ok(pkt.subrange(2, pkt.len() as int))
    }

    fn from_packet(pkt: &DapPacketBuf) -> (r: Result<Self, DapCmdErr>) {
        let content = pkt.content();
        let data = vstd::slice::slice_subrange(content, 1, content.len());
        let v = vstd::slice::slice_to_vec(data);
        assert(v@ =~= pkt@.subrange(2, pkt@.len() as int));
        Ok(InfoResp { data: v })
    }
}

/// DAP "host status" command.
pub struct HostStatusCmd {
    pub ty: HostStatusType,
    pub sts: u8,
}

impl DapCommand for HostStatusCmd {
    type Resp = HostStatusResp;

    open spec fn spec_cmd_id() -> DapCmdId {
        DapCmdId::HostStatus
    }

    fn cmd_id() -> (r: DapCmdId) {
        DapCmdId::HostStatus
    }

    open spec fn encodable(&self) -> bool {
        true
    }

    open spec fn spec_packet(&self) -> Result<Seq<u8>, DapCmdErr> {
        Ok(seq![0x01u8, spec_host_status_byte(self.ty), self.sts])
    }

    fn to_packet(&self) -> (r: Result<DapPacketBuf, DapCmdErr>) {
        let c = [self.ty.to_u8(), self.sts];
        let p = DapPacketBuf::new(DapCmdId::HostStatus.to_u8(), c.as_slice());
        assert(p@ =~= seq![0x01u8, spec_host_status_byte(self.ty), self.sts]);
        Ok(p)
    }
}

#[derive(Clone, Copy, Debug, PartialEq, Eq, Structural)]
pub struct HostStatusResp {
    pub _zero: u8,
}

impl View for HostStatusResp {
    type V = HostStatusResp;

    open spec fn view(&self) -> HostStatusResp {
        *self
    }
}

impl DapResponse for HostStatusResp {
    open spec fn decodable(pkt: Seq<u8>) -> bool {
        pkt.len() == 2
    }

    open spec fn spec_decode(pkt: Seq<u8>) -> Result<HostStatusResp, DapCmdErr> {
        Ok(HostStatusResp { _zero: pkt[1] })
    }

    fn from_packet(pkt: &DapPacketBuf) -> (r: Result<Self, DapCmdErr>) {
        let c = pkt.content();
        Ok(HostStatusResp { _zero: c[0] })
    }
}

/// DAP "connect" command.
pub struct ConnectCmd {
    pub port: ConnectCmdPort,
}

impl DapCommand for ConnectCmd {
    type Resp = ConnectResp;

    open spec fn spec_cmd_id() -> DapCmdId {
        DapCmdId::Connect
    }

    fn cmd_id() -> (r: DapCmdId) {
        DapCmdId::Connect
    }

    open spec fn encodable(&self) -> bool {
        true
    }

    open spec fn spec_packet(&self) -> Result<Seq<u8>, DapCmdErr> {
        Ok(seq![0x02u8, spec_connect_cmd_port_byte(self.port)])
    }

    fn to_packet(&self) -> (r: Result<DapPacketBuf, DapCmdErr>) {
        let c = [self.port.to_u8()];
        let p = DapPacketBuf::new(DapCmdId::Connect.to_u8(), c.as_slice());
        assert(p@ =~= seq![0x02u8, spec_connect_cmd_port_byte(self.port)]);
        Ok(p)
    }
}

#[derive(Clone, Copy, Debug, PartialEq, Eq, Structural)]
pub struct ConnectResp {
    pub port: ConnectRespPort,
}

impl View for ConnectResp {
    type V = ConnectResp;

    open spec fn view(&self) -> ConnectResp {
        *self
    }
}

impl DapResponse for ConnectResp {
    open spec fn decodable(pkt: Seq<u8>) -> bool {
        pkt.len() == 2
    }

    open spec fn spec_decode(pkt: Seq<u8>) -> Result<ConnectResp, DapCmdErr> {
        match spec_connect_resp_port_from_byte(pkt[1]) {
            Ok(port) => Ok(ConnectResp { port }),
            Err(e) => Err(e),
        }
    }

    fn from_packet(pkt: &DapPacketBuf) -> (r: Result<Self, DapCmdErr>) {
        let c = pkt.content();
        let port = ConnectRespPort::try_from_primitive(c[0])?;
        Ok(ConnectResp { port })
    }
}

/// DAP "disconnect" command.
pub struct DisconnectCmd;

impl DapCommand for DisconnectCmd {
    type Resp = DisconnectResp;

    open spec fn spec_cmd_id() -> DapCmdId {
        DapCmdId::Disconnect
    }

    fn cmd_id() -> (r: DapCmdId) {
        DapCmdId::Disconnect
    }

    open spec fn encodable(&self) -> bool {
        true
    }

    open spec fn spec_packet(&self) -> Result<Seq<u8>, DapCmdErr> {
        Ok(seq![0x03u8])
    }

    fn to_packet(&self) -> (r: Result<DapPacketBuf, DapCmdErr>) {
        let c: [u8; 0] = [];
        let p = DapPacketBuf::new(DapCmdId::Disconnect.to_u8(), c.as_slice());
        assert(p@ =~= seq![0x03u8]);
        Ok(p)
    }
}

#[derive(Clone, Copy, Debug, PartialEq, Eq, Structural)]
pub struct DisconnectResp {
    pub sts: DapResponseStatus,
}

impl View for DisconnectResp {
    type V = DisconnectResp;

    open spec fn view(&self) -> DisconnectResp {
        *self
    }
}

impl DapResponse for DisconnectResp {
    open spec fn decodable(pkt: Seq<u8>) -> bool {
        status_decodable(pkt)
    }

    open spec fn spec_decode(pkt: Seq<u8>) -> Result<DisconnectResp, DapCmdErr> {
        match spec_status_from_byte(pkt[1]) {
            Ok(sts) => Ok(DisconnectResp { sts }),
            Err(e) => Err(e),
        }
    }

    fn from_packet(pkt: &DapPacketBuf) -> (r: Result<Self, DapCmdErr>) {
        let sts = status_from_packet(pkt)?;
        Ok(DisconnectResp { sts })
    }
}

} // verus!
