//! Driving a CMSIS-DAP interface.
//!
//! CMSIS-DAP talks to a "debug port" (DP) on the target Arm device, which is
//! connected to one or more "access ports" (APs). Each operation here is a
//! series of command/response exchanges with the probe. [`Dap`] decides which
//! packet to send next and what each response means; the caller carries each
//! packet to the probe and hands the probe's reply back.

use vstd::prelude::*;
use vstd::std_specs::convert::FromSpecImpl;
use std::collections::VecDeque;
use crate::bits::{field32, with_field32_u8, le_bytes16, le_bytes32};
use crate::packet::{
    DapCmdErr, DapCommand, DapPacketBuf, DapResponseStatus, spec_cmd_id_byte, spec_status_from_byte,
};
use crate::general::{
    ConnectCmd, ConnectCmdPort, ConnectRespPort, DisconnectCmd, InfoCmd, InfoReqId,
    spec_connect_cmd_port_byte, spec_connect_resp_port_from_byte,
};
use crate::swd::{SwdConfigurationBits, SwdConfigureCmd};
use crate::swj::{SwjClockCmd, SwjPinBits, SwjPinsCmd, SwjSequenceCmd};
use crate::xfer::{
    Transfer, TransferAck, TransferCmd, TransferResp, TransferRespUnresolved, TransferSequence,
    XferErr, SequenceBuilder, spec_resolve, spec_resolve_defined, spec_transferack_from,
    spec_xfers_bytes, spec_xfers_size,
};
use crate::dp::{DpAbort, DpCtrlStat, DpRegister};
use crate::proto::{DpOp, spec_dp_op_seq};
use crate::swd_seq::{JTAG_TO_SWD_BYTES, SWD_TO_JTAG_BYTES};

verus! {

/// The underlying transport protocol of a connection.
#[derive(Clone, Copy, Debug, PartialEq, Eq, Structural)]
pub enum DapTransportMode {
    Undefined,
    Jtag,
    Swd,
}

/// Errors of the USB transport to the probe.
#[derive(Clone, Copy, Debug, PartialEq, Eq, Structural)]
pub enum ProbeErr {
    /// No probe answered.
    NoDevice,
    /// The probe did not answer in time.
    Timeout,
    /// Any other USB error.
    Io,
}

/// Errors of DAP operations.
#[derive(Clone, Copy, Debug, PartialEq, Eq, Structural)]
pub enum DapErr {
    Probe(ProbeErr),
    Xfer(XferErr),
    CommandFailed,
    PacketErr,
    Unimpl,
}

impl From<ProbeErr> for DapErr {
    fn from(e: ProbeErr) -> (r: Self) {
        DapErr::Probe(e)
    }
}

impl FromSpecImpl<ProbeErr> for DapErr {
    open spec fn obeys_from_spec() -> bool {
        true
    }

    open spec fn from_spec(e: ProbeErr) -> Self {
        DapErr::Probe(e)
    }
}

impl From<XferErr> for DapErr {
    fn from(e: XferErr) -> (r: Self) {
        DapErr::Xfer(e)
    }
}

impl FromSpecImpl<XferErr> for DapErr {
    open spec fn obeys_from_spec() -> bool {
        true
    }

    open spec fn from_spec(e: XferErr) -> Self {
        DapErr::Xfer(e)
    }
}

/// Structure for tracking pending transfers: a FIFO queue of transfer
/// commands.
pub struct XferQueue {
    pub q: VecDeque<TransferCmd>,
}

/// A transfer command as plain values: its DAP index and its transfers.
pub open spec fn spec_cmd_view(c: TransferCmd) -> (u8, Seq<Transfer>) {
    (c.dap_idx, c.xfers@)
}

impl View for XferQueue {
    type V = Seq<(u8, Seq<Transfer>)>;

    open spec fn view(&self) -> Seq<(u8, Seq<Transfer>)> {
        self.q@.map_values(|c: TransferCmd| spec_cmd_view(c))
    }
}

impl XferQueue {
    pub fn new() -> (r: Self)
        ensures
            r@ == Seq::<(u8, Seq<Transfer>)>::empty(),
    {
        let r = Self { q: VecDeque::new() };
        assert(r@ =~= Seq::<(u8, Seq<Transfer>)>::empty());
        r
    }

    pub fn is_empty(&self) -> (r: bool)
        ensures
            r == (self@.len() == 0),
    {
        self.q.len() == 0
    }

    /// Appends a copy of `cmd` at the back.
    pub fn push(&mut self, cmd: &TransferCmd)
        ensures
            final(self)@ == old(self)@.push(spec_cmd_view(*cmd)),
    {
        let c = cmd.clone();
        self.q.push_back(c);
        assert(self@ =~= old(self)@.push(spec_cmd_view(*cmd)));
    }

    /// Removes the command at the front: the earliest one pushed.
    pub fn pop(&mut self) -> (r: Option<TransferCmd>)
        ensures
            old(self)@.len() == 0 ==> r is None && final(self)@ == old(self)@,
            old(self)@.len() > 0 ==> (r matches Some(c) && spec_cmd_view(c) == old(self)@[0]
                && final(self)@ == old(self)@.drop_first()),
    {
        let r = self.q.pop_front();
        assert(self@ =~= if old(self)@.len() == 0 { old(self)@ } else { old(self)@.drop_first() });
        r
    }

    /// The command at position `idx` from the front, if there is one.
    pub fn peek(&self, idx: usize) -> (r: Option<&TransferCmd>)
        ensures
            idx >= self@.len() ==> r is None,
            idx < self@.len() ==> (r matches Some(c) && spec_cmd_view(*c) == self@[idx as int]),
    {
        if idx < self.q.len() {
            Some(&self.q[idx])
        } else {
            None
        }
    }
}

/// The queue contents after pushing each of `cs` in turn onto `s`.
pub open spec fn spec_push_each(s: Seq<(u8, Seq<Transfer>)>, cs: Seq<(u8, Seq<Transfer>)>) -> Seq<
    (u8, Seq<Transfer>),
>
    decreases cs.len(),
{
    if cs.len() == 0 {
        s
    } else {
        spec_push_each(s, cs.drop_last()).push(cs.last())
    }
}

/// The queue contents after popping `k` times from `s`.
pub open spec fn spec_pop_times(s: Seq<(u8, Seq<Transfer>)>, k: nat) -> Seq<(u8, Seq<Transfer>)>
    decreases k,
{
    if k == 0 || s.len() == 0 {
        s
    } else {
        spec_pop_times(s.drop_first(), (k - 1) as nat)
    }
}

proof fn lemma_push_each_concat(s: Seq<(u8, Seq<Transfer>)>, cs: Seq<(u8, Seq<Transfer>)>)
    ensures
        spec_push_each(s, cs) == s + cs,
    decreases cs.len(),
{
    if cs.len() > 0 {
        lemma_push_each_concat(s, cs.drop_last());
        assert((s + cs.drop_last()).push(cs.last()) =~= s + cs);
    } else {
        assert(s + cs =~= s);
    }
}

proof fn lemma_pop_times_skip(s: Seq<(u8, Seq<Transfer>)>, k: nat)
    requires
        k <= s.len(),
    ensures
        spec_pop_times(s, k) == s.skip(k as int),
    decreases k,
{
    if k == 0 {
        assert(s.skip(0) =~= s);
    } else {
        lemma_pop_times_skip(s.drop_first(), (k - 1) as nat);
        assert(s.drop_first().skip(k - 1) =~= s.skip(k as int));
    }
}

/// Over any number of pushes onto an empty queue, the pops give the commands
/// back in the order they were pushed, and after as many pops as pushes the
/// queue is empty.
pub proof fn lemma_queue_order(cs: Seq<(u8, Seq<Transfer>)>)
    ensures
        forall|k: nat|
            k < cs.len() ==> #[trigger] spec_pop_times(spec_push_each(Seq::empty(), cs), k)[0] == cs[k as int],
        spec_pop_times(spec_push_each(Seq::empty(), cs), cs.len()).len() == 0,
{
    lemma_push_each_concat(Seq::empty(), cs);
    assert(Seq::<(u8, Seq<Transfer>)>::empty() + cs =~= cs);
    assert forall|k: nat| k < cs.len() implies #[trigger] spec_pop_times(spec_push_each(Seq::empty(), cs), k)[0]
        == cs[k as int] by {
        lemma_pop_times_skip(cs, k);
    }
    lemma_pop_times_skip(cs, cs.len());
}

/// A queue gives its commands back in the order they were pushed: popping
/// after pushing `c` gives the front command, or `c` itself when the queue
/// was empty.
pub proof fn lemma_queue_fifo(s: Seq<(u8, Seq<Transfer>)>, c: (u8, Seq<Transfer>))
    ensures
        s.push(c)[0] == (if s.len() == 0 {
            c
        } else {
            s[0]
        }),
        s.push(c).drop_first() =~= (if s.len() == 0 {
            s
        } else {
            s.drop_first().push(c)
        }),
{
}

} // verus!

verus! {

/// The last stage of the connect sequence.
pub const CONNECT_LAST_STAGE: u8 = 11;

/// The SWD clock the connect sequence sets, in hertz (the most it allows).
pub const SWJ_CLOCK_LIMIT: u32 = 4_000_000;

/// ABORT value that clears every sticky error flag (STKCMPCLR, STKERRCLR,
/// WDERRCLR, ORUNERRCLR).
pub const ABORT_CLEAR_ALL: u32 = 0x1e;

/// CTRL/STAT value that clears the sticky flags and requests system and
/// debug power-up.
pub const CTRLSTAT_POWERUP_CLEAR: u32 = 0x5000_0022;

/// CTRL/STAT value that requests system and debug power-up.
pub const CTRLSTAT_POWERUP: u32 = 0x5000_0000;

/// ABORT with STKCMPCLR, STKERRCLR, WDERRCLR and ORUNERRCLR set, built field
/// by field.
pub open spec fn spec_abort_clear_all() -> u32 {
    with_field32_u8(
        with_field32_u8(with_field32_u8(with_field32_u8(with_field32_u8(0, 0, 0x1, 0), 1, 0x1, 1), 2, 0x1, 1), 3, 0x1, 1),
        4,
        0x1,
        1,
    )
}

/// CTRL/STAT with the sticky overrun and sticky error flags written as `sticky`
/// and CSYSPWRUPREQ and CDBGPWRUPREQ set, built field by field.
pub open spec fn spec_ctrlstat_powerup(sticky: u8) -> u32 {
    with_field32_u8(
        with_field32_u8(with_field32_u8(with_field32_u8(0, 1, 0x1, sticky), 5, 0x1, sticky), 30, 0x1, 1),
        28,
        0x1,
        1,
    )
}

/// The register values the connect sequence writes are the ones its fields
/// spell out: ABORT clears every sticky flag, and CTRL/STAT requests power-up
/// with the sticky flags cleared or left alone.
pub proof fn lemma_connect_register_values()
    ensures
        spec_abort_clear_all() == ABORT_CLEAR_ALL,
        spec_ctrlstat_powerup(1) == CTRLSTAT_POWERUP_CLEAR,
        spec_ctrlstat_powerup(0) == CTRLSTAT_POWERUP,
{
    assert(spec_abort_clear_all() == 0x1e) by (bit_vector);
    assert(spec_ctrlstat_powerup(1) == 0x5000_0022) by (bit_vector);
    assert(spec_ctrlstat_powerup(0) == 0x5000_0000) by (bit_vector);
}

/// The ABORT value of the connect sequence.
fn abort_clear_all() -> (r: u32)
    ensures
        r == ABORT_CLEAR_ALL,
{
    let a = DpAbort::new().with_dap_abort(0).with_stk_cmp_clr(1).with_stk_err_clr(1).with_wd_err_clr(
        1,
    ).with_orun_err_clr(1);
    proof {
        lemma_connect_register_values();
    }
    a.0
}

/// A CTRL/STAT value of the connect sequence: power-up requested, the sticky
/// flags written as `sticky`.
fn ctrlstat_powerup(sticky: u8) -> (r: u32)
    requires
        sticky <= 1,
    ensures
        r == spec_ctrlstat_powerup(sticky),
{
    let c = DpCtrlStat::new().with_sticky_orun(sticky).with_sticky_err(sticky).with_csys_pwrup_req(
        1,
    ).with_cdbg_pwrup_req(1);
    c.0
}

/// The transfers of the transfer stages (7 to 11) of the connect sequence.
pub open spec fn spec_connect_xfers(stage: u8) -> Seq<Transfer> {
    if stage == 7 {
        spec_dp_op_seq(DpOp::Read { reg: DpRegister::DPIDR })
    } else if stage == 8 {
        spec_dp_op_seq(DpOp::Write { reg: DpRegister::DPIDR, data: ABORT_CLEAR_ALL })
    } else if stage == 9 {
        spec_dp_op_seq(DpOp::Read { reg: DpRegister::CTRLSTAT })
    } else if stage == 10 {
        spec_dp_op_seq(DpOp::Write { reg: DpRegister::SELECT, data: 0 }) + spec_dp_op_seq(
            DpOp::Write { reg: DpRegister::CTRLSTAT, data: CTRLSTAT_POWERUP_CLEAR },
        ) + spec_dp_op_seq(DpOp::Read { reg: DpRegister::CTRLSTAT }) + spec_dp_op_seq(
            DpOp::Write { reg: DpRegister::CTRLSTAT, data: CTRLSTAT_POWERUP },
        ) + spec_dp_op_seq(DpOp::Read { reg: DpRegister::CTRLSTAT })
    } else {
        spec_dp_op_seq(DpOp::Read { reg: DpRegister::CTRLSTAT }) + spec_dp_op_seq(
            DpOp::Write { reg: DpRegister::CTRLSTAT, data: CTRLSTAT_POWERUP },
        ) + spec_dp_op_seq(DpOp::Read { reg: DpRegister::CTRLSTAT })
    }
}

/// The packet of a transfer command on DAP 0 with the transfers `xs`.
pub open spec fn spec_xfer_packet(xs: Seq<Transfer>) -> Seq<u8> {
    seq![0x05u8, 0u8, xs.len() as u8] + spec_xfers_bytes(xs)
}

/// The packets of stages 1 to 11 of the connect sequence: pins, clock,
/// transfer configuration, SWD configuration, the JTAG-to-SWD switch, clock
/// again, then the DPIDR read, the error clear, the CTRL/STAT read and the
/// two power-up transfer commands.
pub open spec fn spec_connect_packet(stage: u8) -> Seq<u8> {
    if stage == 1 {
        seq![0x10u8, 0u8, 0u8] + le_bytes32(0)
    } else if stage == 2 || stage == 6 {
        seq![0x11u8] + le_bytes32(SWJ_CLOCK_LIMIT)
    } else if stage == 3 {
        seq![0x04u8, 0u8] + le_bytes16(0x40) + le_bytes16(0)
    } else if stage == 4 {
        seq![0x13u8, 0u8]
    } else if stage == 5 {
        seq![0x12u8, 136u8] + JTAG_TO_SWD_BYTES@
    } else {
        spec_xfer_packet(spec_connect_xfers(stage))
    }
}

/// The command ID byte of the reply to each connect stage.
pub open spec fn spec_connect_reply_id(stage: u8) -> u8 {
    if stage == 0 {
        0x02
    } else if stage == 1 {
        0x10
    } else if stage == 2 || stage == 6 {
        0x11
    } else if stage == 3 {
        0x04
    } else if stage == 4 {
        0x13
    } else if stage == 5 {
        0x12
    } else {
        0x05
    }
}

/// The exchange a [`Dap`] is waiting on.
pub enum DapPending {
    Idle,
    /// A stage (0 to 11) of the connect sequence.
    Connect(u8),
    Disconnect,
    Capabilities,
    /// A transfer command.
    Xfer(TransferCmd),
    /// Any other command: the packet sent and the ID its reply carries.
    Command(DapPacketBuf, u8),
}

/// The exchange a [`Dap`] is waiting on, as plain values.
pub enum PendingView {
    Idle,
    Connect(u8),
    Disconnect,
    Capabilities,
    Xfer(u8, Seq<Transfer>),
    Command(Seq<u8>, u8),
}

impl View for DapPending {
    type V = PendingView;

    open spec fn view(&self) -> PendingView {
        match self {
            DapPending::Idle => PendingView::Idle,
            DapPending::Connect(s) => PendingView::Connect(*s),
            DapPending::Disconnect => PendingView::Disconnect,
            DapPending::Capabilities => PendingView::Capabilities,
            DapPending::Xfer(c) => PendingView::Xfer(c.dap_idx, c.xfers@),
            DapPending::Command(p, id) => PendingView::Command(p@, *id),
        }
    }
}

/// The command ID byte of the reply that `p` waits for.
pub open spec fn spec_pending_reply_id(p: PendingView) -> u8 {
    match p {
        PendingView::Idle => 0,
        PendingView::Connect(s) => spec_connect_reply_id(s),
        PendingView::Disconnect => 0x03,
        PendingView::Capabilities => 0x00,
        PendingView::Xfer(_, _) => 0x05,
        PendingView::Command(_, id) => id,
    }
}

/// What a caller does next.
pub enum DapAction {
    /// Send this packet to the probe and hand its reply to `Dap::resume`.
    Exchange(DapPacketBuf),
    /// The operation is over, with this result (0 where it has no value).
    Done(Result<u32, DapErr>),
}

/// The outcome of one reply.
pub enum StepResult {
    /// Go on with this mode and this exchange.
    Continue(DapTransportMode, PendingView),
    /// The operation ends with this mode and result.
    Finish(DapTransportMode, Result<u32, DapErr>),
}

/// A status reply: refused unless its status byte is OK.
pub open spec fn spec_status_check(pkt: Seq<u8>) -> Result<(), DapErr> {
    match spec_status_from_byte(pkt[1]) {
        Err(_) => Err(DapErr::PacketErr),
        Ok(DapResponseStatus::DapErr) => Err(DapErr::CommandFailed),
        Ok(DapResponseStatus::DapOk) => Ok(()),
    }
}

/// A transfer reply: resolved against the command's transfers, and refused
/// unless the probe acknowledged with OK, without protocol error or value
/// mismatch. Gives the transfers with their read data.
pub open spec fn spec_xfer_outcome(pkt: Seq<u8>, xs: Seq<Transfer>) -> Result<Seq<Transfer>, DapErr> {
    match spec_resolve(pkt, xs) {
        Err(e) => Err(DapErr::Xfer(e)),
        Ok((ctl, ys)) => if spec_transferack_from(ctl & 0b111) != TransferAck::AckOk {
            Err(DapErr::Xfer(XferErr::Ack(spec_transferack_from(ctl & 0b111))))
        } else if ctl & 0b1000 != 0 {
            Err(DapErr::Xfer(XferErr::ProtocolErr))
        } else if ctl & 0b1_0000 != 0 {
            Err(DapErr::Xfer(XferErr::ValueMismatch))
        } else {
            Ok(ys)
        },
    }
}

/// The data of the last of the transfers, or 0 when it has none.
pub open spec fn spec_last_data(ys: Seq<Transfer>) -> u32 {
    match ys.last().data {
        Some(v) => v,
        None => 0,
    }
}

/// Whether a CTRL/STAT value acknowledges both debug and system power-up
/// (bits 29 and 31).
pub open spec fn spec_powered_up(ctrlstat: u32) -> bool {
    field32(ctrlstat, 29, 0x1) != 0 && field32(ctrlstat, 31, 0x1) != 0
}

/// The outcome of a reply to connect stage `stage` (whose ID byte matched).
pub open spec fn spec_connect_reply(mode: DapTransportMode, stage: u8, pkt: Seq<u8>) -> StepResult {
    if stage == 0 {
        match spec_connect_resp_port_from_byte(pkt[1]) {
            Err(_) => StepResult::Finish(mode, Err(DapErr::PacketErr)),
            Ok(ConnectRespPort::Failed) => StepResult::Finish(mode, Err(DapErr::CommandFailed)),
            Ok(ConnectRespPort::Jtag) => StepResult::Finish(mode, Err(DapErr::Unimpl)),
            Ok(ConnectRespPort::Swd) => StepResult::Continue(
                DapTransportMode::Swd,
                PendingView::Connect(1),
            ),
        }
    } else if stage == 1 {
        StepResult::Continue(mode, PendingView::Connect(2))
    } else if stage <= 6 {
        match spec_status_check(pkt) {
            Err(e) => StepResult::Finish(mode, Err(e)),
            Ok(_) => StepResult::Continue(mode, PendingView::Connect((stage + 1) as u8)),
        }
    } else {
        match spec_xfer_outcome(pkt, spec_connect_xfers(stage)) {
            Err(e) => StepResult::Finish(mode, Err(e)),
            Ok(ys) => if stage < CONNECT_LAST_STAGE {
                StepResult::Continue(mode, PendingView::Connect((stage + 1) as u8))
            } else if spec_powered_up(spec_last_data(ys)) {
                StepResult::Finish(mode, Ok(0))
            } else {
                StepResult::Finish(mode, Err(DapErr::CommandFailed))
            },
        }
    }
}

/// The outcome of the reply `reply` while waiting on `p` in mode `mode`.
pub open spec fn spec_resume(mode: DapTransportMode, p: PendingView, reply: Result<Seq<u8>, DapErr>) -> StepResult {
    match reply {
        Err(e) => StepResult::Finish(mode, Err(e)),
        Ok(pkt) => if pkt[0] != spec_pending_reply_id(p) {
            StepResult::Finish(mode, Err(DapErr::PacketErr))
        } else {
            match p {
                PendingView::Idle => StepResult::Finish(mode, Err(DapErr::PacketErr)),
                PendingView::Connect(stage) => spec_connect_reply(mode, stage, pkt),
                PendingView::Disconnect => match spec_status_check(pkt) {
                    Err(e) => StepResult::Finish(mode, Err(e)),
                    Ok(_) => StepResult::Finish(DapTransportMode::Undefined, Ok(0)),
                },
                PendingView::Capabilities => StepResult::Finish(mode, Ok(pkt[2] as u32)),
                PendingView::Xfer(_, xs) => match spec_xfer_outcome(pkt, xs) {
                    Err(e) => StepResult::Finish(mode, Err(e)),
                    Ok(ys) => StepResult::Finish(mode, Ok(spec_last_data(ys))),
                },
                PendingView::Command(_, _) => StepResult::Finish(mode, Ok(0)),
            }
        },
    }
}

/// Every reply ends the operation under way, except on the connect sequence,
/// where it may move the sequence on by one stage, up to its last stage: an
/// operation takes at most twelve exchanges.
pub proof fn lemma_resume_progress(mode: DapTransportMode, p: PendingView, reply: Result<Seq<u8>, DapErr>)
    ensures
        spec_resume(mode, p, reply) matches StepResult::Continue(_, q) ==> (p matches PendingView::Connect(
            s,
        ) && s < CONNECT_LAST_STAGE && q == PendingView::Connect((s + 1) as u8)),
{
}

/// The replies to `p` that can be read without running past their end (or
/// breaking the response's length rules), when their ID byte matches.
pub open spec fn spec_reply_acceptable(p: PendingView, pkt: Seq<u8>) -> bool {
    &&& pkt.len() >= 1
    &&& pkt[0] == spec_pending_reply_id(p) ==> match p {
        PendingView::Idle => true,
        PendingView::Connect(stage) => if stage <= 6 {
            pkt.len() == 2
        } else {
            spec_resolve_defined(pkt, spec_connect_xfers(stage))
        },
        PendingView::Disconnect => pkt.len() == 2,
        PendingView::Capabilities => pkt.len() >= 3 && pkt[1] <= 61 && pkt.len() - 2 == pkt[1],
        PendingView::Xfer(_, xs) => spec_resolve_defined(pkt, xs),
        PendingView::Command(_, _) => true,
    }
}

/// A reply as plain values.
pub open spec fn spec_reply_view(reply: Result<DapPacketBuf, DapErr>) -> Result<Seq<u8>, DapErr> {
    match reply {
        Ok(p) => Ok(p@),
        Err(e) => Err(e),
    }
}

/// The connection state and the pending exchange of a CMSIS-DAP interface.
pub struct Dap {
    /// Current transport mode
    connection_mode: DapTransportMode,
    /// The exchange being waited on
    pending: DapPending,
}

impl Dap {
    #[verifier::type_invariant]
    closed spec fn wf(&self) -> bool {
        match self.pending {
            DapPending::Connect(s) => s <= CONNECT_LAST_STAGE,
            DapPending::Xfer(c) => c.xfers@.len() >= 1,
            _ => true,
        }
    }

    pub closed spec fn spec_mode(&self) -> DapTransportMode {
        self.connection_mode
    }

    pub closed spec fn spec_pending(&self) -> PendingView {
        self.pending@
    }

    /// Whether an operation is under way.
    pub open spec fn spec_busy(&self) -> bool {
        !(self.spec_pending() is Idle)
    }

    /// A new interface: not connected, no operation under way.
    pub fn new() -> (r: Self)
        ensures
            r.spec_mode() == DapTransportMode::Undefined,
            r.spec_pending() == PendingView::Idle,
    {
        Self { connection_mode: DapTransportMode::Undefined, pending: DapPending::Idle }
    }

    pub fn connection_mode(&self) -> (r: DapTransportMode)
        ensures
            r == self.spec_mode(),
    {
        self.connection_mode
    }

    pub fn is_busy(&self) -> (r: bool)
        ensures
            r == self.spec_busy(),
    {
        match self.pending {
            DapPending::Idle => false,
            _ => true,
        }
    }
}

} // verus!

verus! {

/// The packet sent for the exchange `p` (for the connect sequence, from
/// stage 1 on).
pub open spec fn spec_pending_packet(p: PendingView) -> Seq<u8> {
    match p {
        PendingView::Idle => Seq::empty(),
        PendingView::Connect(stage) => spec_connect_packet(stage),
        PendingView::Disconnect => seq![0x03u8],
        PendingView::Capabilities => seq![0x00u8, 0xf0u8],
        PendingView::Xfer(dap_idx, xs) => seq![0x05u8, dap_idx, xs.len() as u8] + spec_xfers_bytes(xs),
        PendingView::Command(pkt, _) => pkt,
    }
}

/// Whether the new mode, the new pending exchange and the action `a` are
/// those that the outcome `res` calls for.
pub open spec fn spec_follows(res: StepResult, mode: DapTransportMode, p: PendingView, a: DapAction) -> bool {
    match res {
        StepResult::Continue(m, q) => {
            &&& mode == m
            &&& p == q
            &&& a matches DapAction::Exchange(pkt) && pkt@ == spec_pending_packet(q)
        },
        StepResult::Finish(m, r) => {
            &&& mode == m
            &&& p == PendingView::Idle
            &&& a == DapAction::Done(r)
        },
    }
}

/// Checks a one-byte status reply.
fn status_check(pkt: &DapPacketBuf) -> (r: Result<(), DapErr>)
    requires
        pkt@.len() == 2,
    ensures
        r == spec_status_check(pkt@),
{
    match crate::packet::status_from_packet(pkt) {
        Err(_) => Err(DapErr::PacketErr),
        Ok(DapResponseStatus::DapErr) => Err(DapErr::CommandFailed),
        Ok(DapResponseStatus::DapOk) => Ok(()),
    }
}

/// Resolves a transfer reply against its command and checks the probe's
/// acknowledgement.
fn xfer_check(pkt: &DapPacketBuf, cmd: &TransferCmd) -> (r: Result<TransferResp, DapErr>)
    requires
        spec_resolve_defined(pkt@, cmd.xfers@),
    ensures
        match r {
            Ok(resp) => spec_xfer_outcome(pkt@, cmd.xfers@) == Ok::<Seq<Transfer>, DapErr>(resp.data@),
            Err(e) => spec_xfer_outcome(pkt@, cmd.xfers@) == Err::<Seq<Transfer>, DapErr>(e),
        },
{
    let uresp = TransferRespUnresolved { pkt: *pkt };
    let rresp = match uresp.resolve(cmd) {
        Ok(r) => r,
        Err(e) => {
            return Err(DapErr::Xfer(e));
        },
    };
    let ack = rresp.ctl.ack();
    if !(match ack {
        TransferAck::AckOk => true,
        _ => false,
    }) {
        return Err(DapErr::Xfer(XferErr::Ack(ack)));
    }
    if rresp.ctl.protocol_err() {
        return Err(DapErr::Xfer(XferErr::ProtocolErr));
    }
    if rresp.ctl.value_mismatch() {
        return Err(DapErr::Xfer(XferErr::ValueMismatch));
    }
    Ok(rresp)
}

/// The data of the last transfer, or 0 when it has none.
fn last_data(xs: &Vec<Transfer>) -> (r: u32)
    requires
        xs@.len() > 0,
    ensures
        r == spec_last_data(xs@),
{
    match xs[xs.len() - 1].data {
        Some(v) => v,
        None => 0,
    }
}

/// The transfer command of a transfer stage (7 to 11) of the connect sequence.
fn connect_stage_cmd(stage: u8) -> (r: TransferCmd)
    requires
        7 <= stage <= CONNECT_LAST_STAGE,
    ensures
        r.dap_idx == 0,
        r.xfers@ == spec_connect_xfers(stage),
        1 <= r.xfers@.len() <= 9,
        spec_xfers_size(r.xfers@) <= 45,
{
    proof {
        lemma_connect_register_values();
    }
    let xfers = if stage == 7 {
        SequenceBuilder::new().add(DpOp::Read { reg: DpRegister::DPIDR }).finish()
    } else if stage == 8 {
        SequenceBuilder::new().add(DpOp::Write { reg: DpRegister::DPIDR, data: abort_clear_all() }).finish()
    } else if stage == 9 {
        SequenceBuilder::new().add(DpOp::Read { reg: DpRegister::CTRLSTAT }).finish()
    } else if stage == 10 {
        SequenceBuilder::new().add(DpOp::Write { reg: DpRegister::SELECT, data: 0 }).add(
            DpOp::Write { reg: DpRegister::CTRLSTAT, data: ctrlstat_powerup(1) },
        ).add(DpOp::Read { reg: DpRegister::CTRLSTAT }).add(
            DpOp::Write { reg: DpRegister::CTRLSTAT, data: ctrlstat_powerup(0) },
        ).add(DpOp::Read { reg: DpRegister::CTRLSTAT }).finish()
    } else {
        SequenceBuilder::new().add(DpOp::Read { reg: DpRegister::CTRLSTAT }).add(
            DpOp::Write { reg: DpRegister::CTRLSTAT, data: ctrlstat_powerup(0) },
        ).add(DpOp::Read { reg: DpRegister::CTRLSTAT }).finish()
    };
    assert(xfers@ =~= spec_connect_xfers(stage));
    proof {
        crate::xfer::lemma_xfers_size_bound(xfers@);
    }
    TransferCmd { dap_idx: 0, xfers }
}

/// The SWJ clock command for `hz`; a clock above `SWJ_CLOCK_LIMIT` is refused.
fn set_swj_clock(hz: u32) -> (r: Result<SwjClockCmd, DapErr>)
    ensures
        hz > SWJ_CLOCK_LIMIT ==> r == Err::<SwjClockCmd, DapErr>(DapErr::CommandFailed),
        hz <= SWJ_CLOCK_LIMIT ==> (r matches Ok(c) && c.clock == hz),
{
    if hz > SWJ_CLOCK_LIMIT {
        return Err(DapErr::CommandFailed);
    }
    Ok(SwjClockCmd { clock: hz })
}

/// The SWJ sequence that switches the target from JTAG to SWD: every bit of
/// `JTAG_TO_SWD_BYTES`.
pub fn swj_switch_jtag_to_swd() -> (r: SwjSequenceCmd)
    ensures
        r.seq_bitcnt == 136,
        r.seq_bitdata@ == JTAG_TO_SWD_BYTES@,
{
    let n = JTAG_TO_SWD_BYTES.len();
    SwjSequenceCmd {
        seq_bitcnt: (n * 8) as u8,
        seq_bitdata: vstd::slice::slice_to_vec(JTAG_TO_SWD_BYTES.as_slice()),
    }
}

/// The SWJ sequence that switches the target from SWD to JTAG: every bit of
/// `SWD_TO_JTAG_BYTES`.
pub fn swj_switch_swd_to_jtag() -> (r: SwjSequenceCmd)
    ensures
        r.seq_bitcnt == 80,
        r.seq_bitdata@ == SWD_TO_JTAG_BYTES@,
{
    let n = SWD_TO_JTAG_BYTES.len();
    SwjSequenceCmd {
        seq_bitcnt: (n * 8) as u8,
        seq_bitdata: vstd::slice::slice_to_vec(SWD_TO_JTAG_BYTES.as_slice()),
    }
}

/// The packet of stage `stage` (1 to 11) of the connect sequence.
fn connect_stage_packet(stage: u8) -> (r: DapPacketBuf)
    requires
        1 <= stage <= CONNECT_LAST_STAGE,
    ensures
        r@ == spec_connect_packet(stage),
{
    let res = if stage == 1 {
        SwjPinsCmd { pin_out: SwjPinBits(0), pin_sel: SwjPinBits(0), pin_wait: 0 }.to_packet()
    } else if stage == 2 || stage == 6 {
        match set_swj_clock(SWJ_CLOCK_LIMIT) {
            Ok(c) => c.to_packet(),
            Err(_) => Err(DapCmdErr::InvalidValue(0)),
        }
    } else if stage == 3 {
        crate::xfer::TransferConfigureCmd { idle_cycles: 0, wait_retry: 0x40, match_retry: 0 }.to_packet()
    } else if stage == 4 {
        SwdConfigureCmd { cfg: SwdConfigurationBits::from_bits_retain(0) }.to_packet()
    } else if stage == 5 {
        swj_switch_jtag_to_swd().to_packet()
    } else {
        connect_stage_cmd(stage).to_packet()
    };
    match res {
        Ok(p) => p,
        Err(_) => {
            assert(false);
            DapPacketBuf::new_empty(0)
        },
    }
}

} // verus!

verus! {

impl Dap {
    /// Starts connecting to a debug port. Already connected: done at once,
    /// with no exchange. Otherwise the connect command is sent; the rest of
    /// the sequence follows the replies (see `resume`).
    pub fn connect(&mut self, port: ConnectCmdPort) -> (a: DapAction)
        requires
            !old(self).spec_busy(),
        ensures
            old(self).spec_mode() != DapTransportMode::Undefined ==> {
                &&& final(self).spec_mode() == old(self).spec_mode()
                &&& final(self).spec_pending() == PendingView::Idle
                &&& a == DapAction::Done(Ok(0))
            },
            old(self).spec_mode() == DapTransportMode::Undefined ==> {
                &&& final(self).spec_mode() == old(self).spec_mode()
                &&& final(self).spec_pending() == PendingView::Connect(0)
                &&& a matches DapAction::Exchange(p) && p@ == seq![0x02u8, spec_connect_cmd_port_byte(port)]
            },
    {
        if !(match self.connection_mode {
            DapTransportMode::Undefined => true,
            _ => false,
        }) {
            return DapAction::Done(Ok(0));
        }
        let p = match (ConnectCmd { port }).to_packet() {
            Ok(p) => p,
            Err(_) => {
                assert(false);
                DapPacketBuf::new_empty(0)
            },
        };
        self.pending = DapPending::Connect(0);
        DapAction::Exchange(p)
    }

    /// Starts disconnecting from a debug port. Not connected: done at once,
    /// with no exchange.
    pub fn disconnect(&mut self) -> (a: DapAction)
        requires
            !old(self).spec_busy(),
        ensures
            old(self).spec_mode() == DapTransportMode::Undefined ==> spec_follows(
                StepResult::Finish(old(self).spec_mode(), Ok(0)),
                final(self).spec_mode(),
                final(self).spec_pending(),
                a,
            ),
            old(self).spec_mode() != DapTransportMode::Undefined ==> spec_follows(
                StepResult::Continue(old(self).spec_mode(), PendingView::Disconnect),
                final(self).spec_mode(),
                final(self).spec_pending(),
                a,
            ),
    {
        if match self.connection_mode {
            DapTransportMode::Undefined => true,
            _ => false,
        } {
            return DapAction::Done(Ok(0));
        }
        let p = match DisconnectCmd.to_packet() {
            Ok(p) => p,
            Err(_) => {
                assert(false);
                DapPacketBuf::new_empty(0)
            },
        };
        self.pending = DapPending::Disconnect;
        DapAction::Exchange(p)
    }

    /// Starts reading the probe's capabilities (info request 0xf0).
    pub fn get_capabilities(&mut self) -> (a: DapAction)
        requires
            !old(self).spec_busy(),
        ensures
            spec_follows(
                StepResult::Continue(old(self).spec_mode(), PendingView::Capabilities),
                final(self).spec_mode(),
                final(self).spec_pending(),
                a,
            ),
    {
        let p = match (InfoCmd { req_id: InfoReqId::Capabilities }).to_packet() {
            Ok(p) => p,
            Err(_) => {
                assert(false);
                DapPacketBuf::new_empty(0)
            },
        };
        self.pending = DapPending::Capabilities;
        DapAction::Exchange(p)
    }

    /// Starts a transfer command with the transfers `xfers` on DAP `dap_idx`.
    /// Refused without an exchange (`PacketErr`) when there are no transfers
    /// or they do not fit in one packet.
    pub fn send_xfer_raw(&mut self, dap_idx: u8, xfers: &[Transfer]) -> (a: DapAction)
        requires
            !old(self).spec_busy(),
        ensures
            (xfers@.len() == 0 || spec_xfers_size(xfers@) + 3 > 64) ==> spec_follows(
                StepResult::Finish(old(self).spec_mode(), Err(DapErr::PacketErr)),
                final(self).spec_mode(),
                final(self).spec_pending(),
                a,
            ),
            !(xfers@.len() == 0 || spec_xfers_size(xfers@) + 3 > 64) ==> spec_follows(
                StepResult::Continue(old(self).spec_mode(), PendingView::Xfer(dap_idx, xfers@)),
                final(self).spec_mode(),
                final(self).spec_pending(),
                a,
            ),
    {
        let cmd = match TransferCmd::new_from_slice(dap_idx, xfers) {
            Ok(c) => c,
            Err(_) => {
                return DapAction::Done(Err(DapErr::PacketErr));
            },
        };
        let p = match cmd.to_packet() {
            Ok(p) => p,
            Err(_) => {
                return DapAction::Done(Err(DapErr::PacketErr));
            },
        };
        self.pending = DapPending::Xfer(cmd);
        DapAction::Exchange(p)
    }

    /// Starts the transfers of `op` on DAP `dap_idx`; the operation gives the
    /// data of its last transfer (0 when that one carries none).
    pub fn send_xfer_seq<T: TransferSequence>(&mut self, dap_idx: u8, op: T) -> (a: DapAction)
        requires
            !old(self).spec_busy(),
            op.seq_defined(),
        ensures
            (op.spec_transfer_seq().len() == 0 || spec_xfers_size(op.spec_transfer_seq()) + 3 > 64)
                ==> spec_follows(
                StepResult::Finish(old(self).spec_mode(), Err(DapErr::PacketErr)),
                final(self).spec_mode(),
                final(self).spec_pending(),
                a,
            ),
            !(op.spec_transfer_seq().len() == 0 || spec_xfers_size(op.spec_transfer_seq()) + 3 > 64)
                ==> spec_follows(
                StepResult::Continue(
                    old(self).spec_mode(),
                    PendingView::Xfer(dap_idx, op.spec_transfer_seq()),
                ),
                final(self).spec_mode(),
                final(self).spec_pending(),
                a,
            ),
    {
        let xfers = op.as_transfer_seq();
        self.send_xfer_raw(dap_idx, xfers.as_slice())
    }

    /// Sends the command `msg`; its reply must carry the command's ID, and
    /// the operation then ends with 0: the reply, which the caller handed to
    /// `resume`, is the caller's to decode with the command's response type.
    /// A command whose packet cannot be built is refused without an exchange
    /// (`PacketErr`).
    pub fn send_cmd<T: DapCommand>(&mut self, msg: &T) -> (a: DapAction)
        requires
            !old(self).spec_busy(),
            msg.encodable(),
        ensures
            msg.spec_packet() is Err ==> spec_follows(
                StepResult::Finish(old(self).spec_mode(), Err(DapErr::PacketErr)),
                final(self).spec_mode(),
                final(self).spec_pending(),
                a,
            ),
            msg.spec_packet() matches Ok(bytes) ==> spec_follows(
                StepResult::Continue(
                    old(self).spec_mode(),
                    PendingView::Command(bytes, spec_cmd_id_byte(T::spec_cmd_id())),
                ),
                final(self).spec_mode(),
                final(self).spec_pending(),
                a,
            ),
    {
        let id = T::cmd_id().to_u8();
        match msg.to_packet() {
            Err(_) => DapAction::Done(Err(DapErr::PacketErr)),
            Ok(p) => {
                self.pending = DapPending::Command(p, id);
                DapAction::Exchange(p)
            },
        }
    }

    /// Whether `reply` may be handed to `resume`: replies that the pending
    /// exchange cannot read are refused (the caller stops there).
    pub fn accepts_reply(&self, reply: &DapPacketBuf) -> (r: bool)
        ensures
            r == spec_reply_acceptable(self.spec_pending(), reply@),
    {
        let n = reply.len();
        if n < 1 {
            return false;
        }
        let id = reply.id();
        match &self.pending {
            DapPending::Idle => true,
            DapPending::Connect(stage) => {
                if id != connect_reply_id(*stage) {
                    true
                } else if *stage <= 6 {
                    n == 2
                } else {
                    let s = if *stage > CONNECT_LAST_STAGE {
                        CONNECT_LAST_STAGE
                    } else {
                        *stage
                    };
                    let cmd = connect_stage_cmd(s);
                    TransferRespUnresolved { pkt: *reply }.can_resolve(&cmd)
                }
            },
            DapPending::Disconnect => id != 0x03 || n == 2,
            DapPending::Capabilities => {
                if id != 0x00 {
                    true
                } else if n < 3 {
                    false
                } else {
                    let c = reply.content();
                    c[0] <= 61 && n - 2 == c[0] as usize
                }
            },
            DapPending::Xfer(cmd) => id != 0x05 || TransferRespUnresolved { pkt: *reply }.can_resolve(
                cmd,
            ),
            DapPending::Command(_, _) => true,
        }
    }
}

fn connect_reply_id(stage: u8) -> (r: u8)
    ensures
        r == spec_connect_reply_id(stage),
{
    if stage == 0 {
        0x02
    } else if stage == 1 {
        0x10
    } else if stage == 2 || stage == 6 {
        0x11
    } else if stage == 3 {
        0x04
    } else if stage == 4 {
        0x13
    } else if stage == 5 {
        0x12
    } else {
        0x05
    }
}

impl Dap {
    /// Hands the probe's reply (or the transport error) to the operation
    /// under way, and says what to do next (see `spec_resume`).
    pub fn resume(&mut self, reply: Result<DapPacketBuf, DapErr>) -> (a: DapAction)
        requires
            old(self).spec_busy(),
            reply matches Ok(p) ==> spec_reply_acceptable(old(self).spec_pending(), p@),
        ensures
            spec_follows(
                spec_resume(old(self).spec_mode(), old(self).spec_pending(), spec_reply_view(reply)),
                final(self).spec_mode(),
                final(self).spec_pending(),
                a,
            ),
    {
        proof {
            use_type_invariant(&*self);
        }
        let mut pending = DapPending::Idle;
        std::mem::swap(&mut pending, &mut self.pending);
        let pkt = match reply {
            Err(e) => {
                return DapAction::Done(Err(e));
            },
            Ok(p) => p,
        };
        let id = pkt.id();
        match pending {
            DapPending::Idle => DapAction::Done(Err(DapErr::PacketErr)),
            DapPending::Connect(stage) => {
                if id != connect_reply_id(stage) {
                    return DapAction::Done(Err(DapErr::PacketErr));
                }
                self.connect_reply(stage, &pkt)
            },
            DapPending::Disconnect => {
                if id != 0x03 {
                    return DapAction::Done(Err(DapErr::PacketErr));
                }
                match status_check(&pkt) {
                    Err(e) => DapAction::Done(Err(e)),
                    Ok(_) => {
                        self.connection_mode = DapTransportMode::Undefined;
                        DapAction::Done(Ok(0))
                    },
                }
            },
            DapPending::Capabilities => {
                if id != 0x00 {
                    return DapAction::Done(Err(DapErr::PacketErr));
                }
                let c = pkt.content();
                DapAction::Done(Ok(c[1] as u32))
            },
            DapPending::Xfer(cmd) => {
                if id != 0x05 {
                    return DapAction::Done(Err(DapErr::PacketErr));
                }
                match xfer_check(&pkt, &cmd) {
                    Err(e) => DapAction::Done(Err(e)),
                    Ok(resp) => {
                        proof {
                            crate::xfer::lemma_resolve_len(pkt@, cmd.xfers@);
                        }
                        DapAction::Done(Ok(last_data(&resp.data)))
                    },
                }
            },
            DapPending::Command(_, rid) => {
                if id != rid {
                    return DapAction::Done(Err(DapErr::PacketErr));
                }
                DapAction::Done(Ok(0))
            },
        }
    }

    /// The reply to connect stage `stage`, whose ID byte matched.
    fn connect_reply(&mut self, stage: u8, pkt: &DapPacketBuf) -> (a: DapAction)
        requires
            old(self).spec_pending() == PendingView::Idle,
            stage <= CONNECT_LAST_STAGE,
            pkt@.len() >= 1,
            pkt@[0] == spec_connect_reply_id(stage),
            spec_reply_acceptable(PendingView::Connect(stage), pkt@),
        ensures
            spec_follows(
                spec_connect_reply(old(self).spec_mode(), stage, pkt@),
                final(self).spec_mode(),
                final(self).spec_pending(),
                a,
            ),
    {
        if stage == 0 {
            let c = pkt.content();
            match ConnectRespPort::try_from_primitive(c[0]) {
                Err(_) => DapAction::Done(Err(DapErr::PacketErr)),
                Ok(ConnectRespPort::Failed) => DapAction::Done(Err(DapErr::CommandFailed)),
                Ok(ConnectRespPort::Jtag) => DapAction::Done(Err(DapErr::Unimpl)),
                Ok(ConnectRespPort::Swd) => {
                    self.connection_mode = DapTransportMode::Swd;
                    self.pending = DapPending::Connect(1);
                    DapAction::Exchange(connect_stage_packet(1))
                },
            }
        } else if stage == 1 {
            self.pending = DapPending::Connect(2);
            DapAction::Exchange(connect_stage_packet(2))
        } else if stage <= 6 {
            match status_check(pkt) {
                Err(e) => DapAction::Done(Err(e)),
                Ok(_) => {
                    self.pending = DapPending::Connect(stage + 1);
                    DapAction::Exchange(connect_stage_packet(stage + 1))
                },
            }
        } else {
            let cmd = connect_stage_cmd(stage);
            match xfer_check(pkt, &cmd) {
                Err(e) => DapAction::Done(Err(e)),
                Ok(resp) => {
                    if stage < CONNECT_LAST_STAGE {
                        self.pending = DapPending::Connect(stage + 1);
                        DapAction::Exchange(connect_stage_packet(stage + 1))
                    } else {
                        proof {
                            crate::xfer::lemma_resolve_len(pkt@, cmd.xfers@);
                        }
                        let v = last_data(&resp.data);
                        if crate::bits::get_field32(v, 29, 0x1) != 0 && crate::bits::get_field32(
                            v,
                            31,
                            0x1,
                        ) != 0 {
                            DapAction::Done(Ok(0))
                        } else {
                            DapAction::Done(Err(DapErr::CommandFailed))
                        }
                    }
                },
            }
        }
    }
}

/// A transfer operation that succeeds gives the data of the last transfer of
/// its command, as the response fills it in: the word that a final read
/// returns, or the value that a final write wrote.
pub proof fn lemma_xfer_result_is_last(mode: DapTransportMode, dap_idx: u8, xs: Seq<Transfer>, pkt: Seq<u8>)
    requires
        xs.len() >= 1,
    ensures
        spec_resume(mode, PendingView::Xfer(dap_idx, xs), Ok(pkt)) matches StepResult::Finish(_, Ok(v))
            ==> (spec_resolve(pkt, xs) matches Ok((_, ys)) && ys.len() == xs.len() && v == (match ys[xs.len()
            - 1].data {
            Some(d) => d,
            None => 0,
        })),
{
    crate::xfer::lemma_resolve_len(pkt, xs);
}

} // verus!
