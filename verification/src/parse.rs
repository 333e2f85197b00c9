//! Reading CMSIS-DAP transfers out of captured USB traffic, and tracking the
//! DP/AP state that the captured writes set up.

use vstd::prelude::*;
use crate::bits::{
    field8, with_field8, field32_u8, with_field32_u8, le_bytes32, le_value32_at, le32_value_at,
    lemma_le32_roundtrip,
};
use crate::packet::{DapCommand, DapPacketBuf};
use crate::xfer::{
    Transfer, TransferCmd, TransferKind, TransferReqCtl, TransferResp, TransferRespUnresolved,
    TransferTarget, XferErr, spec_req_kind, spec_req_target, spec_resolve, spec_resolve_defined,
    spec_xfer_bytes, spec_xfers_bytes, spec_xfers_size, lemma_xfers_bytes_len, TransferAccessKind,
    spec_dp_write, spec_ap_read, spec_ap_write, lemma_req_byte_fields, spec_req_byte,
    lemma_resolve_keeps_requests,
};
use crate::dp::{
    DpRegister, DpSelect, DpState, spec_dp_from_address, spec_dp_word, spec_dpbanksel,
    lemma_dp_register_address_roundtrip,
};
use crate::mem_ap::{
    MemApRegister, MemApState, spec_memapregister_from, spec_memapregister_value,
    lemma_memapregister_roundtrip, lemma_mem_ap_offsets_aligned,
};
use crate::ap::lemma_ap_reg_off_roundtrip;
use crate::proto::{
    DpOp, MemApBusOp, MemApOp, spec_dp_op_seq, spec_mem_ap_bus_op_seq, spec_mem_ap_op_seq,
    spec_select_ap, spec_select_dp_bank,
};
use crate::xfer::TransferSequence;
use crate::component::{
    Armv8ExtDbgReg, CtiRegister, spec_armv8extdbgreg_from, spec_ctiregister_from,
};
use crate::dap::XferQueue;

verus! {

/// The endpoints of the probe's CMSIS-DAP interface (OUT 0x04, IN 0x85).
pub open spec fn spec_is_probe_endpoint(ep: u8) -> bool {
    ep == 0x04 || ep == 0x85
}

/// Whether a captured record belongs to the probe's CMSIS-DAP endpoints.
pub fn is_probe_endpoint(ep: u8) -> (r: bool)
    ensures
        r == spec_is_probe_endpoint(ep),
{
    ep == 0x04 || ep == 0x85
}

/// A kind of CoreSight component in the target's debug memory map.
#[derive(Clone, Copy, Debug, PartialEq, Eq, Structural)]
pub enum Component {
    ExtDbg,
    Cti,
    Pmu,
    Etm,
    Unk(u32),
}

/// The target's debug memory map: four cores, each with an external debug
/// block, a CTI, a PMU and an ETM at 0x8001_0000 + core * 0x10_0000.
pub struct MemoryMap;

/// The component at the 64 KiB block holding `addr`.
pub open spec fn spec_resolve_component(addr: u32) -> Component {
    let blk = addr & 0xffff_0000;
    if blk == 0x8001_0000 || blk == 0x8011_0000 || blk == 0x8021_0000 || blk == 0x8031_0000 {
        Component::ExtDbg
    } else if blk == 0x8002_0000 || blk == 0x8012_0000 || blk == 0x8022_0000 || blk == 0x8032_0000 {
        Component::Cti
    } else if blk == 0x8003_0000 || blk == 0x8013_0000 || blk == 0x8023_0000 || blk == 0x8033_0000 {
        Component::Pmu
    } else if blk == 0x8004_0000 || blk == 0x8014_0000 || blk == 0x8024_0000 || blk == 0x8034_0000 {
        Component::Etm
    } else {
        Component::Unk(addr)
    }
}

/// A component register named by its address.
#[derive(Clone, Copy, Debug, PartialEq, Eq, Structural)]
pub enum ComponentRegName {
    ExtDbg(Armv8ExtDbgReg),
    Cti(CtiRegister),
    /// A PMU register, by its offset.
    Pmu(u16),
    /// An ETM register, by its offset.
    Etm(u16),
    /// An address outside the known components.
    Unk(u32),
}

/// The register at `addr`: its component and its offset (low 16 bits).
pub open spec fn spec_component_reg(addr: u32) -> ComponentRegName {
    let off = (addr & 0xffff) as u16;
    match spec_resolve_component(addr) {
        Component::ExtDbg => ComponentRegName::ExtDbg(spec_armv8extdbgreg_from(off)),
        Component::Cti => ComponentRegName::Cti(spec_ctiregister_from(off)),
        Component::Pmu => ComponentRegName::Pmu(off),
        Component::Etm => ComponentRegName::Etm(off),
        Component::Unk(a) => ComponentRegName::Unk(a),
    }
}

impl MemoryMap {
    pub fn resolve_component(addr: u32) -> (r: Component)
        ensures
            r == spec_resolve_component(addr),
    {
        let blk = addr & 0xffff_0000;
        if blk == 0x8001_0000 || blk == 0x8011_0000 || blk == 0x8021_0000 || blk == 0x8031_0000 {
            Component::ExtDbg
        } else if blk == 0x8002_0000 || blk == 0x8012_0000 || blk == 0x8022_0000 || blk
            == 0x8032_0000 {
            Component::Cti
        } else if blk == 0x8003_0000 || blk == 0x8013_0000 || blk == 0x8023_0000 || blk
            == 0x8033_0000 {
            Component::Pmu
        } else if blk == 0x8004_0000 || blk == 0x8014_0000 || blk == 0x8024_0000 || blk
            == 0x8034_0000 {
            Component::Etm
        } else {
            Component::Unk(addr)
        }
    }

    /// The register at `addr`.
    pub fn component_reg(addr: u32) -> (r: ComponentRegName)
        ensures
            r == spec_component_reg(addr),
    {
        let off = (addr & 0xffff) as u16;
        match Self::resolve_component(addr) {
            Component::ExtDbg => ComponentRegName::ExtDbg(Armv8ExtDbgReg::from_primitive(off)),
            Component::Cti => ComponentRegName::Cti(CtiRegister::from_primitive(off)),
            Component::Pmu => ComponentRegName::Pmu(off),
            Component::Etm => ComponentRegName::Etm(off),
            Component::Unk(a) => ComponentRegName::Unk(a),
        }
    }
}

/// Errors in reading captured traffic.
#[derive(Clone, Copy, Debug, PartialEq, Eq, Structural)]
pub enum CaptureErr {
    /// A transfer request whose bits name no transfer kind.
    UnknownKind,
    /// An AP register offset that names no MEM-AP register.
    NotMemApRegister(u8),
    /// A transfer response that cannot be resolved.
    Xfer(XferErr),
}

/// The result of reading the transfers of a captured transfer command.
pub enum ParseOutcome {
    /// The transfers, and the position after them.
    Parsed(Seq<Transfer>, int),
    /// A request byte that names no transfer kind.
    UnknownKind,
    /// The content ends within a transfer.
    Short,
}

/// Reads the first `n` transfers of the content `c` of a transfer command
/// (after the DAP index and count bytes): each is a request byte, followed
/// by four data bytes (little-endian) for a write.
pub open spec fn spec_parse_xfers(c: Seq<u8>, n: nat) -> ParseOutcome
    decreases n,
{
    if n == 0 {
        ParseOutcome::Parsed(Seq::empty(), 2)
    } else {
        match spec_parse_xfers(c, (n - 1) as nat) {
            ParseOutcome::Parsed(xs, cur) => if cur >= c.len() {
                ParseOutcome::Short
            } else {
                match spec_req_kind(c[cur]) {
                    None => ParseOutcome::UnknownKind,
                    Some(TransferKind::Read) => ParseOutcome::Parsed(
                        xs.push(Transfer { req: TransferReqCtl(c[cur]), data: None }),
                        cur + 1,
                    ),
                    Some(TransferKind::ReadMatch) => ParseOutcome::Parsed(
                        xs.push(Transfer { req: TransferReqCtl(c[cur]), data: None }),
                        cur + 1,
                    ),
                    Some(_) => if cur + 5 > c.len() {
                        ParseOutcome::Short
                    } else {
                        ParseOutcome::Parsed(
                            xs.push(
                                Transfer {
                                    req: TransferReqCtl(c[cur]),
                                    data: Some(le_value32_at(c, cur + 1)),
                                },
                            ),
                            cur + 5,
                        )
                    },
                }
            },
            other => other,
        }
    }
}

proof fn lemma_parse_stops(c: Seq<u8>, k: nat, n: nat)
    requires
        k <= n,
        !(spec_parse_xfers(c, k) is Parsed),
    ensures
        spec_parse_xfers(c, n) == spec_parse_xfers(c, k),
    decreases n - k,
{
    if k < n {
        lemma_parse_stops(c, k, (n - 1) as nat);
    }
}

proof fn lemma_parse_shape(c: Seq<u8>, n: nat)
    requires
        c.len() >= 2,
    ensures
        spec_parse_xfers(c, n) matches ParseOutcome::Parsed(xs, cur) ==> xs.len() == n && 2 <= cur
            <= c.len(),
    decreases n,
{
    if n > 0 {
        lemma_parse_shape(c, (n - 1) as nat);
    }
}

/// The captured transfer command packets that can be read without running
/// past their end.
pub open spec fn spec_parse_defined(pkt: Seq<u8>) -> bool {
    &&& pkt.len() >= 3
    &&& !(spec_parse_xfers(pkt.subrange(1, pkt.len() as int), pkt[2] as nat) is Short)
}

/// The command a captured transfer command packet holds, or why it holds
/// none.
pub open spec fn spec_parse_transfercmd(pkt: Seq<u8>) -> Result<(u8, Seq<Transfer>), CaptureErr> {
    match spec_parse_xfers(pkt.subrange(1, pkt.len() as int), pkt[2] as nat) {
        ParseOutcome::Parsed(xs, _) => Ok((pkt[1], xs)),
        _ => Err(CaptureErr::UnknownKind),
    }
}

/// Reads the transfers of a captured transfer command from its content `c`:
/// `None` when the content ends within a transfer.
fn read_xfers(c: &[u8]) -> (r: Option<Result<Vec<Transfer>, CaptureErr>>)
    requires
        c@.len() >= 2,
    ensures
        match r {
            None => spec_parse_xfers(c@, c@[1] as nat) is Short,
            Some(Err(e)) => e == CaptureErr::UnknownKind && spec_parse_xfers(c@, c@[1] as nat) is UnknownKind,
            Some(Ok(xs)) => spec_parse_xfers(c@, c@[1] as nat) matches ParseOutcome::Parsed(ys, _) && ys == xs@,
        },
{
    let tx_cnt = c[1];
    let mut cur: usize = 2;
    let mut xfers: Vec<Transfer> = Vec::new();
    let mut i: u8 = 0;
    while i < tx_cnt
        invariant
            c@.len() >= 2,
            tx_cnt == c@[1],
            i <= tx_cnt,
            spec_parse_xfers(c@, i as nat) == ParseOutcome::Parsed(xfers@, cur as int),
        decreases tx_cnt - i,
    {
        proof {
            lemma_parse_shape(c@, i as nat);
            lemma_parse_shape(c@, (i + 1) as nat);
        }
        if cur >= c.len() {
            proof {
                lemma_parse_stops(c@, (i + 1) as nat, tx_cnt as nat);
            }
            return None;
        }
        let req = TransferReqCtl(c[cur]);
        let kind = req.kind();
        match kind {
            None => {
                proof {
                    lemma_parse_stops(c@, (i + 1) as nat, tx_cnt as nat);
                }
                return Some(Err(CaptureErr::UnknownKind));
            },
            Some(TransferKind::Read) | Some(TransferKind::ReadMatch) => {
                xfers.push(Transfer::new(req));
                cur = cur + 1;
            },
            Some(TransferKind::Write) | Some(TransferKind::WriteMatchMask) => {
                if c.len() - cur < 5 {
                    proof {
                        lemma_parse_stops(c@, (i + 1) as nat, tx_cnt as nat);
                    }
                    return None;
                }
                let val = le32_value_at(c, cur + 1);
                xfers.push(Transfer::new_with_data(req, val));
                cur = cur + 5;
            },
        }
        i = i + 1;
    }
    Some(Ok(xfers))
}

/// What applying a transfer did to the tracked DP/AP state.
#[derive(Clone, Copy, Debug, PartialEq, Eq, Structural)]
pub enum WriteEffect {
    /// A read: nothing to apply.
    NoWrite,
    /// A write to the match mask, which is not tracked.
    MatchMaskUntracked,
    /// A write of this value to DP SELECT, now tracked.
    DpSelect(u32),
    /// A write of a value to another DP register, which is not tracked.
    DpUntracked(DpRegister, u32),
    /// A write of this value to the MEM-AP's TAR (low word), now tracked.
    TarLo(u32),
    /// A write of a value to another MEM-AP register, which is not tracked.
    ApUntracked(MemApRegister, u32),
}

/// The register a transfer accesses.
#[derive(Clone, Copy, Debug, PartialEq, Eq, Structural)]
pub enum XferReg {
    Dp(DpRegister),
    Ap(MemApRegister),
}

/// What is known of one resolved transfer, after it was applied.
#[derive(Clone, Copy, Debug, PartialEq, Eq, Structural)]
pub struct XferRecord {
    pub effect: WriteEffect,
    pub target: TransferTarget,
    /// APSEL of DP SELECT after the transfer.
    pub apsel: u8,
    pub kind: TransferKind,
    pub reg: XferReg,
    pub data: Option<u32>,
    /// The target address that the transfer concerns, where it names one: the
    /// address written to TAR, or the address a banked data register reaches.
    pub ctx_addr: Option<u32>,
}

/// The byte offset of the AP register that request byte `req` reaches when
/// DP SELECT holds `select`.
pub open spec fn spec_ap_off(req: u8, select: u32) -> u8 {
    with_field8(with_field8(0, 2, 0x3, field8(req, 2, 0x3)), 4, 0xf, field32_u8(select, 4, 0xf))
}

/// The DP register that request byte `req` reaches when DP SELECT holds `select`.
pub open spec fn spec_dp_reg(req: u8, select: u32) -> DpRegister {
    spec_dp_from_address(field8(req, 2, 0x3), field32_u8(select, 0, 0xf) as usize)
}

/// A DP write of `x`: DP SELECT is tracked, other registers are not.
pub open spec fn spec_apply_dp_write(dp: DpState, x: Transfer) -> (DpState, WriteEffect) {
    let val = x.data->0;
    let reg = spec_dp_reg(x.req.0, dp.select.0);
    if reg == DpRegister::SELECT {
        (DpState { ctrlstat: dp.ctrlstat, select: DpSelect(val) }, WriteEffect::DpSelect(val))
    } else {
        (dp, WriteEffect::DpUntracked(reg, val))
    }
}

/// An AP write of `x`, taking the AP to be a MEM-AP: TAR (low word) is
/// tracked, other registers are not; an offset that names no MEM-AP register
/// is refused.
pub open spec fn spec_apply_ap_write(dp: DpState, memap: MemApState, x: Transfer) -> Result<
    (MemApState, WriteEffect),
    CaptureErr,
> {
    let val = x.data->0;
    let off = spec_ap_off(x.req.0, dp.select.0);
    match spec_memapregister_from(off) {
        None => Err(CaptureErr::NotMemApRegister(off)),
        Some(MemApRegister::TAR_LO) => Ok((MemApState { tar_lo: val }, WriteEffect::TarLo(val))),
        Some(reg) => Ok((memap, WriteEffect::ApUntracked(reg, val))),
    }
}

/// Applying transfer `x` to the tracked state: writes go to the DP or the AP
/// by their target; reads change nothing.
pub open spec fn spec_apply_write(dp: DpState, memap: MemApState, x: Transfer) -> Result<
    (DpState, MemApState, WriteEffect),
    CaptureErr,
> {
    match spec_req_kind(x.req.0) {
        None => Err(CaptureErr::UnknownKind),
        Some(TransferKind::Read) => Ok((dp, memap, WriteEffect::NoWrite)),
        Some(TransferKind::ReadMatch) => Ok((dp, memap, WriteEffect::NoWrite)),
        Some(TransferKind::WriteMatchMask) => Ok((dp, memap, WriteEffect::MatchMaskUntracked)),
        Some(TransferKind::Write) => if spec_req_target(x.req.0) == TransferTarget::DP {
            let (dp2, eff) = spec_apply_dp_write(dp, x);
            Ok((dp2, memap, eff))
        } else {
            match spec_apply_ap_write(dp, memap, x) {
                Ok((m2, eff)) => Ok((dp, m2, eff)),
                Err(e) => Err(e),
            }
        },
    }
}

/// The register transfer `x` reaches, taking an AP to be a MEM-AP.
pub open spec fn spec_xfer_register(dp: DpState, x: Transfer) -> Result<XferReg, CaptureErr> {
    if spec_req_target(x.req.0) == TransferTarget::DP {
        Ok(XferReg::Dp(spec_dp_reg(x.req.0, dp.select.0)))
    } else {
        let off = spec_ap_off(x.req.0, dp.select.0);
        match spec_memapregister_from(off) {
            Some(reg) => Ok(XferReg::Ap(reg)),
            None => Err(CaptureErr::NotMemApRegister(off)),
        }
    }
}

/// The target address an AP transfer `x` concerns: what it moves through TAR,
/// or TAR plus the offset of the banked data register it reaches.
pub open spec fn spec_ctx_addr(dp: DpState, memap: MemApState, x: Transfer) -> Result<
    Option<u32>,
    CaptureErr,
> {
    if spec_req_kind(x.req.0) is None {
        Err(CaptureErr::UnknownKind)
    } else if spec_req_target(x.req.0) != TransferTarget::AP {
        Ok(None)
    } else {
        let off = spec_ap_off(x.req.0, dp.select.0);
        match spec_memapregister_from(off) {
            None => Err(CaptureErr::NotMemApRegister(off)),
            Some(MemApRegister::TAR_LO) => Ok(Some(x.data->0)),
            Some(MemApRegister::BD0) => Ok(Some(memap.tar_lo)),
            Some(MemApRegister::BD1) => Ok(Some((memap.tar_lo + 0x4) as u32)),
            Some(MemApRegister::BD2) => Ok(Some((memap.tar_lo + 0x8) as u32)),
            Some(MemApRegister::BD3) => Ok(Some((memap.tar_lo + 0xc) as u32)),
            Some(_) => Ok(None),
        }
    }
}

/// The transfers whose context address can be worked out: one through TAR
/// carries its data, and a banked data register's address stays below 2^32.
pub open spec fn spec_ctx_defined(dp: DpState, memap: MemApState, x: Transfer) -> bool {
    spec_req_target(x.req.0) == TransferTarget::AP ==> match spec_memapregister_from(
        spec_ap_off(x.req.0, dp.select.0),
    ) {
        Some(MemApRegister::TAR_LO) => x.data is Some,
        Some(MemApRegister::BD1) => memap.tar_lo + 0x4 <= u32::MAX,
        Some(MemApRegister::BD2) => memap.tar_lo + 0x8 <= u32::MAX,
        Some(MemApRegister::BD3) => memap.tar_lo + 0xc <= u32::MAX,
        _ => true,
    }
}

/// Recording transfer `x`: apply it, then name its register and its context
/// address under the new state.
pub open spec fn spec_record(dp: DpState, memap: MemApState, x: Transfer) -> Result<
    (DpState, MemApState, XferRecord),
    CaptureErr,
> {
    match spec_apply_write(dp, memap, x) {
        Err(e) => Err(e),
        Ok((dp2, m2, eff)) => match spec_xfer_register(dp2, x) {
            Err(e) => Err(e),
            Ok(reg) => match spec_ctx_addr(dp2, m2, x) {
                Err(e) => Err(e),
                Ok(ctx) => Ok(
                    (
                        dp2,
                        m2,
                        XferRecord {
                            effect: eff,
                            target: spec_req_target(x.req.0),
                            apsel: field32_u8(dp2.select.0, 24, 0xff),
                            kind: spec_req_kind(x.req.0)->0,
                            reg,
                            data: x.data,
                            ctx_addr: ctx,
                        },
                    ),
                ),
            },
        },
    }
}

/// The transfers that can be recorded: a write carries its data, and the
/// context address can be worked out once the write is applied.
pub open spec fn spec_record_defined(dp: DpState, memap: MemApState, x: Transfer) -> bool {
    &&& spec_req_kind(x.req.0) == Some(TransferKind::Write) ==> x.data is Some
    &&& spec_apply_write(dp, memap, x) matches Ok((dp2, m2, _)) ==> spec_ctx_defined(dp2, m2, x)
}

/// State used for reading captured transactions.
pub struct State {
    /// Queue of pending transfers
    pub txq: XferQueue,
    pub dp: DpState,
    pub memap: MemApState,
}

impl State {
    /// An empty queue and all tracked registers zero.
    pub fn new() -> (r: Self)
        ensures
            r.txq@ == Seq::<(u8, Seq<Transfer>)>::empty(),
            r.dp.ctrlstat.0 == 0,
            r.dp.select.0 == 0,
            r.memap.tar_lo == 0,
    {
        Self { txq: XferQueue::new(), dp: DpState::new(), memap: MemApState::new() }
    }

    /// Whether `parse_transfercmd` can read `pkt` without running past its end.
    pub fn transfercmd_readable(pkt: &DapPacketBuf) -> (r: bool)
        ensures
            r == spec_parse_defined(pkt@),
    {
        if pkt.len() < 3 {
            return false;
        }
        let content = pkt.content();
        read_xfers(content).is_some()
    }

    /// The transfer command in a captured transfer command packet: the DAP
    /// index, the count, then each transfer's request byte and, for a write,
    /// its data.
    pub fn parse_transfercmd(pkt: &DapPacketBuf) -> (r: Result<TransferCmd, CaptureErr>)
        requires
            spec_parse_defined(pkt@),
        ensures
            match r {
                Ok(cmd) => spec_parse_transfercmd(pkt@) == Ok::<(u8, Seq<Transfer>), CaptureErr>(
                    (cmd.dap_idx, cmd.xfers@),
                ),
                Err(e) => spec_parse_transfercmd(pkt@) == Err::<(u8, Seq<Transfer>), CaptureErr>(e),
            },
    {
        let content = pkt.content();
        let dap_idx = content[0];
        match read_xfers(content) {
            Some(Ok(xfers)) => Ok(TransferCmd { dap_idx, xfers }),
            Some(Err(e)) => Err(e),
            None => Err(CaptureErr::UnknownKind),
        }
    }

    /// A captured transfer command: its command joins the queue of those
    /// waiting for a response.
    pub fn handle_xfer_tx(&mut self, pkt: &DapPacketBuf) -> (r: Result<TransferCmd, CaptureErr>)
        requires
            spec_parse_defined(pkt@),
        ensures
            match r {
                Ok(cmd) => {
                    &&& spec_parse_transfercmd(pkt@) == Ok::<(u8, Seq<Transfer>), CaptureErr>(
                        (cmd.dap_idx, cmd.xfers@),
                    )
                    &&& final(self).txq@ == old(self).txq@.push((cmd.dap_idx, cmd.xfers@))
                },
                Err(e) => {
                    &&& spec_parse_transfercmd(pkt@) == Err::<(u8, Seq<Transfer>), CaptureErr>(e)
                    &&& final(self).txq@ == old(self).txq@
                },
            },
            final(self).dp == old(self).dp,
            final(self).memap == old(self).memap,
    {
        let cmd = Self::parse_transfercmd(pkt);
        match cmd {
            Ok(cmd) => {
                self.txq.push(&cmd);
                Ok(cmd)
            },
            Err(e) => Err(e),
        }
    }

    /// A captured transfer response: it answers the command at the front of
    /// the queue, which leaves the queue; the response is resolved against
    /// it, and the resolved transfers are then applied to the tracked DP/AP
    /// state one after the other (see `record_all`). When resolving fails,
    /// nothing is applied.
    pub fn handle_xfer_rx(&mut self, pkt: &DapPacketBuf) -> (r: Result<(TransferResp, RecordRun), CaptureErr>)
        requires
            old(self).txq@.len() > 0,
            spec_resolve_defined(pkt@, old(self).txq@[0].1),
            spec_resolve(pkt@, old(self).txq@[0].1) matches Ok((_, ys)) ==> spec_run_defined(
                old(self).dp,
                old(self).memap,
                ys,
            ),
        ensures
            final(self).txq@ == old(self).txq@.drop_first(),
            match r {
                Ok((resp, run)) => {
                    &&& spec_resolve(pkt@, old(self).txq@[0].1) == Ok::<(u8, Seq<Transfer>), XferErr>(
                        (resp.ctl.spec_bits(), resp.data@),
                    )
                    &&& (final(self).dp, final(self).memap, run.records@, run.error) == spec_record_run(
                        old(self).dp,
                        old(self).memap,
                        resp.data@,
                    )
                    &&& run.error is None ==> spec_record_all(old(self).dp, old(self).memap, resp.data@)
                        == Ok::<(DpState, MemApState, Seq<XferRecord>), CaptureErr>(
                        (final(self).dp, final(self).memap, run.records@),
                    )
                    &&& run.error matches Some(e) ==> spec_record_all(
                        old(self).dp,
                        old(self).memap,
                        resp.data@,
                    ) == Err::<(DpState, MemApState, Seq<XferRecord>), CaptureErr>(e)
                },
                Err(e) => {
                    &&& exists|x: XferErr|
                        e == CaptureErr::Xfer(x) && spec_resolve(pkt@, old(self).txq@[0].1) == Err::<
                            (u8, Seq<Transfer>),
                            XferErr,
                        >(x)
                    &&& final(self).dp == old(self).dp
                    &&& final(self).memap == old(self).memap
                },
            },
    {
        let uresp = TransferRespUnresolved { pkt: *pkt };
        let cmd = self.txq.pop();
        match cmd {
            Some(cmd) => match uresp.resolve(&cmd) {
                Ok(resp) => {
                    let run = self.record_all(resp.data.as_slice());
                    Ok((resp, run))
                },
                Err(x) => Err(CaptureErr::Xfer(x)),
            },
            None => Err(CaptureErr::Xfer(XferErr::ParseErr)),
        }
    }
}

/// The offset of the AP register an AP transfer reaches when DP SELECT holds
/// `select`.
fn ap_off(xfer: &Transfer, select: DpSelect) -> (r: u8)
    requires
        spec_req_target(xfer.req.0) == TransferTarget::AP,
    ensures
        r == spec_ap_off(xfer.req.0, select.0),
{
    match xfer.resolve_ap_register_offset(select.apbanksel()) {
        Some(off) => off.0,
        None => 0,
    }
}

impl State {

    /// A DP write: a write to SELECT is tracked, any other is reported.
    pub fn apply_dp_write(&mut self, xfer: &Transfer) -> (r: WriteEffect)
        requires
            xfer.data is Some,
        ensures
            (final(self).dp, r) == spec_apply_dp_write(old(self).dp, *xfer),
            final(self).memap == old(self).memap,
            final(self).txq@ == old(self).txq@,
    {
        let val = match xfer.data {
            Some(v) => v,
            None => 0,
        };
        let reg = DpRegister::from_address(xfer.req.word_idx(), self.dp.select.dpbanksel() as usize);
        match reg {
            DpRegister::SELECT => {
                self.dp.select = DpSelect::from(val);
                WriteEffect::DpSelect(val)
            },
            _ => WriteEffect::DpUntracked(reg, val),
        }
    }

    /// An AP write, taking the AP to be a MEM-AP: a write to TAR (low word) is
    /// tracked, any other is reported.
    pub fn apply_ap_write(&mut self, xfer: &Transfer) -> (r: Result<WriteEffect, CaptureErr>)
        requires
            xfer.data is Some,
            spec_req_target(xfer.req.0) == TransferTarget::AP,
        ensures
            match r {
                Ok(eff) => spec_apply_ap_write(old(self).dp, old(self).memap, *xfer) == Ok::<
                    (MemApState, WriteEffect),
                    CaptureErr,
                >((final(self).memap, eff)),
                Err(e) => spec_apply_ap_write(old(self).dp, old(self).memap, *xfer) == Err::<
                    (MemApState, WriteEffect),
                    CaptureErr,
                >(e) && final(self).memap == old(self).memap,
            },
            final(self).dp == old(self).dp,
            final(self).txq@ == old(self).txq@,
    {
        let val = match xfer.data {
            Some(v) => v,
            None => 0,
        };
        let off = ap_off(xfer, self.dp.select);
        match MemApRegister::try_from_primitive(off) {
            None => Err(CaptureErr::NotMemApRegister(off)),
            Some(MemApRegister::TAR_LO) => {
                self.memap.tar_lo = val;
                Ok(WriteEffect::TarLo(val))
            },
            Some(reg) => Ok(WriteEffect::ApUntracked(reg, val)),
        }
    }

    /// Apply transfer `xfer` to the tracked DP/AP state.
    pub fn apply_write(&mut self, xfer: &Transfer) -> (r: Result<WriteEffect, CaptureErr>)
        requires
            spec_req_kind(xfer.req.0) == Some(TransferKind::Write) ==> xfer.data is Some,
        ensures
            match r {
                Ok(eff) => spec_apply_write(old(self).dp, old(self).memap, *xfer) == Ok::<
                    (DpState, MemApState, WriteEffect),
                    CaptureErr,
                >((final(self).dp, final(self).memap, eff)),
                Err(e) => spec_apply_write(old(self).dp, old(self).memap, *xfer) == Err::<
                    (DpState, MemApState, WriteEffect),
                    CaptureErr,
                >(e) && final(self).dp == old(self).dp && final(self).memap == old(self).memap,
            },
            final(self).txq@ == old(self).txq@,
    {
        match xfer.req.kind() {
            None => Err(CaptureErr::UnknownKind),
            Some(TransferKind::Read) | Some(TransferKind::ReadMatch) => Ok(WriteEffect::NoWrite),
            Some(TransferKind::WriteMatchMask) => Ok(WriteEffect::MatchMaskUntracked),
            Some(TransferKind::Write) => {
                if xfer.req.target() == TransferTarget::DP {
                    Ok(self.apply_dp_write(xfer))
                } else {
                    self.apply_ap_write(xfer)
                }
            },
        }
    }

    /// The register `xfer` reaches under the tracked state, taking an AP to
    /// be a MEM-AP.
    pub fn xfer_register(&self, xfer: &Transfer) -> (r: Result<XferReg, CaptureErr>)
        ensures
            r == spec_xfer_register(self.dp, *xfer),
    {
        if xfer.req.target() == TransferTarget::DP {
            Ok(XferReg::Dp(DpRegister::from_address(xfer.req.word_idx(), self.dp.select.dpbanksel() as usize)))
        } else {
            let off = ap_off(xfer, self.dp.select);
            match MemApRegister::try_from_primitive(off) {
                Some(reg) => Ok(XferReg::Ap(reg)),
                None => Err(CaptureErr::NotMemApRegister(off)),
            }
        }
    }

    /// The target address an AP transfer concerns, under the tracked state.
    pub fn xfer_ctx_addr(&self, xfer: &Transfer) -> (r: Result<Option<u32>, CaptureErr>)
        requires
            spec_ctx_defined(self.dp, self.memap, *xfer),
        ensures
            r == spec_ctx_addr(self.dp, self.memap, *xfer),
    {
        if xfer.req.kind().is_none() {
            return Err(CaptureErr::UnknownKind);
        }
        if xfer.req.target() != TransferTarget::AP {
            return Ok(None);
        }
        let off = ap_off(xfer, self.dp.select);
        let tar = self.memap.tar_lo;
        match MemApRegister::try_from_primitive(off) {
            None => Err(CaptureErr::NotMemApRegister(off)),
            Some(MemApRegister::TAR_LO) => match xfer.data {
                Some(v) => Ok(Some(v)),
                None => Ok(None),
            },
            Some(MemApRegister::BD0) => Ok(Some(tar)),
            Some(MemApRegister::BD1) => Ok(Some(tar + 0x4)),
            Some(MemApRegister::BD2) => Ok(Some(tar + 0x8)),
            Some(MemApRegister::BD3) => Ok(Some(tar + 0xc)),
            Some(_) => Ok(None),
        }
    }

    /// Whether `record_xfer` can take `xfer` in the present state.
    pub fn record_defined(&self, xfer: &Transfer) -> (r: bool)
        ensures
            r == spec_record_defined(self.dp, self.memap, *xfer),
    {
        let kind = xfer.req.kind();
        if let Some(TransferKind::Write) = kind {
            if xfer.data.is_none() {
                return false;
            }
        }
        let mut dp = self.dp;
        let mut memap = self.memap;
        match kind {
            Some(TransferKind::Write) => {
                if xfer.req.target() == TransferTarget::DP {
                    let reg = DpRegister::from_address(xfer.req.word_idx(), dp.select.dpbanksel() as usize);
                    if reg == DpRegister::SELECT {
                        if let Some(v) = xfer.data {
                            dp.select = DpSelect(v);
                        }
                    }
                } else {
                    let off = ap_off(xfer, self.dp.select);
                    match MemApRegister::try_from_primitive(off) {
                        None => return true,
                        Some(MemApRegister::TAR_LO) => {
                            if let Some(v) = xfer.data {
                                memap.tar_lo = v;
                            }
                        },
                        Some(_) => {},
                    }
                }
            },
            None => return true,
            _ => {},
        }
        if xfer.req.target() != TransferTarget::AP {
            return true;
        }
        let off = ap_off(xfer, dp.select);
        let tar = memap.tar_lo;
        match MemApRegister::try_from_primitive(off) {
            Some(MemApRegister::TAR_LO) => xfer.data.is_some(),
            Some(MemApRegister::BD1) => tar <= 0xffff_fffb,
            Some(MemApRegister::BD2) => tar <= 0xffff_fff7,
            Some(MemApRegister::BD3) => tar <= 0xffff_fff3,
            _ => true,
        }
    }

    /// Record a resolved transfer: apply it to the tracked state, then name
    /// the register it reached and the address it concerns.
    pub fn record_xfer(&mut self, xfer: &Transfer) -> (r: Result<XferRecord, CaptureErr>)
        requires
            spec_record_defined(old(self).dp, old(self).memap, *xfer),
        ensures
            match r {
                Ok(rec) => spec_record(old(self).dp, old(self).memap, *xfer) == Ok::<
                    (DpState, MemApState, XferRecord),
                    CaptureErr,
                >((final(self).dp, final(self).memap, rec)),
                Err(e) => spec_record(old(self).dp, old(self).memap, *xfer) == Err::<
                    (DpState, MemApState, XferRecord),
                    CaptureErr,
                >(e) && final(self).dp == old(self).dp && final(self).memap == old(self).memap,
            },
            final(self).txq@ == old(self).txq@,
    {
        let effect = match self.apply_write(xfer) {
            Ok(eff) => eff,
            Err(e) => return Err(e),
        };
        let reg = match self.xfer_register(xfer) {
            Ok(reg) => reg,
            Err(e) => return Err(e),
        };
        let ctx_addr = match self.xfer_ctx_addr(xfer) {
            Ok(a) => a,
            Err(e) => return Err(e),
        };
        let kind = match xfer.req.kind() {
            Some(k) => k,
            None => TransferKind::Read,
        };
        Ok(
            XferRecord {
                effect,
                target: xfer.req.target(),
                apsel: self.dp.select.apsel(),
                kind,
                reg,
                data: xfer.data,
                ctx_addr,
            },
        )
    }
}

/// A transfer as a transfer command carries it: its request bits name a
/// kind, and it holds data exactly when it writes.
pub open spec fn spec_xfer_wellformed(t: Transfer) -> bool {
    match spec_req_kind(t.req.0) {
        None => false,
        Some(TransferKind::Read) => t.data is None,
        Some(TransferKind::ReadMatch) => t.data is None,
        Some(TransferKind::Write) => t.data is Some,
        Some(TransferKind::WriteMatchMask) => t.data is Some,
    }
}

proof fn lemma_xfers_bytes_prefix(xs: Seq<Transfer>, k: int)
    requires
        0 <= k <= xs.len(),
    ensures
        spec_xfers_bytes(xs.take(k)).len() <= spec_xfers_bytes(xs).len(),
        forall|i: int|
            0 <= i < spec_xfers_bytes(xs.take(k)).len() ==> spec_xfers_bytes(xs)[i]
                == spec_xfers_bytes(xs.take(k))[i],
    decreases xs.len(),
{
    if k == xs.len() {
        assert(xs.take(k) =~= xs);
    } else {
        lemma_xfers_bytes_prefix(xs.drop_last(), k);
        assert(xs.drop_last().take(k) =~= xs.take(k));
    }
}

proof fn lemma_xfers_size_ge_len(xs: Seq<Transfer>)
    ensures
        spec_xfers_size(xs) >= xs.len(),
    decreases xs.len(),
{
    if xs.len() > 0 {
        lemma_xfers_size_ge_len(xs.drop_last());
    }
}

proof fn lemma_parse_prefix(c: Seq<u8>, d: u8, n: u8, xs: Seq<Transfer>, k: nat)
    requires
        c == seq![d, n] + spec_xfers_bytes(xs),
        k <= xs.len(),
        forall|i: int| 0 <= i < xs.len() ==> spec_xfer_wellformed(#[trigger] xs[i]),
    ensures
        spec_parse_xfers(c, k) == ParseOutcome::Parsed(
            xs.take(k as int),
            2 + spec_xfers_size(xs.take(k as int)) as int,
        ),
    decreases k,
{
    if k == 0 {
        assert(xs.take(0) =~= Seq::<Transfer>::empty());
    } else {
        let j: int = k - 1;
        lemma_parse_prefix(c, d, n, xs, j as nat);
        let p = xs.take(j);
        let t = xs.take(k as int);
        let x = xs[j];
        assert(t.drop_last() =~= p);
        assert(t.last() == x);
        assert(p.push(x) =~= t);
        lemma_xfers_bytes_len(p);
        lemma_xfers_bytes_len(t);
        lemma_xfers_bytes_prefix(xs, k as int);
        let sz = spec_xfers_size(p);
        let cur: int = 2 + sz as int;
        let bt = spec_xfers_bytes(t);
        assert(bt == spec_xfers_bytes(p) + spec_xfer_bytes(x));
        assert(c[cur] == bt[sz as int]);
        assert(spec_xfer_wellformed(xs[j]));
        match x.data {
            Some(v) => {
                assert(c[cur + 1] == le_bytes32(v)[0]);
                assert(c[cur + 2] == le_bytes32(v)[1]);
                assert(c[cur + 3] == le_bytes32(v)[2]);
                assert(c[cur + 4] == le_bytes32(v)[3]);
                lemma_le32_roundtrip(v);
                assert(le_value32_at(c, cur + 1) == v);
            },
            None => {},
        }
    }
}

/// Reading back the packet of a transfer command gives the command: its
/// DAP index and its transfers, when each transfer is as a command carries it.
pub proof fn lemma_transfercmd_roundtrip(cmd: TransferCmd)
    requires
        cmd.spec_packet() is Ok,
        forall|i: int| 0 <= i < cmd.xfers@.len() ==> spec_xfer_wellformed(#[trigger] cmd.xfers@[i]),
    ensures
        spec_parse_defined(cmd.spec_packet()->Ok_0),
        spec_parse_transfercmd(cmd.spec_packet()->Ok_0) == Ok::<(u8, Seq<Transfer>), CaptureErr>(
            (cmd.dap_idx, cmd.xfers@),
        ),
{
    let xs = cmd.xfers@;
    let pkt = cmd.spec_packet()->Ok_0;
    lemma_xfers_size_ge_len(xs);
    let n = xs.len() as u8;
    assert(n == xs.len());
    let c = pkt.subrange(1, pkt.len() as int);
    assert(c =~= seq![cmd.dap_idx, n] + spec_xfers_bytes(xs));
    lemma_parse_prefix(c, cmd.dap_idx, n, xs, xs.len());
    assert(xs.take(xs.len() as int) =~= xs);
    assert(pkt[2] == n);
}

/// Recording the transfers `xs` one after the other from the tracked state
/// `(dp, memap)`: the state after them and their records, or the first error.
pub open spec fn spec_record_all(dp: DpState, memap: MemApState, xs: Seq<Transfer>) -> Result<
    (DpState, MemApState, Seq<XferRecord>),
    CaptureErr,
>
    decreases xs.len(),
{
    if xs.len() == 0 {
        Ok((dp, memap, Seq::empty()))
    } else {
        match spec_record_all(dp, memap, xs.drop_last()) {
            Err(e) => Err(e),
            Ok((d, m, rs)) => match spec_record(d, m, xs.last()) {
                Err(e) => Err(e),
                Ok((d2, m2, r)) => Ok((d2, m2, rs.push(r))),
            },
        }
    }
}

proof fn lemma_record_all_pair(dp: DpState, memap: MemApState, a: Transfer, b: Transfer)
    ensures
        spec_record_all(dp, memap, seq![a, b]) == (match spec_record(dp, memap, a) {
            Err(e) => Err(e),
            Ok((d1, m1, r1)) => match spec_record(d1, m1, b) {
                Err(e) => Err(e),
                Ok((d2, m2, r2)) => Ok((d2, m2, seq![r1, r2])),
            },
        }),
{
    let s1 = seq![a];
    let s2 = seq![a, b];
    assert(s2.drop_last() =~= s1);
    assert(s2.last() == b);
    assert(s1.drop_last() =~= Seq::<Transfer>::empty());
    assert(s1.last() == a);
    assert(spec_record_all(dp, memap, Seq::<Transfer>::empty()) == Ok::<
        (DpState, MemApState, Seq<XferRecord>),
        CaptureErr,
    >((dp, memap, Seq::empty())));
    match spec_record(dp, memap, a) {
        Ok((d1, m1, r1)) => {
            assert(Seq::<XferRecord>::empty().push(r1) =~= seq![r1]);
            assert(spec_record_all(dp, memap, s1) == Ok::<(DpState, MemApState, Seq<XferRecord>), CaptureErr>(
                (d1, m1, seq![r1]),
            ));
            match spec_record(d1, m1, b) {
                Ok((d2, m2, r2)) => {
                    assert(seq![r1].push(r2) =~= seq![r1, r2]);
                },
                Err(_) => {},
            }
        },
        Err(_) => {},
    }
}

proof fn lemma_record_all_concat(dp: DpState, memap: MemApState, xs: Seq<Transfer>, ys: Seq<Transfer>)
    ensures
        spec_record_all(dp, memap, xs + ys) == (match spec_record_all(dp, memap, xs) {
            Err(e) => Err(e),
            Ok((d, m, rs)) => match spec_record_all(d, m, ys) {
                Err(e) => Err(e),
                Ok((d2, m2, rs2)) => Ok((d2, m2, rs + rs2)),
            },
        }),
    decreases ys.len(),
{
    if ys.len() == 0 {
        assert(xs + ys =~= xs);
        match spec_record_all(dp, memap, xs) {
            Ok((d, m, rs)) => {
                assert(rs + Seq::<XferRecord>::empty() =~= rs);
            },
            Err(_) => {},
        }
    } else {
        assert((xs + ys).drop_last() =~= xs + ys.drop_last());
        assert((xs + ys).last() == ys.last());
        lemma_record_all_concat(dp, memap, xs, ys.drop_last());
        match spec_record_all(dp, memap, xs) {
            Ok((d, m, rs)) => {
                match spec_record_all(d, m, ys.drop_last()) {
                    Ok((d1, m1, rs1)) => {
                        match spec_record(d1, m1, ys.last()) {
                            Ok((d2, m2, r)) => {
                                assert((rs + rs1).push(r) =~= rs + rs1.push(r));
                            },
                            Err(_) => {},
                        }
                    },
                    Err(_) => {},
                }
            },
            Err(_) => {},
        }
    }
}

/// What recording the SELECT write and the access of a MEM-AP operation on
/// AP `ap` to register `reg` gives: the SELECT write is named as such, then
/// the access is named `reg` on AP `ap`, and a write of `data` to TAR is
/// tracked.
proof fn lemma_mem_ap_pair(dp: DpState, memap: MemApState, ap: u8, reg: MemApRegister, data: Option<u32>)
    ensures
        ({
            let off = spec_memapregister_value(reg);
            let sel = spec_select_ap(ap, off);
            let x1 = spec_dp_write(DpRegister::SELECT, sel);
            let x2 = match data {
                Some(v) => spec_ap_write(field8(off, 2, 0x3), v),
                None => spec_ap_read(field8(off, 2, 0x3)),
            };
            &&& spec_record(dp, memap, x1) matches Ok((dp1, m1, r1))
            &&& r1.reg == XferReg::Dp(DpRegister::SELECT)
            &&& dp1.select.0 == sel
            &&& m1 == memap
            &&& spec_record(dp1, m1, x2) matches Ok((dp2, m2, r2))
            &&& dp2 == dp1
            &&& r2.reg == XferReg::Ap(reg)
            &&& r2.target == TransferTarget::AP
            &&& r2.apsel == ap
            &&& (reg == MemApRegister::TAR_LO && data is Some) ==> m2.tar_lo == data->0 && r2.ctx_addr == data
            &&& !(reg == MemApRegister::TAR_LO && data is Some) ==> m2 == m1
        }),
{
    let off = spec_memapregister_value(reg);
    let sel = spec_select_ap(ap, off);
    lemma_mem_ap_offsets_aligned(reg);
    lemma_memapregister_roundtrip(reg, off);
    lemma_ap_reg_off_roundtrip(off);
    let w = field8(off, 2, 0x3);
    assert(w <= 3) by (bit_vector)
        requires
            w == (off >> 2u8) & 0x3,
    ;
    lemma_req_byte_fields(TransferTarget::DP, TransferAccessKind::W, 2);
    lemma_req_byte_fields(TransferTarget::AP, TransferAccessKind::W, w);
    lemma_req_byte_fields(TransferTarget::AP, TransferAccessKind::R, w);
    let bank = field8(off, 4, 0xf);
    assert(field32_u8(sel, 24, 0xff) == ap && field32_u8(sel, 4, 0xf) == bank) by (bit_vector)
        requires
            sel == with_field32_u8(with_field32_u8(with_field32_u8(0, 24, 0xff, ap), 0, 0xf, 0), 4, 0xf, bank),
            bank == (off >> 4u8) & 0xf,
    ;
    let x2 = match data {
        Some(v) => spec_ap_write(w, v),
        None => spec_ap_read(w),
    };
    assert(spec_ap_off(x2.req.0, sel) == off);
}

/// The capture reader names the register each MEM-AP operation reaches:
/// recording the operation's transfers, from any tracked state, gives the
/// SELECT write, then the access to the operation's register on its AP; a
/// write to TAR is tracked.
pub proof fn lemma_mem_ap_op_recorded(dp: DpState, memap: MemApState, op: MemApOp)
    ensures
        ({
            let (ap, reg, data) = match op {
                MemApOp::Read { ap, reg } => (ap, reg, None),
                MemApOp::Write { ap, reg, data } => (ap, reg, Some(data)),
            };
            &&& spec_record_all(dp, memap, spec_mem_ap_op_seq(op)) matches Ok((_, m, recs))
            &&& recs.len() == 2
            &&& recs[0].reg == XferReg::Dp(DpRegister::SELECT)
            &&& recs[1].reg == XferReg::Ap(reg)
            &&& recs[1].apsel == ap
            &&& (reg == MemApRegister::TAR_LO && data is Some) ==> m.tar_lo == data->0 && recs[1].ctx_addr
                == data
            &&& !(reg == MemApRegister::TAR_LO && data is Some) ==> m == memap
        }),
{
    match op {
        MemApOp::Read { ap, reg } => {
            lemma_mem_ap_pair(dp, memap, ap, reg, None);
            let off = spec_memapregister_value(reg);
            lemma_record_all_pair(
                dp,
                memap,
                spec_dp_write(DpRegister::SELECT, spec_select_ap(ap, off)),
                spec_ap_read(field8(off, 2, 0x3)),
            );
        },
        MemApOp::Write { ap, reg, data } => {
            lemma_mem_ap_pair(dp, memap, ap, reg, Some(data));
            let off = spec_memapregister_value(reg);
            lemma_record_all_pair(
                dp,
                memap,
                spec_dp_write(DpRegister::SELECT, spec_select_ap(ap, off)),
                spec_ap_write(field8(off, 2, 0x3), data),
            );
        },
    }
}

/// The capture reader sees the bus address of each MEM-AP bus operation:
/// recording its transfers, from any tracked state, names the TAR write with
/// the address as its context, then the DRW access on the operation's AP,
/// and leaves TAR tracked as the address.
pub proof fn lemma_mem_ap_bus_op_recorded(dp: DpState, memap: MemApState, op: MemApBusOp)
    ensures
        ({
            let (ap, addr) = match op {
                MemApBusOp::Read { ap, addr } => (ap, addr),
                MemApBusOp::Write { ap, addr, .. } => (ap, addr),
            };
            &&& spec_record_all(dp, memap, spec_mem_ap_bus_op_seq(op)) matches Ok((_, m, recs))
            &&& recs.len() == 4
            &&& recs[1].reg == XferReg::Ap(MemApRegister::TAR_LO)
            &&& recs[1].ctx_addr == Some(addr)
            &&& recs[3].reg == XferReg::Ap(MemApRegister::DRW)
            &&& recs[3].apsel == ap
            &&& m.tar_lo == addr
        }),
{
    let (ap, addr, second) = match op {
        MemApBusOp::Read { ap, addr } => (ap, addr, MemApOp::Read { ap, reg: MemApRegister::DRW }),
        MemApBusOp::Write { ap, addr, data } => (ap, addr, MemApOp::Write { ap, reg: MemApRegister::DRW, data }),
    };
    let first = MemApOp::Write { ap, reg: MemApRegister::TAR_LO, data: addr };
    assert(spec_mem_ap_bus_op_seq(op) == spec_mem_ap_op_seq(first) + spec_mem_ap_op_seq(second));
    lemma_record_all_concat(dp, memap, spec_mem_ap_op_seq(first), spec_mem_ap_op_seq(second));
    lemma_mem_ap_op_recorded(dp, memap, first);
    let (d1, m1, rs1) = spec_record_all(dp, memap, spec_mem_ap_op_seq(first))->Ok_0;
    lemma_mem_ap_op_recorded(d1, m1, second);
    let (d2, m2, rs2) = spec_record_all(d1, m1, spec_mem_ap_op_seq(second))->Ok_0;
    assert((rs1 + rs2)[1] == rs1[1]);
    assert((rs1 + rs2)[3] == rs2[1]);
}

/// The capture reader names the register each DP operation reaches:
/// recording its transfers, from any tracked state, ends with the access to
/// the operation's register (after the SELECT write of its bank, where it
/// has one).
pub proof fn lemma_dp_op_recorded(dp: DpState, memap: MemApState, op: DpOp)
    requires
        op.seq_defined(),
    ensures
        ({
            let reg = match op {
                DpOp::Read { reg } => reg,
                DpOp::Write { reg, .. } => reg,
            };
            &&& spec_record_all(dp, memap, spec_dp_op_seq(op)) matches Ok((_, _, recs))
            &&& recs.len() == spec_dp_op_seq(op).len()
            &&& recs.last().reg == XferReg::Dp(reg)
            &&& recs.last().target == TransferTarget::DP
        }),
{
    let (reg, acc, data) = match op {
        DpOp::Read { reg } => (reg, TransferAccessKind::R, None),
        DpOp::Write { reg, data } => (reg, TransferAccessKind::W, Some(data)),
    };
    lemma_req_byte_fields(TransferTarget::DP, TransferAccessKind::W, 2);
    lemma_req_byte_fields(TransferTarget::DP, acc, spec_dp_word(reg));
    let access = Transfer {
        req: TransferReqCtl(spec_req_byte(TransferTarget::DP, acc, spec_dp_word(reg))),
        data,
    };
    match spec_dpbanksel(reg) {
        Some(b) => {
            let sel = spec_select_dp_bank(b);
            assert(b <= 4);
            assert(field32_u8(sel, 0, 0xf) == b) by (bit_vector)
                requires
                    sel == with_field32_u8(0, 0, 0xf, b),
                    b <= 4,
            ;
            lemma_dp_register_address_roundtrip(reg, b as usize);
            let x1 = spec_dp_write(DpRegister::SELECT, sel);
            assert(spec_dp_op_seq(op) == seq![x1, access]);
            lemma_record_all_pair(dp, memap, x1, access);
            let (d1, m1, r1) = spec_record(dp, memap, x1)->Ok_0;
            assert(d1.select.0 == sel);
            let r2 = spec_record(d1, m1, access)->Ok_0.2;
            assert(spec_record_all(dp, memap, spec_dp_op_seq(op))->Ok_0.2 == seq![r1, r2]);
        },
        None => {
            assert forall|bs: usize| spec_dp_from_address(spec_dp_word(reg), bs) == reg by {
                lemma_dp_register_address_roundtrip(reg, bs);
            }
            let xs = seq![access];
            assert(spec_dp_op_seq(op) == xs);
            assert(xs.drop_last() =~= Seq::<Transfer>::empty());
            assert(xs.last() == access);
            assert(spec_record_all(dp, memap, Seq::<Transfer>::empty()) == Ok::<
                (DpState, MemApState, Seq<XferRecord>),
                CaptureErr,
            >((dp, memap, Seq::empty())));
            let r = spec_record(dp, memap, access)->Ok_0.2;
            assert(Seq::<XferRecord>::empty().push(r) =~= seq![r]);
            assert(spec_record_all(dp, memap, xs)->Ok_0.2 == seq![r]);
        },
    }
}

/// Recording the transfers `xs` one after the other from `(dp, memap)` until
/// one of them is refused: the state reached, the records made and the
/// refusal, if there was one. A refused transfer changes nothing, and the
/// ones before it stay applied.
pub open spec fn spec_record_run(dp: DpState, memap: MemApState, xs: Seq<Transfer>) -> (
    DpState,
    MemApState,
    Seq<XferRecord>,
    Option<CaptureErr>,
)
    decreases xs.len(),
{
    if xs.len() == 0 {
        (dp, memap, Seq::empty(), None)
    } else {
        let (d, m, rs, err) = spec_record_run(dp, memap, xs.drop_last());
        if err is Some {
            (d, m, rs, err)
        } else {
            match spec_record(d, m, xs.last()) {
                Ok((d2, m2, r)) => (d2, m2, rs.push(r), None),
                Err(e) => (d, m, rs, Some(e)),
            }
        }
    }
}

/// The lists of transfers that can be recorded one after the other: each
/// transfer that is reached can be recorded in the state reached.
pub open spec fn spec_run_defined(dp: DpState, memap: MemApState, xs: Seq<Transfer>) -> bool
    decreases xs.len(),
{
    xs.len() == 0 || (spec_run_defined(dp, memap, xs.drop_last()) && ({
        let (d, m, _, err) = spec_record_run(dp, memap, xs.drop_last());
        err is None ==> spec_record_defined(d, m, xs.last())
    }))
}

/// A run that is not refused gives what recording all the transfers gives;
/// one that is refused stops with the error that recording all of them
/// meets first.
pub proof fn lemma_run_matches_all(dp: DpState, memap: MemApState, xs: Seq<Transfer>)
    ensures
        spec_record_run(dp, memap, xs).3 is None ==> spec_record_all(dp, memap, xs) == Ok::<
            (DpState, MemApState, Seq<XferRecord>),
            CaptureErr,
        >((spec_record_run(dp, memap, xs).0, spec_record_run(dp, memap, xs).1, spec_record_run(dp, memap, xs).2)),
        spec_record_run(dp, memap, xs).3 matches Some(e) ==> spec_record_all(dp, memap, xs) == Err::<
            (DpState, MemApState, Seq<XferRecord>),
            CaptureErr,
        >(e),
    decreases xs.len(),
{
    if xs.len() > 0 {
        lemma_run_matches_all(dp, memap, xs.drop_last());
    }
}

proof fn lemma_run_prefix(dp: DpState, memap: MemApState, xs: Seq<Transfer>, k: int)
    requires
        0 <= k <= xs.len(),
    ensures
        spec_run_defined(dp, memap, xs) ==> spec_run_defined(dp, memap, xs.take(k)),
        spec_record_run(dp, memap, xs.take(k)).3 is Some ==> spec_record_run(dp, memap, xs)
            == spec_record_run(dp, memap, xs.take(k)),
        (spec_run_defined(dp, memap, xs.take(k)) && spec_record_run(dp, memap, xs.take(k)).3 is Some)
            ==> spec_run_defined(dp, memap, xs),
    decreases xs.len(),
{
    if k == xs.len() {
        assert(xs.take(k) =~= xs);
    } else {
        lemma_run_prefix(dp, memap, xs.drop_last(), k);
        assert(xs.drop_last().take(k) =~= xs.take(k));
    }
}

proof fn lemma_run_step(dp: DpState, memap: MemApState, xs: Seq<Transfer>, i: int)
    requires
        0 <= i < xs.len(),
    ensures
        xs.take(i + 1).drop_last() == xs.take(i),
        xs.take(i + 1).last() == xs[i],
{
    assert(xs.take(i + 1).drop_last() =~= xs.take(i));
}

/// What recording a list of transfers gave.
pub struct RecordRun {
    /// The records of the transfers recorded, in order.
    pub records: Vec<XferRecord>,
    /// The refusal that stopped recording, if one did.
    pub error: Option<CaptureErr>,
}

impl State {
    /// Apply the transfers `xs` to the tracked DP/AP state one after the
    /// other, as `record_xfer` does, stopping at the first refused transfer:
    /// the writes before it stay applied.
    pub fn record_all(&mut self, xs: &[Transfer]) -> (r: RecordRun)
        requires
            spec_run_defined(old(self).dp, old(self).memap, xs@),
        ensures
            (final(self).dp, final(self).memap, r.records@, r.error) == spec_record_run(
                old(self).dp,
                old(self).memap,
                xs@,
            ),
            r.error is None ==> spec_record_all(old(self).dp, old(self).memap, xs@) == Ok::<
                (DpState, MemApState, Seq<XferRecord>),
                CaptureErr,
            >((final(self).dp, final(self).memap, r.records@)),
            r.error matches Some(e) ==> spec_record_all(old(self).dp, old(self).memap, xs@) == Err::<
                (DpState, MemApState, Seq<XferRecord>),
                CaptureErr,
            >(e),
            final(self).txq@ == old(self).txq@,
    {
        let ghost dp0 = self.dp;
        let ghost m0 = self.memap;
        let mut records: Vec<XferRecord> = Vec::new();
        let n = xs.len();
        let mut i: usize = 0;
        proof {
            assert(xs@.take(0) =~= Seq::<Transfer>::empty());
            lemma_run_matches_all(dp0, m0, xs@);
        }
        while i < n
            invariant
                n == xs@.len(),
                i <= n,
                spec_run_defined(dp0, m0, xs@),
                spec_record_run(dp0, m0, xs@.take(i as int)) == (self.dp, self.memap, records@, None::<CaptureErr>),
                self.txq@ == old(self).txq@,
                dp0 == old(self).dp,
                m0 == old(self).memap,
            decreases n - i,
        {
            proof {
                lemma_run_prefix(dp0, m0, xs@, i + 1);
                lemma_run_step(dp0, m0, xs@, i as int);
            }
            match self.record_xfer(&xs[i]) {
                Ok(rec) => {
                    records.push(rec);
                },
                Err(e) => {
                    proof {
                        lemma_run_prefix(dp0, m0, xs@, i + 1);
                        lemma_run_matches_all(dp0, m0, xs@);
                    }
                    return RecordRun { records, error: Some(e) };
                },
            }
            i = i + 1;
        }
        proof {
            assert(xs@.take(n as int) =~= xs@);
            lemma_run_matches_all(dp0, m0, xs@);
        }
        RecordRun { records, error: None }
    }

    /// Whether `record_all` can take `xs` in the present state.
    pub fn record_all_defined(&self, xs: &[Transfer]) -> (r: bool)
        ensures
            r == spec_run_defined(self.dp, self.memap, xs@),
    {
        let mut sim = State { txq: XferQueue::new(), dp: self.dp, memap: self.memap };
        let n = xs.len();
        let mut i: usize = 0;
        proof {
            assert(xs@.take(0) =~= Seq::<Transfer>::empty());
        }
        while i < n
            invariant
                n == xs@.len(),
                i <= n,
                spec_run_defined(self.dp, self.memap, xs@.take(i as int)),
                spec_record_run(self.dp, self.memap, xs@.take(i as int)).0 == sim.dp,
                spec_record_run(self.dp, self.memap, xs@.take(i as int)).1 == sim.memap,
                spec_record_run(self.dp, self.memap, xs@.take(i as int)).3 is None,
            decreases n - i,
        {
            proof {
                lemma_run_prefix(self.dp, self.memap, xs@, i + 1);
                lemma_run_step(self.dp, self.memap, xs@, i as int);
            }
            if !sim.record_defined(&xs[i]) {
                return false;
            }
            match sim.record_xfer(&xs[i]) {
                Ok(_) => {},
                Err(_) => {
                    return true;
                },
            }
            i = i + 1;
        }
        proof {
            assert(xs@.take(n as int) =~= xs@);
        }
        true
    }
}

/// Whether every transfer of `xs` is a read.
pub open spec fn spec_all_reads(xs: Seq<Transfer>) -> bool {
    forall|i: int|
        0 <= i < xs.len() ==> (spec_req_kind((#[trigger] xs[i]).req.0) == Some(TransferKind::Read)
            || spec_req_kind(xs[i].req.0) == Some(TransferKind::ReadMatch))
}

/// Reads are never applied as writes: recording only reads leaves the
/// tracked DP/AP state as it was.
pub proof fn lemma_reads_leave_state(dp: DpState, memap: MemApState, xs: Seq<Transfer>)
    requires
        spec_all_reads(xs),
    ensures
        spec_record_run(dp, memap, xs).0 == dp,
        spec_record_run(dp, memap, xs).1 == memap,
    decreases xs.len(),
{
    if xs.len() > 0 {
        let p = xs.drop_last();
        assert forall|i: int| 0 <= i < p.len() implies (spec_req_kind((#[trigger] p[i]).req.0) == Some(
            TransferKind::Read,
        ) || spec_req_kind(p[i].req.0) == Some(TransferKind::ReadMatch)) by {
            assert(p[i] == xs[i]);
        }
        lemma_reads_leave_state(dp, memap, p);
        assert(xs.last() == xs[xs.len() - 1]);
    }
}

/// A captured response to a command of reads only leaves the tracked DP/AP
/// state as it was, whatever the probe answered.
pub proof fn lemma_read_only_response(dp: DpState, memap: MemApState, pkt: Seq<u8>, xs: Seq<Transfer>)
    requires
        spec_all_reads(xs),
    ensures
        spec_resolve(pkt, xs) matches Ok((_, ys)) ==> spec_record_run(dp, memap, ys).0 == dp
            && spec_record_run(dp, memap, ys).1 == memap,
{
    lemma_resolve_keeps_requests(pkt, xs);
    if let Ok((_, ys)) = spec_resolve(pkt, xs) {
        assert forall|i: int| 0 <= i < ys.len() implies (spec_req_kind((#[trigger] ys[i]).req.0) == Some(
            TransferKind::Read,
        ) || spec_req_kind(ys[i].req.0) == Some(TransferKind::ReadMatch)) by {
            assert(ys[i].req == xs[i].req);
        }
        lemma_reads_leave_state(dp, memap, ys);
    }
}

} // verus!

verus! {

/// The lowercase hexadecimal digit of `d` (below 16).
pub open spec fn spec_hex_digit(d: u32) -> char {
    if d < 10 {
        ((d + 0x30) as u8) as char
    } else {
        ((d - 10 + 0x61) as u8) as char
    }
}

/// The four lowercase hexadecimal digits of `v` (as `{:04x}` writes a
/// value below 0x1_0000).
pub open spec fn spec_hex4(v: u32) -> Seq<char> {
    seq![
        spec_hex_digit((v >> 12u32) & 0xf),
        spec_hex_digit((v >> 8u32) & 0xf),
        spec_hex_digit((v >> 4u32) & 0xf),
        spec_hex_digit(v & 0xf),
    ]
}

/// The eight lowercase hexadecimal digits of `v` (as `{:08x}` writes it).
pub open spec fn spec_hex8(v: u32) -> Seq<char> {
    spec_hex4(v >> 16u32) + spec_hex4(v & 0xffff)
}

/// The lowercase hexadecimal numeral of `v`, without leading zeros (as
/// `{:x}` writes it).
pub open spec fn spec_hex_min16(v: u16) -> Seq<char> {
    let d = spec_hex4(v as u32);
    if v < 0x10 {
        d.subrange(3, 4)
    } else if v < 0x100 {
        d.subrange(2, 4)
    } else if v < 0x1000 {
        d.subrange(1, 4)
    } else {
        d
    }
}

/// How an external debug register is written: its name, or `Undefined(<offset in hex>)`.
pub open spec fn spec_ext_dbg_reg_text(r: Armv8ExtDbgReg) -> Seq<char> {
    match r {
        Armv8ExtDbgReg::ED_ESR => "ED_ESR"@,
        Armv8ExtDbgReg::ED_ECR => "ED_ECR"@,
        Armv8ExtDbgReg::ED_WAR_LO => "ED_WAR_LO"@,
        Armv8ExtDbgReg::ED_WAR_HI => "ED_WAR_HI"@,
        Armv8ExtDbgReg::DBG_DTR_RX => "DBG_DTR_RX"@,
        Armv8ExtDbgReg::ED_ITR => "ED_ITR"@,
        Armv8ExtDbgReg::ED_SCR => "ED_SCR"@,
        Armv8ExtDbgReg::DBG_DTR_TX => "DBG_DTR_TX"@,
        Armv8ExtDbgReg::ED_RCR => "ED_RCR"@,
        Armv8ExtDbgReg::ED_ACR => "ED_ACR"@,
        Armv8ExtDbgReg::ED_ECCR => "ED_ECCR"@,
        Armv8ExtDbgReg::ED_PCSR_LO => "ED_PCSR_LO"@,
        Armv8ExtDbgReg::ED_CIDSR => "ED_CIDSR"@,
        Armv8ExtDbgReg::ED_VIDSR => "ED_VIDSR"@,
        Armv8ExtDbgReg::ED_PCSR_HI => "ED_PCSR_HI"@,
        Armv8ExtDbgReg::OSLAR => "OSLAR"@,
        Armv8ExtDbgReg::ED_PRCR => "ED_PRCR"@,
        Armv8ExtDbgReg::ED_PRSR => "ED_PRSR"@,
        Armv8ExtDbgReg::MIDR => "MIDR"@,
        Armv8ExtDbgReg::ED_PFR_LO => "ED_PFR_LO"@,
        Armv8ExtDbgReg::ED_PFR_HI => "ED_PFR_HI"@,
        Armv8ExtDbgReg::ED_DFR_LO => "ED_DFR_LO"@,
        Armv8ExtDbgReg::ED_DFR_HI => "ED_DFR_HI"@,
        Armv8ExtDbgReg::ED_AA32_PFR_LO => "ED_AA32_PFR_LO"@,
        Armv8ExtDbgReg::ED_AA32_PFR_HI => "ED_AA32_PFR_HI"@,
        Armv8ExtDbgReg::ED_IT_CTRL => "ED_IT_CTRL"@,
        Armv8ExtDbgReg::DBG_CLAIM_SET => "DBG_CLAIM_SET"@,
        Armv8ExtDbgReg::DBG_CLAIM_CLR => "DBG_CLAIM_CLR"@,
        Armv8ExtDbgReg::ED_DEV_AFF0 => "ED_DEV_AFF0"@,
        Armv8ExtDbgReg::ED_DEV_AFF1 => "ED_DEV_AFF1"@,
        Armv8ExtDbgReg::ED_LAR => "ED_LAR"@,
        Armv8ExtDbgReg::ED_LSR => "ED_LSR"@,
        Armv8ExtDbgReg::DBG_AUTH_STATUS => "DBG_AUTH_STATUS"@,
        Armv8ExtDbgReg::ED_DEV_ARCH => "ED_DEV_ARCH"@,
        Armv8ExtDbgReg::ED_DEV_ID2 => "ED_DEV_ID2"@,
        Armv8ExtDbgReg::ED_DEV_ID1 => "ED_DEV_ID1"@,
        Armv8ExtDbgReg::ED_DEV_ID => "ED_DEV_ID"@,
        Armv8ExtDbgReg::ED_DEV_TYPE => "ED_DEV_TYPE"@,
        Armv8ExtDbgReg::ED_PIDR4 => "ED_PIDR4"@,
        Armv8ExtDbgReg::ED_PIDR0 => "ED_PIDR0"@,
        Armv8ExtDbgReg::ED_PIDR1 => "ED_PIDR1"@,
        Armv8ExtDbgReg::ED_PIDR2 => "ED_PIDR2"@,
        Armv8ExtDbgReg::ED_PIDR3 => "ED_PIDR3"@,
        Armv8ExtDbgReg::ED_CIDR0 => "ED_CIDR0"@,
        Armv8ExtDbgReg::ED_CIDR1 => "ED_CIDR1"@,
        Armv8ExtDbgReg::ED_CIDR2 => "ED_CIDR2"@,
        Armv8ExtDbgReg::ED_CIDR3 => "ED_CIDR3"@,
        Armv8ExtDbgReg::Undefined(v) => "Undefined("@ + spec_hex_min16(v) + ")"@,
    }
}

/// How a CTI register is written: its name, or `Undefined(<offset in hex>)`.
pub open spec fn spec_cti_reg_text(r: CtiRegister) -> Seq<char> {
    match r {
        CtiRegister::CTI_CONTROL => "CTI_CONTROL"@,
        CtiRegister::CTI_INT_ACK => "CTI_INT_ACK"@,
        CtiRegister::CTI_APP_SET => "CTI_APP_SET"@,
        CtiRegister::CTI_APP_CLEAR => "CTI_APP_CLEAR"@,
        CtiRegister::CTI_APP_PULSE => "CTI_APP_PULSE"@,
        CtiRegister::CTI_IN_EN0 => "CTI_IN_EN0"@,
        CtiRegister::CTI_OUT_EN0 => "CTI_OUT_EN0"@,
        CtiRegister::CTI_OUT_EN1 => "CTI_OUT_EN1"@,
        CtiRegister::CTI_TRIG_IN_STATUS => "CTI_TRIG_IN_STATUS"@,
        CtiRegister::CTI_TRIG_OUT_STATUS => "CTI_TRIG_OUT_STATUS"@,
        CtiRegister::CTI_CH_IN_STATUS => "CTI_CH_IN_STATUS"@,
        CtiRegister::CTI_CH_OUT_STATUS => "CTI_CH_OUT_STATUS"@,
        CtiRegister::CTI_GATE => "CTI_GATE"@,
        CtiRegister::ASIC_CTL => "ASIC_CTL"@,
        CtiRegister::CTI_DEV_CTL => "CTI_DEV_CTL"@,
        CtiRegister::CTI_IT_CTRL => "CTI_IT_CTRL"@,
        CtiRegister::CTI_CLAIM_SET => "CTI_CLAIM_SET"@,
        CtiRegister::CTI_CLAIM_CLR => "CTI_CLAIM_CLR"@,
        CtiRegister::CTI_DEV_AFF0 => "CTI_DEV_AFF0"@,
        CtiRegister::CTI_DEV_AFF1 => "CTI_DEV_AFF1"@,
        CtiRegister::CTI_LAR => "CTI_LAR"@,
        CtiRegister::CTI_LSR => "CTI_LSR"@,
        CtiRegister::CTI_AUTH_STATUS => "CTI_AUTH_STATUS"@,
        CtiRegister::CTI_DEV_ARCH => "CTI_DEV_ARCH"@,
        CtiRegister::CTI_DEV_ID2 => "CTI_DEV_ID2"@,
        CtiRegister::CTI_DEV_ID1 => "CTI_DEV_ID1"@,
        CtiRegister::CTI_DEV_ID => "CTI_DEV_ID"@,
        CtiRegister::CTI_DEV_TYPE => "CTI_DEV_TYPE"@,
        CtiRegister::CTI_PIDR4 => "CTI_PIDR4"@,
        CtiRegister::CTI_PIDR0 => "CTI_PIDR0"@,
        CtiRegister::CTI_PIDR1 => "CTI_PIDR1"@,
        CtiRegister::CTI_PIDR2 => "CTI_PIDR2"@,
        CtiRegister::CTI_PIDR3 => "CTI_PIDR3"@,
        CtiRegister::CTI_CIDR0 => "CTI_CIDR0"@,
        CtiRegister::CTI_CIDR1 => "CTI_CIDR1"@,
        CtiRegister::CTI_CIDR2 => "CTI_CIDR2"@,
        CtiRegister::CTI_CIDR3 => "CTI_CIDR3"@,
        CtiRegister::Undefined(v) => "Undefined("@ + spec_hex_min16(v) + ")"@,
    }
}

/// How a component register is written: an external debug or CTI register
/// by its name, a PMU or ETM register as `PMU:`/`ETM:` and its offset in
/// four hexadecimal digits, any other address as `UNK:` and eight.
pub open spec fn spec_component_reg_text(r: ComponentRegName) -> Seq<char> {
    match r {
        ComponentRegName::ExtDbg(reg) => spec_ext_dbg_reg_text(reg),
        ComponentRegName::Cti(reg) => spec_cti_reg_text(reg),
        ComponentRegName::Pmu(off) => "PMU:"@ + spec_hex4(off as u32),
        ComponentRegName::Etm(off) => "ETM:"@ + spec_hex4(off as u32),
        ComponentRegName::Unk(a) => "UNK:"@ + spec_hex8(a),
    }
}

fn hex_digit_text(d: u32) -> (r: &'static str)
    requires
        d < 16,
    ensures
        r@ == seq![spec_hex_digit(d)],
{
    proof {
        reveal_strlit("0");
        reveal_strlit("1");
        reveal_strlit("2");
        reveal_strlit("3");
        reveal_strlit("4");
        reveal_strlit("5");
        reveal_strlit("6");
        reveal_strlit("7");
        reveal_strlit("8");
        reveal_strlit("9");
        reveal_strlit("a");
        reveal_strlit("b");
        reveal_strlit("c");
        reveal_strlit("d");
        reveal_strlit("e");
        reveal_strlit("f");
    }
    match d {
        0 => "0",
        1 => "1",
        2 => "2",
        3 => "3",
        4 => "4",
        5 => "5",
        6 => "6",
        7 => "7",
        8 => "8",
        9 => "9",
        10 => "a",
        11 => "b",
        12 => "c",
        13 => "d",
        14 => "e",
        _ => "f",
    }
}

/// Appends the four hexadecimal digits of `v` (below 0x1_0000).
fn append_hex4(s: &mut String, v: u32)
    ensures
        final(s)@ == old(s)@ + spec_hex4(v),
{
    let ghost s0 = s@;
    let d3 = (v >> 12u32) & 0xf;
    let d2 = (v >> 8u32) & 0xf;
    let d1 = (v >> 4u32) & 0xf;
    let d0 = v & 0xf;
    assert(d3 < 16 && d2 < 16 && d1 < 16 && d0 < 16) by (bit_vector)
        requires
            d3 == (v >> 12u32) & 0xf,
            d2 == (v >> 8u32) & 0xf,
            d1 == (v >> 4u32) & 0xf,
            d0 == v & 0xf,
    ;
    s.append(hex_digit_text(d3));
    s.append(hex_digit_text(d2));
    s.append(hex_digit_text(d1));
    s.append(hex_digit_text(d0));
    assert(s@ =~= s0 + spec_hex4(v));
}

/// Appends the lowercase hexadecimal numeral of `v`, without leading zeros.
fn append_hex_min16(s: &mut String, v: u16)
    ensures
        final(s)@ == old(s)@ + spec_hex_min16(v),
{
    let ghost s0 = s@;
    let mut t = String::new();
    append_hex4(&mut t, v as u32);
    let ghost d = t@;
    let x = v as u32;
    let d3 = (x >> 12u32) & 0xf;
    let d2 = (x >> 8u32) & 0xf;
    let d1 = (x >> 4u32) & 0xf;
    let d0 = x & 0xf;
    assert(d3 < 16 && d2 < 16 && d1 < 16 && d0 < 16) by (bit_vector)
        requires
            d3 == (x >> 12u32) & 0xf,
            d2 == (x >> 8u32) & 0xf,
            d1 == (x >> 4u32) & 0xf,
            d0 == x & 0xf,
    ;
    if v >= 0x1000 {
        s.append(hex_digit_text(d3));
    }
    if v >= 0x100 {
        s.append(hex_digit_text(d2));
    }
    if v >= 0x10 {
        s.append(hex_digit_text(d1));
    }
    s.append(hex_digit_text(d0));
    assert(s@ =~= s0 + spec_hex_min16(v));
}

fn ext_dbg_reg_name(r: Armv8ExtDbgReg) -> (s: &'static str)
    requires
        !(r is Undefined),
    ensures
        s@ == spec_ext_dbg_reg_text(r),
{
    match r {
        Armv8ExtDbgReg::ED_ESR => "ED_ESR",
        Armv8ExtDbgReg::ED_ECR => "ED_ECR",
        Armv8ExtDbgReg::ED_WAR_LO => "ED_WAR_LO",
        Armv8ExtDbgReg::ED_WAR_HI => "ED_WAR_HI",
        Armv8ExtDbgReg::DBG_DTR_RX => "DBG_DTR_RX",
        Armv8ExtDbgReg::ED_ITR => "ED_ITR",
        Armv8ExtDbgReg::ED_SCR => "ED_SCR",
        Armv8ExtDbgReg::DBG_DTR_TX => "DBG_DTR_TX",
        Armv8ExtDbgReg::ED_RCR => "ED_RCR",
        Armv8ExtDbgReg::ED_ACR => "ED_ACR",
        Armv8ExtDbgReg::ED_ECCR => "ED_ECCR",
        Armv8ExtDbgReg::ED_PCSR_LO => "ED_PCSR_LO",
        Armv8ExtDbgReg::ED_CIDSR => "ED_CIDSR",
        Armv8ExtDbgReg::ED_VIDSR => "ED_VIDSR",
        Armv8ExtDbgReg::ED_PCSR_HI => "ED_PCSR_HI",
        Armv8ExtDbgReg::OSLAR => "OSLAR",
        Armv8ExtDbgReg::ED_PRCR => "ED_PRCR",
        Armv8ExtDbgReg::ED_PRSR => "ED_PRSR",
        Armv8ExtDbgReg::MIDR => "MIDR",
        Armv8ExtDbgReg::ED_PFR_LO => "ED_PFR_LO",
        Armv8ExtDbgReg::ED_PFR_HI => "ED_PFR_HI",
        Armv8ExtDbgReg::ED_DFR_LO => "ED_DFR_LO",
        Armv8ExtDbgReg::ED_DFR_HI => "ED_DFR_HI",
        Armv8ExtDbgReg::ED_AA32_PFR_LO => "ED_AA32_PFR_LO",
        Armv8ExtDbgReg::ED_AA32_PFR_HI => "ED_AA32_PFR_HI",
        Armv8ExtDbgReg::ED_IT_CTRL => "ED_IT_CTRL",
        Armv8ExtDbgReg::DBG_CLAIM_SET => "DBG_CLAIM_SET",
        Armv8ExtDbgReg::DBG_CLAIM_CLR => "DBG_CLAIM_CLR",
        Armv8ExtDbgReg::ED_DEV_AFF0 => "ED_DEV_AFF0",
        Armv8ExtDbgReg::ED_DEV_AFF1 => "ED_DEV_AFF1",
        Armv8ExtDbgReg::ED_LAR => "ED_LAR",
        Armv8ExtDbgReg::ED_LSR => "ED_LSR",
        Armv8ExtDbgReg::DBG_AUTH_STATUS => "DBG_AUTH_STATUS",
        Armv8ExtDbgReg::ED_DEV_ARCH => "ED_DEV_ARCH",
        Armv8ExtDbgReg::ED_DEV_ID2 => "ED_DEV_ID2",
        Armv8ExtDbgReg::ED_DEV_ID1 => "ED_DEV_ID1",
        Armv8ExtDbgReg::ED_DEV_ID => "ED_DEV_ID",
        Armv8ExtDbgReg::ED_DEV_TYPE => "ED_DEV_TYPE",
        Armv8ExtDbgReg::ED_PIDR4 => "ED_PIDR4",
        Armv8ExtDbgReg::ED_PIDR0 => "ED_PIDR0",
        Armv8ExtDbgReg::ED_PIDR1 => "ED_PIDR1",
        Armv8ExtDbgReg::ED_PIDR2 => "ED_PIDR2",
        Armv8ExtDbgReg::ED_PIDR3 => "ED_PIDR3",
        Armv8ExtDbgReg::ED_CIDR0 => "ED_CIDR0",
        Armv8ExtDbgReg::ED_CIDR1 => "ED_CIDR1",
        Armv8ExtDbgReg::ED_CIDR2 => "ED_CIDR2",
        Armv8ExtDbgReg::ED_CIDR3 => "ED_CIDR3",
        Armv8ExtDbgReg::Undefined(_) => "",
    }
}

fn cti_reg_name(r: CtiRegister) -> (s: &'static str)
    requires
        !(r is Undefined),
    ensures
        s@ == spec_cti_reg_text(r),
{
    match r {
        CtiRegister::CTI_CONTROL => "CTI_CONTROL",
        CtiRegister::CTI_INT_ACK => "CTI_INT_ACK",
        CtiRegister::CTI_APP_SET => "CTI_APP_SET",
        CtiRegister::CTI_APP_CLEAR => "CTI_APP_CLEAR",
        CtiRegister::CTI_APP_PULSE => "CTI_APP_PULSE",
        CtiRegister::CTI_IN_EN0 => "CTI_IN_EN0",
        CtiRegister::CTI_OUT_EN0 => "CTI_OUT_EN0",
        CtiRegister::CTI_OUT_EN1 => "CTI_OUT_EN1",
        CtiRegister::CTI_TRIG_IN_STATUS => "CTI_TRIG_IN_STATUS",
        CtiRegister::CTI_TRIG_OUT_STATUS => "CTI_TRIG_OUT_STATUS",
        CtiRegister::CTI_CH_IN_STATUS => "CTI_CH_IN_STATUS",
        CtiRegister::CTI_CH_OUT_STATUS => "CTI_CH_OUT_STATUS",
        CtiRegister::CTI_GATE => "CTI_GATE",
        CtiRegister::ASIC_CTL => "ASIC_CTL",
        CtiRegister::CTI_DEV_CTL => "CTI_DEV_CTL",
        CtiRegister::CTI_IT_CTRL => "CTI_IT_CTRL",
        CtiRegister::CTI_CLAIM_SET => "CTI_CLAIM_SET",
        CtiRegister::CTI_CLAIM_CLR => "CTI_CLAIM_CLR",
        CtiRegister::CTI_DEV_AFF0 => "CTI_DEV_AFF0",
        CtiRegister::CTI_DEV_AFF1 => "CTI_DEV_AFF1",
        CtiRegister::CTI_LAR => "CTI_LAR",
        CtiRegister::CTI_LSR => "CTI_LSR",
        CtiRegister::CTI_AUTH_STATUS => "CTI_AUTH_STATUS",
        CtiRegister::CTI_DEV_ARCH => "CTI_DEV_ARCH",
        CtiRegister::CTI_DEV_ID2 => "CTI_DEV_ID2",
        CtiRegister::CTI_DEV_ID1 => "CTI_DEV_ID1",
        CtiRegister::CTI_DEV_ID => "CTI_DEV_ID",
        CtiRegister::CTI_DEV_TYPE => "CTI_DEV_TYPE",
        CtiRegister::CTI_PIDR4 => "CTI_PIDR4",
        CtiRegister::CTI_PIDR0 => "CTI_PIDR0",
        CtiRegister::CTI_PIDR1 => "CTI_PIDR1",
        CtiRegister::CTI_PIDR2 => "CTI_PIDR2",
        CtiRegister::CTI_PIDR3 => "CTI_PIDR3",
        CtiRegister::CTI_CIDR0 => "CTI_CIDR0",
        CtiRegister::CTI_CIDR1 => "CTI_CIDR1",
        CtiRegister::CTI_CIDR2 => "CTI_CIDR2",
        CtiRegister::CTI_CIDR3 => "CTI_CIDR3",
        CtiRegister::Undefined(_) => "",
    }
}

impl ComponentRegName {
    /// The register as text: see `spec_component_reg_text`.
    pub fn to_string(&self) -> (s: String)
        ensures
            s@ == spec_component_reg_text(*self),
    {
        let mut s = String::new();
        match *self {
            ComponentRegName::ExtDbg(reg) => match reg {
                Armv8ExtDbgReg::Undefined(v) => {
                    s.append("Undefined(");
                    append_hex_min16(&mut s, v);
                    s.append(")");
                },
                _ => s.append(ext_dbg_reg_name(reg)),
            },
            ComponentRegName::Cti(reg) => match reg {
                CtiRegister::Undefined(v) => {
                    s.append("Undefined(");
                    append_hex_min16(&mut s, v);
                    s.append(")");
                },
                _ => s.append(cti_reg_name(reg)),
            },
            ComponentRegName::Pmu(off) => {
                s.append("PMU:");
                append_hex4(&mut s, off as u32);
            },
            ComponentRegName::Etm(off) => {
                s.append("ETM:");
                append_hex4(&mut s, off as u32);
            },
            ComponentRegName::Unk(a) => {
                s.append("UNK:");
                append_hex4(&mut s, a >> 16u32);
                append_hex4(&mut s, a & 0xffff);
            },
        }
        s
    }
}

impl State {
    /// The name of the component register at `addr`, as text: see
    /// `spec_component_reg_text`.
    pub fn make_component_reg_string(addr: u32) -> (s: String)
        ensures
            s@ == spec_component_reg_text(spec_component_reg(addr)),
    {
        MemoryMap::component_reg(addr).to_string()
    }
}

/// An AP access that reaches a banked data register BDn (offset 0x10 + 4n
/// under the tracked SELECT) concerns the target address TAR + 4n; one that
/// reaches TAR (offset 0x04) concerns the address it carries.
pub proof fn lemma_banked_data_address(dp: DpState, memap: MemApState, x: Transfer, n: u8)
    requires
        spec_req_kind(x.req.0) is Some,
        spec_req_target(x.req.0) == TransferTarget::AP,
    ensures
        n < 4 && spec_ap_off(x.req.0, dp.select.0) == 0x10 + 4 * n ==> spec_ctx_addr(dp, memap, x) == Ok::<
            Option<u32>,
            CaptureErr,
        >(Some((memap.tar_lo + 4 * n) as u32)),
        spec_ap_off(x.req.0, dp.select.0) == 0x04 ==> spec_ctx_addr(dp, memap, x) == Ok::<
            Option<u32>,
            CaptureErr,
        >(Some(x.data->0)),
{
}

} // verus!
