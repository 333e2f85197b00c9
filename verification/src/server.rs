//! Server-side decisions: session flags, the handling of client operations,
//! and what a transport fault means for the connection.

use vstd::prelude::*;
use crate::dap::{Dap, DapAction, DapErr, DapTransportMode, PendingView, StepResult, spec_follows};
use crate::general::ConnectCmdPort;
use crate::proto::{DaphneOp, DaphneResp, DaphneRespSts, DapOp};
use crate::xfer::TransferSequence;

verus! {

/// A session variable.
#[derive(Clone, Copy, Debug, PartialEq, Eq, Structural)]
pub enum SessionVar {
    Bool(bool),
}

/// The variables named by a list of entries (each name occurs once).
pub open spec fn spec_entries_map(entries: Seq<(String, SessionVar)>) -> Map<Seq<char>, SessionVar>
    decreases entries.len(),
{
    if entries.len() == 0 {
        Map::empty()
    } else {
        spec_entries_map(entries.drop_last()).insert(entries.last().0@, entries.last().1)
    }
}

/// Whether no name occurs twice among the entries.
pub open spec fn spec_names_distinct(entries: Seq<(String, SessionVar)>) -> bool {
    forall|i: int, j: int|
        0 <= i < j < entries.len() ==> #[trigger] entries[i].0@ != #[trigger] entries[j].0@
}

proof fn lemma_entries_map_index(entries: Seq<(String, SessionVar)>, i: int)
    requires
        spec_names_distinct(entries),
        0 <= i < entries.len(),
    ensures
        spec_entries_map(entries).contains_key(entries[i].0@),
        spec_entries_map(entries)[entries[i].0@] == entries[i].1,
    decreases entries.len(),
{
    if i < entries.len() - 1 {
        let prefix = entries.drop_last();
        assert(prefix[i] == entries[i]);
        assert(spec_names_distinct(prefix));
        lemma_entries_map_index(prefix, i);
        assert(entries[i].0@ != entries.last().0@);
    }
}

proof fn lemma_entries_map_absent(entries: Seq<(String, SessionVar)>, name: Seq<char>)
    requires
        forall|i: int| 0 <= i < entries.len() ==> #[trigger] entries[i].0@ != name,
    ensures
        !spec_entries_map(entries).contains_key(name),
    decreases entries.len(),
{
    if entries.len() > 0 {
        let prefix = entries.drop_last();
        assert forall|i: int| 0 <= i < prefix.len() implies #[trigger] prefix[i].0@ != name by {
            assert(prefix[i] == entries[i]);
        }
        lemma_entries_map_absent(prefix, name);
        assert(entries[entries.len() - 1].0@ != name);
    }
}

proof fn lemma_entries_map_update(entries: Seq<(String, SessionVar)>, i: int, e: (String, SessionVar))
    requires
        spec_names_distinct(entries),
        0 <= i < entries.len(),
        e.0@ == entries[i].0@,
    ensures
        spec_entries_map(entries.update(i, e)) =~= spec_entries_map(entries).insert(e.0@, e.1),
    decreases entries.len(),
{
    let upd = entries.update(i, e);
    if i == entries.len() - 1 {
        assert(upd.drop_last() =~= entries.drop_last());
    } else {
        let prefix = entries.drop_last();
        assert(spec_names_distinct(prefix));
        lemma_entries_map_update(prefix, i, e);
        assert(upd.drop_last() =~= prefix.update(i, e));
        assert(entries.last().0@ != e.0@);
    }
}

/// Simple container for persistent user data: named session variables.
pub struct DaphneSessionData {
    map: Vec<(String, SessionVar)>,
}

impl View for DaphneSessionData {
    type V = Map<Seq<char>, SessionVar>;

    closed spec fn view(&self) -> Map<Seq<char>, SessionVar> {
        spec_entries_map(self.map@)
    }
}

/// The boolean held under `name`, if any.
pub open spec fn spec_get_bool(m: Map<Seq<char>, SessionVar>, name: Seq<char>) -> Option<bool> {
    if m.contains_key(name) {
        match m[name] {
            SessionVar::Bool(b) => Some(b),
        }
    } else {
        None
    }
}

impl DaphneSessionData {
    #[verifier::type_invariant]
    closed spec fn inv(&self) -> bool {
        spec_names_distinct(self.map@)
    }

    /// No variables.
    pub fn new() -> (r: Self)
        ensures
            r@ == Map::<Seq<char>, SessionVar>::empty(),
    {
        Self { map: Vec::new() }
    }

    /// The index of the entry named `name`, if there is one.
    fn find(&self, name: &String) -> (r: Option<usize>)
        ensures
            r matches Some(i) ==> i < self.map@.len() && self.map@[i as int].0@ == name@,
            r is None ==> forall|i: int| 0 <= i < self.map@.len() ==> #[trigger] self.map@[i].0@ != name@,
    {
        let n = self.map.len();
        let mut i: usize = 0;
        while i < n
            invariant
                n == self.map@.len(),
                i <= n,
                forall|j: int| 0 <= j < i ==> #[trigger] self.map@[j].0@ != name@,
            decreases n - i,
        {
            if self.map[i].0 == *name {
                return Some(i);
            }
            i = i + 1;
        }
        None
    }

    /// Sets the variable `name` to the boolean `val`.
    pub fn insert_bool(&mut self, name: &str, val: bool)
        ensures
            final(self)@ == old(self)@.insert(name@, SessionVar::Bool(val)),
    {
        proof {
            use_type_invariant(&*self);
        }
        let key = name.to_owned();
        match self.find(&key) {
            Some(i) => {
                proof {
                    lemma_entries_map_update(self.map@, i as int, (key, SessionVar::Bool(val)));
                }
                let ghost old_map = self.map@;
                let mut entries = Vec::new();
                std::mem::swap(&mut entries, &mut self.map);
                entries.set(i, (key, SessionVar::Bool(val)));
                proof {
                    assert(entries@ == old_map.update(i as int, (key, SessionVar::Bool(val))));
                    assert forall|a: int, b: int| 0 <= a < b < entries@.len() implies #[trigger] entries@[a].0@
                        != #[trigger] entries@[b].0@ by {
                        assert(old_map[a].0@ != old_map[b].0@);
                    }
                }
                self.map = entries;
            },
            None => {
                let ghost old_map = self.map@;
                let mut entries = Vec::new();
                std::mem::swap(&mut entries, &mut self.map);
                entries.push((key, SessionVar::Bool(val)));
                proof {
                    assert(entries@.drop_last() =~= old_map);
                    assert forall|a: int, b: int| 0 <= a < b < entries@.len() implies #[trigger] entries@[a].0@
                        != #[trigger] entries@[b].0@ by {
                        if b < old_map.len() {
                            assert(old_map[a].0@ != old_map[b].0@);
                        } else {
                            assert(old_map[a].0@ != name@);
                        }
                    }
                }
                self.map = entries;
            },
        }
    }

    /// The boolean held under `name`; `None` when there is no such variable.
    pub fn get_bool(&mut self, name: &str) -> (r: Option<bool>)
        ensures
            final(self)@ == old(self)@,
            r == spec_get_bool(old(self)@, name@),
    {
        proof {
            use_type_invariant(&*self);
        }
        let key = name.to_owned();
        match self.find(&key) {
            Some(i) => {
                proof {
                    lemma_entries_map_index(self.map@, i as int);
                }
                match self.map[i].1 {
                    SessionVar::Bool(b) => Some(b),
                }
            },
            None => {
                proof {
                    lemma_entries_map_absent(self.map@, name@);
                }
                None
            },
        }
    }
}

/// Reading a flag gives what the last write of that flag wrote, and a write
/// of one flag leaves every other flag as it was.
pub proof fn lemma_flag_read_after_write(
    m: Map<Seq<char>, SessionVar>,
    name: Seq<char>,
    val: bool,
    other: Seq<char>,
)
    ensures
        spec_get_bool(m.insert(name, SessionVar::Bool(val)), name) == Some(val),
        other != name ==> spec_get_bool(m.insert(name, SessionVar::Bool(val)), other) == spec_get_bool(m, other),
{
}

/// The flags after writing each `(name, value)` of `ws` in turn onto `m`.
pub open spec fn spec_flags_after(m: Map<Seq<char>, SessionVar>, ws: Seq<(Seq<char>, bool)>) -> Map<
    Seq<char>,
    SessionVar,
>
    decreases ws.len(),
{
    if ws.len() == 0 {
        m
    } else {
        spec_flags_after(m, ws.drop_last()).insert(ws.last().0, SessionVar::Bool(ws.last().1))
    }
}

/// Over any number of flag writes, the last write of a name wins, and a name
/// that no write touches keeps what it held.
pub proof fn lemma_flags_last_write_wins(m: Map<Seq<char>, SessionVar>, ws: Seq<(Seq<char>, bool)>, name: Seq<char>)
    ensures
        forall|j: int|
            0 <= j < ws.len() && (#[trigger] ws[j]).0 == name && (forall|k: int| j < k < ws.len() ==> ws[k].0 != name)
                ==> spec_get_bool(spec_flags_after(m, ws), name) == Some(ws[j].1),
        (forall|j: int| 0 <= j < ws.len() ==> (#[trigger] ws[j]).0 != name) ==> spec_get_bool(
            spec_flags_after(m, ws),
            name,
        ) == spec_get_bool(m, name),
    decreases ws.len(),
{
    if ws.len() > 0 {
        let p = ws.drop_last();
        let n = ws.len() - 1;
        lemma_flags_last_write_wins(m, p, name);
        lemma_flag_read_after_write(spec_flags_after(m, p), ws.last().0, ws.last().1, name);
        assert forall|j: int|
            0 <= j < ws.len() && (#[trigger] ws[j]).0 == name && (forall|k: int| j < k < ws.len() ==> ws[k].0 != name)
            implies spec_get_bool(spec_flags_after(m, ws), name) == Some(ws[j].1) by {
            if j < n {
                assert(ws[n].0 != name);
                assert(p[j] == ws[j]);
                assert forall|k: int| j < k < p.len() implies p[k].0 != name by {
                    assert(p[k] == ws[k]);
                }
            }
        }
        if forall|j: int| 0 <= j < ws.len() ==> (#[trigger] ws[j]).0 != name {
            assert(ws[n].0 != name);
            assert forall|j: int| 0 <= j < p.len() implies (#[trigger] p[j]).0 != name by {
                assert(p[j] == ws[j]);
            }
        }
    }
}

} // verus!

verus! {

/// The value a server answers a ping with ("PONG").
pub const PING_REPLY: u32 = 0x504f_4e47;

/// What the server does with a client's operation.
pub enum ServerStep {
    /// Answer with this value; no probe exchange is needed.
    Reply(u32),
    /// Run this probe operation; its result is the answer.
    Dap(DapAction),
}

/// The client operations that can be handled: DP operations need a named
/// register.
pub open spec fn spec_msg_handled(msg: &DaphneOp) -> bool {
    match msg {
        DaphneOp::Dp(op) => op.seq_defined(),
        _ => true,
    }
}

/// Perform some operation on behalf of the client: flags and pings are
/// answered at once; DAP, DP and MEM-AP operations start a probe operation
/// on DAP 0 (connecting uses SWD).
pub fn handle_msg(session: &mut DaphneSessionData, dap: &mut Dap, msg: &DaphneOp) -> (r: ServerStep)
    requires
        !old(dap).spec_busy(),
        spec_msg_handled(msg),
    ensures
        final(session)@ == spec_session_step(old(session)@, *msg),
        match msg {
            DaphneOp::Ping => r == ServerStep::Reply(PING_REPLY) && final(session)@ == old(session)@
                && *final(dap) == *old(dap),
            DaphneOp::GetFlag(name) => r == ServerStep::Reply(
                if spec_get_bool(old(session)@, name@) == Some(true) {
                    1u32
                } else {
                    0u32
                },
            ) && final(session)@ == old(session)@ && *final(dap) == *old(dap),
            DaphneOp::SetFlag(name, v) => r == ServerStep::Reply(0) && final(session)@ == old(
                session,
            )@.insert(name@, SessionVar::Bool(*v)) && *final(dap) == *old(dap),
            DaphneOp::Dap(DapOp::Connect) => {
                &&& final(session)@ == old(session)@
                &&& r matches ServerStep::Dap(a)
                &&& old(dap).spec_mode() != DapTransportMode::Undefined ==> {
                    &&& a == DapAction::Done(Ok(0))
                    &&& final(dap).spec_mode() == old(dap).spec_mode()
                    &&& !final(dap).spec_busy()
                }
                &&& old(dap).spec_mode() == DapTransportMode::Undefined ==> {
                    &&& final(dap).spec_pending() == PendingView::Connect(0)
                    &&& a matches DapAction::Exchange(p)
                    &&& p@ == seq![0x02u8, 0x01u8]
                }
            },
            DaphneOp::Dap(DapOp::Disconnect) => {
                &&& final(session)@ == old(session)@
                &&& r matches ServerStep::Dap(a)
                &&& spec_follows(
                    if old(dap).spec_mode() == DapTransportMode::Undefined {
                        StepResult::Finish(old(dap).spec_mode(), Ok(0))
                    } else {
                        StepResult::Continue(old(dap).spec_mode(), PendingView::Disconnect)
                    },
                    final(dap).spec_mode(),
                    final(dap).spec_pending(),
                    a,
                )
            },
            DaphneOp::Dp(op) => {
                &&& final(session)@ == old(session)@
                &&& r matches ServerStep::Dap(a)
                &&& spec_follows(
                    StepResult::Continue(old(dap).spec_mode(), PendingView::Xfer(0, op.spec_transfer_seq())),
                    final(dap).spec_mode(),
                    final(dap).spec_pending(),
                    a,
                )
            },
            DaphneOp::MemAp(op) => {
                &&& final(session)@ == old(session)@
                &&& r matches ServerStep::Dap(a)
                &&& spec_follows(
                    StepResult::Continue(old(dap).spec_mode(), PendingView::Xfer(0, op.spec_transfer_seq())),
                    final(dap).spec_mode(),
                    final(dap).spec_pending(),
                    a,
                )
            },
            DaphneOp::MemApBus(op) => {
                &&& final(session)@ == old(session)@
                &&& r matches ServerStep::Dap(a)
                &&& spec_follows(
                    StepResult::Continue(old(dap).spec_mode(), PendingView::Xfer(0, op.spec_transfer_seq())),
                    final(dap).spec_mode(),
                    final(dap).spec_pending(),
                    a,
                )
            },
        },
{
    match msg {
        DaphneOp::Ping => ServerStep::Reply(PING_REPLY),
        DaphneOp::GetFlag(name) => {
            let res = session.get_bool(name.as_str());
            let val = match res {
                Some(b) => b,
                None => false,
            };
            ServerStep::Reply(if val { 1 } else { 0 })
        },
        DaphneOp::SetFlag(name, data) => {
            session.insert_bool(name.as_str(), *data);
            ServerStep::Reply(0)
        },
        DaphneOp::Dap(DapOp::Connect) => ServerStep::Dap(dap.connect(ConnectCmdPort::SwdMode)),
        DaphneOp::Dap(DapOp::Disconnect) => ServerStep::Dap(dap.disconnect()),
        DaphneOp::Dp(op) => {
            proof {
                crate::xfer::lemma_xfers_size_bound(op.spec_transfer_seq());
            }
            ServerStep::Dap(dap.send_xfer_seq(0, *op))
        },
        DaphneOp::MemAp(op) => {
            proof {
                crate::xfer::lemma_xfers_size_bound(op.spec_transfer_seq());
            }
            ServerStep::Dap(dap.send_xfer_seq(0, *op))
        },
        DaphneOp::MemApBus(op) => {
            proof {
                crate::xfer::lemma_xfers_size_bound(op.spec_transfer_seq());
            }
            ServerStep::Dap(dap.send_xfer_seq(0, *op))
        },
    }
}

/// The response a client gets for the result of its operation: the value
/// with status OK, or 0 with status error.
pub fn make_response(res: &Result<u32, DapErr>) -> (r: DaphneResp)
    ensures
        r == (match res {
            Ok(v) => DaphneResp { data: *v, sts: DaphneRespSts::RespOk },
            Err(_) => DaphneResp { data: 0, sts: DaphneRespSts::RespErr },
        }),
{
    match res {
        Ok(v) => DaphneResp { data: *v, sts: DaphneRespSts::RespOk },
        Err(_) => DaphneResp { data: 0, sts: DaphneRespSts::RespErr },
    }
}

/// What the server's connection loop does next.
#[derive(Clone, Copy, Debug, PartialEq, Eq, Structural)]
pub enum LoopStep {
    /// Serve the next message.
    Continue,
    /// Stop serving, without error.
    Stop,
    /// Stop serving, with this probe error.
    Fail(DapErr),
}

/// At the top of each turn: stop once the signal to exit is set.
pub fn on_signal(signalled: bool) -> (r: LoopStep)
    ensures
        r == (if signalled {
            LoopStep::Stop
        } else {
            LoopStep::Continue
        }),
{
    if signalled {
        LoopStep::Stop
    } else {
        LoopStep::Continue
    }
}

/// After the client has had its answer: stop with the probe error when
/// handling its message failed, go on otherwise.
pub fn after_reply(res: &Result<u32, DapErr>) -> (r: LoopStep)
    ensures
        r == (match res {
            Ok(_) => LoopStep::Continue,
            Err(e) => LoopStep::Fail(*e),
        }),
{
    match res {
        Ok(_) => LoopStep::Continue,
        Err(e) => LoopStep::Fail(*e),
    }
}

/// A fault of the connection to the client.
#[derive(Clone, Copy, Debug, PartialEq, Eq, Structural)]
pub enum TransportFault {
    /// Nothing to read yet.
    WouldBlock,
    /// The client went away.
    BrokenPipe,
    /// The client sent nothing (end of stream).
    NoData,
    /// Any other fault.
    Other,
}

/// What the server's connection loop does after a fault.
#[derive(Clone, Copy, Debug, PartialEq, Eq, Structural)]
pub enum FaultAction {
    /// Try again.
    Retry,
    /// Close this connection and wait for another client.
    HangUp,
    /// Stop the server with an error.
    Fail,
}

/// After a failed read: wait while there is nothing to read, hang up when
/// the client is gone, stop on anything else.
pub fn on_read_fault(f: TransportFault) -> (r: FaultAction)
    ensures
        r == (match f {
            TransportFault::WouldBlock => FaultAction::Retry,
            TransportFault::BrokenPipe => FaultAction::HangUp,
            TransportFault::NoData => FaultAction::HangUp,
            TransportFault::Other => FaultAction::Fail,
        }),
{
    match f {
        TransportFault::WouldBlock => FaultAction::Retry,
        TransportFault::BrokenPipe => FaultAction::HangUp,
        TransportFault::NoData => FaultAction::HangUp,
        TransportFault::Other => FaultAction::Fail,
    }
}

/// After a failed response: hang up when the client is gone, stop on
/// anything else.
pub fn on_send_fault(f: TransportFault) -> (r: FaultAction)
    ensures
        r == (match f {
            TransportFault::BrokenPipe => FaultAction::HangUp,
            _ => FaultAction::Fail,
        }),
{
    match f {
        TransportFault::BrokenPipe => FaultAction::HangUp,
        _ => FaultAction::Fail,
    }
}

/// What a client operation does to the session flags: only `SetFlag`
/// writes one.
pub open spec fn spec_session_step(m: Map<Seq<char>, SessionVar>, msg: DaphneOp) -> Map<Seq<char>, SessionVar> {
    match msg {
        DaphneOp::SetFlag(name, v) => m.insert(name@, SessionVar::Bool(v)),
        _ => m,
    }
}

/// The session flags after the operations `msgs`, in turn, from `m`.
pub open spec fn spec_session_after(m: Map<Seq<char>, SessionVar>, msgs: Seq<DaphneOp>) -> Map<
    Seq<char>,
    SessionVar,
>
    decreases msgs.len(),
{
    if msgs.len() == 0 {
        m
    } else {
        spec_session_step(spec_session_after(m, msgs.drop_last()), msgs.last())
    }
}

/// The value an operation sets the flag `name` to, if it sets it.
pub open spec fn spec_sets_flag(msg: DaphneOp, name: Seq<char>) -> Option<bool> {
    match msg {
        DaphneOp::SetFlag(n, v) => if n@ == name {
            Some(v)
        } else {
            None
        },
        _ => None,
    }
}

/// Over any operations, a flag reads back what the last `SetFlag` of its name
/// set, whatever came between; a name that no `SetFlag` touched keeps what
/// it held (nothing, in a new session, which `GetFlag` answers with 0).
pub proof fn lemma_session_last_set_wins(m: Map<Seq<char>, SessionVar>, msgs: Seq<DaphneOp>, name: Seq<char>)
    ensures
        forall|j: int|
            0 <= j < msgs.len() && spec_sets_flag(#[trigger] msgs[j], name) is Some && (forall|k: int|
                j < k < msgs.len() ==> spec_sets_flag(msgs[k], name) is None) ==> spec_get_bool(
                spec_session_after(m, msgs),
                name,
            ) == spec_sets_flag(msgs[j], name),
        (forall|j: int| 0 <= j < msgs.len() ==> spec_sets_flag(#[trigger] msgs[j], name) is None) ==> spec_get_bool(
            spec_session_after(m, msgs),
            name,
        ) == spec_get_bool(m, name),
    decreases msgs.len(),
{
    if msgs.len() > 0 {
        let p = msgs.drop_last();
        let n = msgs.len() - 1;
        let before = spec_session_after(m, p);
        lemma_session_last_set_wins(m, p, name);
        match msgs.last() {
            DaphneOp::SetFlag(k, v) => {
                lemma_flag_read_after_write(before, k@, v, name);
            },
            _ => {},
        }
        assert(msgs.last() == msgs[n]);
        assert forall|j: int|
            0 <= j < msgs.len() && spec_sets_flag(#[trigger] msgs[j], name) is Some && (forall|k: int|
                j < k < msgs.len() ==> spec_sets_flag(msgs[k], name) is None) implies spec_get_bool(
            spec_session_after(m, msgs),
            name,
        ) == spec_sets_flag(msgs[j], name) by {
            if j < n {
                assert(spec_sets_flag(msgs[n], name) is None);
                assert(p[j] == msgs[j]);
                assert forall|k: int| j < k < p.len() implies spec_sets_flag(p[k], name) is None by {
                    assert(p[k] == msgs[k]);
                }
            }
        }
        if forall|j: int| 0 <= j < msgs.len() ==> spec_sets_flag(#[trigger] msgs[j], name) is None {
            assert(spec_sets_flag(msgs[n], name) is None);
            assert forall|j: int| 0 <= j < p.len() implies spec_sets_flag(#[trigger] p[j], name) is None by {
                assert(p[j] == msgs[j]);
            }
        }
    }
}

} // verus!
