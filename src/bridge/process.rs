//! The sidecar client's protocol state and the decisions of one command
//! round trip: id allocation, the wait budget left before the deadline,
//! and what a line, a timeout or a disconnection does to a pending call.
//! The process, its streams and the line queue are driven by the caller,
//! which hands each observation to `PendingCall::step`.
use vstd::prelude::*;

use crate::bridge::protocol::{answers, is_progress, BridgeResponse};
use crate::json::{empty_object, is_empty_object};
use crate::text::{decimal, decimal_string, lemma_decimal_value, numeral_value, str_equals};

verus! {

#[verifier::external_type_specification]
#[verifier::external_body]
pub struct ExPathBuf(std::path::PathBuf);

/// How to launch the sidecar, and the per-command timeout in seconds.
#[derive(Debug)]
pub struct BridgeProcessConfig {
    pub node_path: std::path::PathBuf,
    pub sidecar_script: std::path::PathBuf,
    pub profile_dir: Option<std::path::PathBuf>,
    pub browser_path: Option<std::path::PathBuf>,
    pub timeout_sec: u64,
}

/// What a command, or starting the sidecar, can fail with. Each variant
/// of a command failure names the command and its request id.
#[derive(Debug)]
pub enum BridgeError {
    Spawn { message: String },
    Closed { cmd: String },
    Transport { cmd: String, id: String, message: String },
    Timeout { cmd: String, id: String },
    Disconnected { cmd: String, id: String, status: Option<String> },
    Sidecar { cmd: String, id: String, message: String },
}

/// The client's protocol state: the next request id, the timeout of each
/// call, and whether it has been closed.
#[derive(Debug)]
pub struct BridgeClient {
    next_id: u64,
    timeout_ms: u128,
    closed: bool,
}

/// A command that was written to the sidecar and waits for its reply.
#[derive(Debug)]
pub struct PendingCall {
    pub cmd: String,
    pub id: String,
}

/// What the caller observed while waiting for a reply.
#[derive(Debug)]
pub enum WaitEvent {
    /// A line arrived; `None` when it was not a well-formed reply.
    Line(Option<BridgeResponse>),
    /// The deadline passed before a line arrived.
    TimedOut,
    /// The sidecar's output closed; its exit status, where one was known.
    Disconnected(Option<String>),
}

/// Why a line left the call waiting.
#[derive(Debug, PartialEq, Eq, Structural)]
pub enum Skipped {
    Malformed,
    Progress,
    Stale,
}

/// What a waiting call does after one observation.
#[derive(Debug)]
pub enum WaitStep {
    Skip(Skipped),
    Settled(Result<serde_json::Value, BridgeError>),
}

/// The per-call timeout: the configured seconds, at least one.
pub open spec fn effective_timeout_secs(timeout_sec: u64) -> nat {
    if timeout_sec < 1 {
        1
    } else {
        timeout_sec as nat
    }
}

/// Time left before the deadline after `elapsed_ms`; none once it is reached.
pub open spec fn remaining_spec(timeout_ms: nat, elapsed_ms: nat) -> Option<nat> {
    if elapsed_ms >= timeout_ms {
        None
    } else {
        Some((timeout_ms - elapsed_ms) as nat)
    }
}

/// The failure text of a reply that did not succeed.
pub open spec fn error_text(reply: BridgeResponse) -> Seq<char> {
    match reply.error {
        Some(e) => e@,
        None => "unknown sidecar error"@,
    }
}

/// An observation ends the wait of the call `id`: its own reply, a timeout
/// or a disconnection does; a malformed line, a progress notification or a
/// reply to another id does not.
pub open spec fn settles(event: WaitEvent, id: Seq<char>) -> bool {
    match event {
        WaitEvent::Line(Some(reply)) => answers(reply, id),
        WaitEvent::Line(None) => false,
        WaitEvent::TimedOut => true,
        WaitEvent::Disconnected(_) => true,
    }
}

/// Closing owes the sidecar a `close` command while the client is open.
pub open spec fn handshake_due(c: BridgeClient) -> bool {
    !c.closed_spec()
}

/// The outcome of a call settled by its own reply: the reply's data when it
/// reports `ok` (an empty object when it has none), the sidecar's failure text otherwise.
pub open spec fn settled_by_reply(call: PendingCall, reply: BridgeResponse, r: WaitStep) -> bool {
    match r {
        WaitStep::Settled(Ok(v)) => reply.ok == Some(true) && match reply.data {
            Some(d) => v == d,
            None => is_empty_object(v),
        },
        WaitStep::Settled(Err(BridgeError::Sidecar { cmd, id, message })) => {
            reply.ok != Some(true) && cmd@ == call.cmd@ && id@ == call.id@ && message@
                == error_text(reply)
        },
        _ => false,
    }
}

/// What one observation does to a pending call.
pub open spec fn step_spec(call: PendingCall, event: WaitEvent, r: WaitStep) -> bool {
    match event {
        WaitEvent::Line(None) => r == WaitStep::Skip(Skipped::Malformed),
        WaitEvent::Line(Some(reply)) => {
            if is_progress(reply) {
                r == WaitStep::Skip(Skipped::Progress)
            } else if !answers(reply, call.id@) {
                r == WaitStep::Skip(Skipped::Stale)
            } else {
                settled_by_reply(call, reply, r)
            }
        },
        WaitEvent::TimedOut => match r {
            WaitStep::Settled(Err(BridgeError::Timeout { cmd, id })) => cmd@ == call.cmd@ && id@
                == call.id@,
            _ => false,
        },
        WaitEvent::Disconnected(status) => match r {
            WaitStep::Settled(Err(BridgeError::Disconnected { cmd, id, status: s })) => cmd@
                == call.cmd@ && id@ == call.id@ && s == status,
            _ => false,
        },
    }
}

/// The text of an error: each command failure names its command and id.
pub open spec fn bridge_error_text(e: BridgeError) -> Seq<char> {
    match e {
        BridgeError::Spawn { message } => "failed to spawn sidecar process: "@ + message@,
        BridgeError::Closed { cmd } => "bridge is already closed: cmd="@ + cmd@,
        BridgeError::Transport { cmd, id, message } => "failed to send request: cmd="@ + cmd@
            + ", id="@ + id@ + ": "@ + message@,
        BridgeError::Timeout { cmd, id } => "timeout waiting for response: cmd="@ + cmd@ + ", id="@
            + id@,
        BridgeError::Disconnected { cmd, id, status } => "bridge output channel disconnected: cmd="@
            + cmd@ + ", id="@ + id@ + ", sidecar status="@ + match status {
            Some(s) => s@,
            None => "unknown"@,
        },
        BridgeError::Sidecar { cmd, id, message } => message@ + " (cmd="@ + cmd@ + ", id="@ + id@
            + ")"@,
    }
}

impl BridgeError {
    /// A readable description that names the command and request id.
    pub fn message(&self) -> (r: String)
        ensures
            r@ == bridge_error_text(*self),
    {
        let mut out = String::new();
        match self {
            BridgeError::Spawn { message } => {
                out.append("failed to spawn sidecar process: ");
                out.append(message.as_str());
            },
            BridgeError::Closed { cmd } => {
                out.append("bridge is already closed: cmd=");
                out.append(cmd.as_str());
            },
            BridgeError::Transport { cmd, id, message } => {
                out.append("failed to send request: cmd=");
                out.append(cmd.as_str());
                out.append(", id=");
                out.append(id.as_str());
                out.append(": ");
                out.append(message.as_str());
            },
            BridgeError::Timeout { cmd, id } => {
                out.append("timeout waiting for response: cmd=");
                out.append(cmd.as_str());
                out.append(", id=");
                out.append(id.as_str());
            },
            BridgeError::Disconnected { cmd, id, status } => {
                out.append("bridge output channel disconnected: cmd=");
                out.append(cmd.as_str());
                out.append(", id=");
                out.append(id.as_str());
                out.append(", sidecar status=");
                match status {
                    Some(s) => out.append(s.as_str()),
                    None => out.append("unknown"),
                }
            },
            BridgeError::Sidecar { cmd, id, message } => {
                out.append(message.as_str());
                out.append(" (cmd=");
                out.append(cmd.as_str());
                out.append(", id=");
                out.append(id.as_str());
                out.append(")");
            },
        }
        assert(out@ =~= bridge_error_text(*self));
        out
    }
}

impl BridgeClient {
    pub closed spec fn next_id_spec(&self) -> nat {
        self.next_id as nat
    }

    pub closed spec fn timeout_ms_spec(&self) -> nat {
        self.timeout_ms as nat
    }

    pub closed spec fn closed_spec(&self) -> bool {
        self.closed
    }

    /// The client's invariant: ids count from 1 and the timeout is at
    /// least one second.
    pub open spec fn wf(&self) -> bool {
        self.next_id_spec() >= 1 && self.timeout_ms_spec() >= 1000
    }

    /// A fresh client: ids start at 1, the timeout is at least one second.
    pub fn new(timeout_sec: u64) -> (c: BridgeClient)
        ensures
            c.wf(),
            c.next_id_spec() == 1,
            c.timeout_ms_spec() == effective_timeout_secs(timeout_sec) * 1000,
            !c.closed_spec(),
    {
        let secs: u64 = if timeout_sec < 1 {
            1
        } else {
            timeout_sec
        };
        BridgeClient { next_id: 1, timeout_ms: (secs as u128) * 1000, closed: false }
    }

    /// A fresh client for the timeout of `config`.
    pub fn from_config(config: &BridgeProcessConfig) -> (c: BridgeClient)
        ensures
            c.next_id_spec() == 1,
            c.timeout_ms_spec() == effective_timeout_secs(config.timeout_sec) * 1000,
            !c.closed_spec(),
            c.wf(),
    {
        BridgeClient::new(config.timeout_sec)
    }

    pub fn next_id(&self) -> (r: u64)
        ensures
            r as nat == self.next_id_spec(),
    {
        self.next_id
    }

    pub fn timeout_ms(&self) -> (r: u128)
        ensures
            r as nat == self.timeout_ms_spec(),
    {
        self.timeout_ms
    }

    pub fn is_closed(&self) -> (r: bool)
        ensures
            r == self.closed_spec(),
    {
        self.closed
    }

    /// Starts a command: a closed client refuses it and stays as it was;
    /// otherwise the next id is taken, whatever the call's outcome will be.
    pub fn begin_command(&mut self, cmd: &str) -> (r: Result<PendingCall, BridgeError>)
        requires
            !old(self).closed_spec() ==> old(self).next_id_spec() < u64::MAX,
        ensures
            old(self).closed_spec() ==> match r {
                Err(BridgeError::Closed { cmd: c }) => c@ == cmd@,
                _ => false,
            },
            old(self).closed_spec() ==> *final(self) == *old(self),
            !old(self).closed_spec() ==> match r {
                Ok(call) => call.id@ == decimal(old(self).next_id_spec()) && call.cmd@ == cmd@,
                Err(_) => false,
            },
            !old(self).closed_spec() ==> final(self).next_id_spec() == old(self).next_id_spec()
                + 1,
            final(self).closed_spec() == old(self).closed_spec(),
            final(self).timeout_ms_spec() == old(self).timeout_ms_spec(),
            old(self).wf() ==> final(self).wf(),
    {
        if self.closed {
            return Err(BridgeError::Closed { cmd: cmd.to_string() });
        }
        let id = decimal_string(self.next_id as u128);
        self.next_id = self.next_id + 1;
        Ok(PendingCall { cmd: cmd.to_string(), id })
    }

    /// How long the call may still wait after `elapsed_ms` since it was sent;
    /// `None` once the deadline is reached.
    pub fn remaining_ms(&self, elapsed_ms: u128) -> (r: Option<u128>)
        ensures
            match r {
                Some(v) => remaining_spec(self.timeout_ms_spec(), elapsed_ms as nat) == Some(
                    v as nat,
                ),
                None => remaining_spec(self.timeout_ms_spec(), elapsed_ms as nat) is None,
            },
    {
        if elapsed_ms >= self.timeout_ms {
            None
        } else {
            Some(self.timeout_ms - elapsed_ms)
        }
    }

    /// Whether closing still owes the sidecar a `close` command.
    pub fn needs_close_handshake(&self) -> (r: bool)
        ensures
            r == handshake_due(*self),
    {
        !self.closed
    }

    /// Marks the client closed; no command is accepted afterwards.
    pub fn mark_closed(&mut self)
        ensures
            final(self).closed_spec(),
            final(self).next_id_spec() == old(self).next_id_spec(),
            final(self).timeout_ms_spec() == old(self).timeout_ms_spec(),
            old(self).wf() ==> final(self).wf(),
    {
        self.closed = true;
    }
}

impl PendingCall {
    /// Decides what one observation does to this call.
    pub fn step(&self, event: WaitEvent) -> (r: WaitStep)
        ensures
            step_spec(*self, event, r),
    {
        match event {
            WaitEvent::Line(None) => WaitStep::Skip(Skipped::Malformed),
            WaitEvent::Line(Some(reply)) => {
                if reply.is_progress_event() {
                    return WaitStep::Skip(Skipped::Progress);
                }
                let own = match &reply.id {
                    Some(rid) => str_equals(rid.as_str(), self.id.as_str()),
                    None => false,
                };
                if !own {
                    return WaitStep::Skip(Skipped::Stale);
                }
                let ok = match reply.ok {
                    Some(b) => b,
                    None => false,
                };
                if ok {
                    let data = match reply.data {
                        Some(d) => d,
                        None => empty_object(),
                    };
                    WaitStep::Settled(Ok(data))
                } else {
                    let message = match reply.error {
                        Some(e) => e,
                        None => "unknown sidecar error".to_string(),
                    };
                    WaitStep::Settled(
                        Err(
                            BridgeError::Sidecar {
                                cmd: self.cmd.clone(),
                                id: self.id.clone(),
                                message,
                            },
                        ),
                    )
                }
            },
            WaitEvent::TimedOut => WaitStep::Settled(
                Err(BridgeError::Timeout { cmd: self.cmd.clone(), id: self.id.clone() }),
            ),
            WaitEvent::Disconnected(status) => WaitStep::Settled(
                Err(BridgeError::Disconnected { cmd: self.cmd.clone(), id: self.id.clone(), status }),
            ),
        }
    }

    /// The error of a request that could not be written to the sidecar.
    pub fn transport_error(&self, message: String) -> (e: BridgeError)
        ensures
            match e {
                BridgeError::Transport { cmd, id, message: m } => cmd@ == self.cmd@ && id@
                    == self.id@ && m@ == message@,
                _ => false,
            },
    {
        BridgeError::Transport { cmd: self.cmd.clone(), id: self.id.clone(), message }
    }
}

/// A line that may reach a call with id number `n` before its own reply: a
/// malformed line, a progress notification, or a reply to an earlier request.
pub open spec fn interleaved_before(event: WaitEvent, n: nat) -> bool {
    match event {
        WaitEvent::Line(None) => true,
        WaitEvent::Line(Some(reply)) => is_progress(reply) || match reply.id {
            Some(rid) => exists|j: nat| j < n && rid@ == #[trigger] decimal(j),
            None => false,
        },
        _ => false,
    }
}

/// What a call with id number `n` sees: interleaved lines, then its own reply.
pub open spec fn reply_script(events: Seq<WaitEvent>, n: nat) -> bool {
    &&& events.len() >= 1
    &&& forall|i: int| 0 <= i < events.len() - 1 ==> interleaved_before(#[trigger] events[i], n)
    &&& match events.last() {
        WaitEvent::Line(Some(reply)) => answers(reply, decimal(n)),
        _ => false,
    }
}

/// A step ends the wait exactly when the observation settles the call.
pub proof fn lemma_step_settles(call: PendingCall, event: WaitEvent, r: WaitStep)
    requires
        step_spec(call, event, r),
    ensures
        (r is Settled) == settles(event, call.id@),
{
}

proof fn lemma_interleaved_does_not_settle(event: WaitEvent, n: nat)
    requires
        interleaved_before(event, n),
    ensures
        !settles(event, decimal(n)),
{
    if let WaitEvent::Line(Some(reply)) = event {
        if !is_progress(reply) {
            let rid = reply.id->0;
            let j = choose|j: nat| j < n && rid@ == #[trigger] decimal(j);
            crate::text::lemma_decimal_injective(j, n);
        }
    }
}

/// Commands sent one at a time, with ids numbered from `first`, each settle
/// on their own reply however many progress notifications, malformed lines
/// and late replies to earlier commands come before it; the outcome is the
/// one that reply gives.
pub proof fn lemma_each_call_gets_own_reply(first: nat, calls: Seq<Seq<WaitEvent>>)
    requires
        forall|k: int| 0 <= k < calls.len() ==> reply_script(#[trigger] calls[k], first + k as nat),
    ensures
        forall|k: int, i: int|
            0 <= k < calls.len() && 0 <= i < calls[k].len() - 1 ==> !settles(
                #[trigger] calls[k][i],
                decimal(first + k as nat),
            ),
        forall|k: int| 0 <= k < calls.len() ==> settles(#[trigger] calls[k].last(), decimal(first + k as nat)),
        forall|k: int, call: PendingCall, r: WaitStep|
            0 <= k < calls.len() && call.id@ == decimal(first + k as nat) && #[trigger] step_spec(
                call,
                calls[k].last(),
                r,
            ) ==> settled_by_reply(call, calls[k].last()->Line_0->0, r),
{
    assert forall|k: int, i: int|
        0 <= k < calls.len() && 0 <= i < calls[k].len() - 1 implies !settles(
        #[trigger] calls[k][i],
        decimal(first + k as nat),
    ) by {
        assert(reply_script(calls[k], first + k as nat));
        lemma_interleaved_does_not_settle(calls[k][i], first + k as nat);
    }
    assert forall|k: int| 0 <= k < calls.len() implies settles(
        #[trigger] calls[k].last(),
        decimal(first + k as nat),
    ) by {
        assert(reply_script(calls[k], first + k as nat));
    }
    assert forall|k: int, call: PendingCall, r: WaitStep|
        0 <= k < calls.len() && call.id@ == decimal(first + k as nat) && #[trigger] step_spec(
            call,
            calls[k].last(),
            r,
        ) implies settled_by_reply(call, calls[k].last()->Line_0->0, r) by {
        assert(reply_script(calls[k], first + k as nat));
    }
}

/// A progress notification never completes a pending call, whatever its
/// phase, message, current and total.
pub proof fn lemma_progress_never_settles(call: PendingCall, reply: BridgeResponse, r: WaitStep)
    requires
        is_progress(reply),
        step_spec(call, WaitEvent::Line(Some(reply)), r),
    ensures
        !settles(WaitEvent::Line(Some(reply)), call.id@),
        r == WaitStep::Skip(Skipped::Progress),
{
}

/// A reply whose id is not the pending request's id is skipped.
pub proof fn lemma_foreign_reply_skipped(call: PendingCall, reply: BridgeResponse, r: WaitStep)
    requires
        !is_progress(reply),
        match reply.id {
            Some(rid) => rid@ != call.id@,
            None => true,
        },
        step_spec(call, WaitEvent::Line(Some(reply)), r),
    ensures
        !settles(WaitEvent::Line(Some(reply)), call.id@),
        r == WaitStep::Skip(Skipped::Stale),
{
}

/// The wait never runs past the deadline: each wait budget ends exactly at
/// it, none is given once it is reached, and reaching it fails the call with
/// a timeout that names the command and id.
pub proof fn lemma_deadline_bounds_wait(
    timeout_ms: nat,
    elapsed_ms: nat,
    call: PendingCall,
    r: WaitStep,
)
    requires
        step_spec(call, WaitEvent::TimedOut, r),
    ensures
        match remaining_spec(timeout_ms, elapsed_ms) {
            Some(left) => elapsed_ms < timeout_ms && elapsed_ms + left == timeout_ms,
            None => elapsed_ms >= timeout_ms,
        },
        match r {
            WaitStep::Settled(Err(BridgeError::Timeout { cmd, id })) => cmd@ == call.cmd@ && id@
                == call.id@,
            _ => false,
        },
{
}

/// When the sidecar's output closes during a call, the call fails with a
/// disconnection that carries the exit status, if one was known.
pub proof fn lemma_disconnect_fails_call(call: PendingCall, status: Option<String>, r: WaitStep)
    requires
        step_spec(call, WaitEvent::Disconnected(status), r),
    ensures
        match r {
            WaitStep::Settled(Err(BridgeError::Disconnected { cmd, id, status: s })) => cmd@
                == call.cmd@ && id@ == call.id@ && s == status,
            _ => false,
        },
{
}

/// Closing twice: the first close marks the client closed, after which a
/// second close owes the sidecar no `close` command, and marking the client
/// closed again changes nothing.
pub proof fn lemma_close_twice(opened: BridgeClient, first: BridgeClient, second: BridgeClient)
    requires
        first.closed_spec(),
        first.next_id_spec() == opened.next_id_spec(),
        first.timeout_ms_spec() == opened.timeout_ms_spec(),
        second.closed_spec(),
        second.next_id_spec() == first.next_id_spec(),
        second.timeout_ms_spec() == first.timeout_ms_spec(),
    ensures
        !handshake_due(first),
        second == first,
{
}

/// A malformed line leaves the call waiting.
pub proof fn lemma_malformed_line_skipped(call: PendingCall, r: WaitStep)
    requires
        step_spec(call, WaitEvent::Line(None), r),
    ensures
        !settles(WaitEvent::Line(None), call.id@),
        r == WaitStep::Skip(Skipped::Malformed),
{
}

/// Request ids are decimal numerals that start at "1", strictly increase
/// with each command taken, and never repeat.
pub proof fn lemma_ids_increase(a: nat, b: nat)
    requires
        1 <= a < b,
    ensures
        decimal(1) == seq!['1'],
        decimal(a) != decimal(b),
        numeral_value(decimal(a)) < numeral_value(decimal(b)),
{
    lemma_decimal_value(a);
    lemma_decimal_value(b);
}

} // verus!
