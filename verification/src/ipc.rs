//! The status snapshot the IPC endpoint answers status queries from.
use std::collections::VecDeque;
use vstd::prelude::*;

use crate::surface::{shown_effective, TrayStatus};
use crate::text::{ascii_lower_seq, decimal, push_decimal};
use crate::timing::{Hns, OwnershipState, TimingValues};

verus! {

/// The named pipe the IPC endpoint listens on.
pub const PIPE_NAME: &'static str = "\\\\.\\pipe\\TrueTick-Ipc-v1";

/// The pipe's security descriptor: a protected DACL granting generic access to the local
/// system, the administrators group and the pipe's owner, and to no one else.
pub const PIPE_SDDL: &'static str = "D:P(A;;GA;;;SY)(A;;GA;;;BA)(A;;GA;;;OW)";

/// The application status surfaced over IPC: lifecycle and ownership labels and the effective
/// and requested timing in units of 100 nanoseconds, when known. The tray refreshes it after
/// every publish; the IPC server only reads it.
#[derive(Debug)]
pub struct IpcStatusSnapshot {
    status_label: String,
    ownership_label: String,
    effective_hns: Option<u64>,
    requested_hns: Option<u64>,
}

/// An optional count, or "unknown".
pub open spec fn optional_count_text(value: Option<u64>) -> Seq<char> {
    match value {
        Some(v) => decimal(v as nat),
        None => "unknown"@,
    }
}

/// The query-status payload text.
pub open spec fn status_payload_text(
    status: Seq<char>,
    ownership: Seq<char>,
    effective: Option<u64>,
    requested: Option<u64>,
) -> Seq<char> {
    "status="@ + status + " ownership="@ + ownership + " effective_hns="@ + optional_count_text(
        effective,
    ) + " requested_hns="@ + optional_count_text(requested)
}

fn push_optional_count(out: &mut String, value: Option<u64>)
    ensures
        final(out)@ == old(out)@ + optional_count_text(value),
{
    match value {
        Some(v) => push_decimal(out, v),
        None => out.append("unknown"),
    }
}

impl IpcStatusSnapshot {
    /// The lifecycle label.
    pub closed spec fn status_view(&self) -> Seq<char> {
        self.status_label@
    }

    /// The ownership label.
    pub closed spec fn ownership_view(&self) -> Seq<char> {
        self.ownership_label@
    }

    /// The effective timing, when known.
    pub closed spec fn effective_view(&self) -> Option<u64> {
        self.effective_hns
    }

    /// The requested timing, when known.
    pub closed spec fn requested_view(&self) -> Option<u64> {
        self.requested_hns
    }

    /// A snapshot of a tray that is starting and owns nothing yet.
    pub fn new() -> (s: IpcStatusSnapshot)
        ensures
            s.status_view() == "starting"@,
            s.ownership_view() == "released"@,
            s.effective_view() == None::<u64>,
            s.requested_view() == None::<u64>,
    {
        IpcStatusSnapshot {
            status_label: String::from_str("starting"),
            ownership_label: String::from_str("released"),
            effective_hns: None,
            requested_hns: None,
        }
    }

    /// Replaces every field with a fresh status view.
    pub fn update(
        &mut self,
        status_label: &str,
        ownership_label: &str,
        effective_hns: Option<u64>,
        requested_hns: Option<u64>,
    )
        ensures
            final(self).status_view() == status_label@,
            final(self).ownership_view() == ownership_label@,
            final(self).effective_view() == effective_hns,
            final(self).requested_view() == requested_hns,
    {
        self.status_label = String::from_str(status_label);
        self.ownership_label = String::from_str(ownership_label);
        self.effective_hns = effective_hns;
        self.requested_hns = requested_hns;
    }

    /// The query-status wire payload: the UTF-8 bytes of
    /// `status=.. ownership=.. effective_hns=.. requested_hns=..`, with "unknown" for missing
    /// timing.
    pub fn status_payload(&self) -> (bytes: Vec<u8>)
        ensures
            bytes@ == vstd::utf8::encode_utf8(
                status_payload_text(
                    self.status_view(),
                    self.ownership_view(),
                    self.effective_view(),
                    self.requested_view(),
                ),
            ),
    {
        let mut s = String::from_str("status=");
        s.append(self.status_label.as_str());
        s.append(" ownership=");
        s.append(self.ownership_label.as_str());
        s.append(" effective_hns=");
        push_optional_count(&mut s, self.effective_hns);
        s.append(" requested_hns=");
        push_optional_count(&mut s, self.requested_hns);
        assert(s@ =~= status_payload_text(
            self.status_view(),
            self.ownership_view(),
            self.effective_view(),
            self.requested_view(),
        ));
        s.as_str().as_bytes_vec()
    }
}

impl Default for IpcStatusSnapshot {
    fn default() -> (s: IpcStatusSnapshot)
        ensures
            s.status_view() == "starting"@,
            s.ownership_view() == "released"@,
            s.effective_view() == None::<u64>,
            s.requested_view() == None::<u64>,
    {
        IpcStatusSnapshot::new()
    }
}

/// The payload shows what the last update wrote: the status after "status=", the ownership
/// after " ownership=", and each timing after its key.
pub proof fn lemma_payload_shows_update(
    status: Seq<char>,
    ownership: Seq<char>,
    effective: Option<u64>,
    requested: Option<u64>,
)
    ensures
        crate::text::contains_seq(
            status_payload_text(status, ownership, effective, requested),
            "status="@ + status,
        ),
        crate::text::contains_seq(
            status_payload_text(status, ownership, effective, requested),
            " ownership="@ + ownership,
        ),
        crate::text::contains_seq(
            status_payload_text(status, ownership, effective, requested),
            " effective_hns="@ + optional_count_text(effective),
        ),
        crate::text::contains_seq(
            status_payload_text(status, ownership, effective, requested),
            " requested_hns="@ + optional_count_text(requested),
        ),
{
    let text = status_payload_text(status, ownership, effective, requested);
    let a = "status="@ + status;
    let b = " ownership="@ + ownership;
    let c = " effective_hns="@ + optional_count_text(effective);
    let d = " requested_hns="@ + optional_count_text(requested);
    let la: int = a.len() as int;
    let lb: int = b.len() as int;
    let lc: int = c.len() as int;
    assert(text =~= a + b + c + d);
    assert(text.subrange(0, la) =~= a);
    assert(crate::text::occurs_at(text, a, 0));
    assert(text.subrange(la, la + lb) =~= b);
    assert(crate::text::occurs_at(text, b, la));
    assert(text.subrange(la + lb, la + lb + lc) =~= c);
    assert(crate::text::occurs_at(text, c, la + lb));
    assert(text.subrange(la + lb + lc, text.len() as int) =~= d);
    assert(crate::text::occurs_at(text, d, la + lb + lc));
}

/// The lower-case name of a lifecycle status, as the status query reports it.
pub open spec fn status_label_text(status: TrayStatus) -> Seq<char> {
    match status {
        TrayStatus::Running => "running"@,
        TrayStatus::Starting => "starting"@,
        TrayStatus::ScheduledStart => "scheduledstart"@,
        TrayStatus::Pausing => "pausing"@,
        TrayStatus::Stopping => "stopping"@,
        TrayStatus::ScheduledStop => "scheduledstop"@,
        TrayStatus::Paused => "paused"@,
        TrayStatus::Pending => "pending"@,
        TrayStatus::Degraded => "degraded"@,
        TrayStatus::Unverified => "unverified"@,
        TrayStatus::Stopped => "stopped"@,
        TrayStatus::Blocked => "blocked"@,
        TrayStatus::Unsupported => "unsupported"@,
        TrayStatus::Error => "error"@,
    }
}

/// The lower-case name of an ownership state.
pub open spec fn ownership_label_text(ownership: OwnershipState) -> Seq<char> {
    match ownership {
        OwnershipState::Owned => "owned"@,
        OwnershipState::Released => "released"@,
        OwnershipState::Uncertain => "uncertain"@,
    }
}

/// The count of an optional interval.
pub open spec fn hns_count(value: Option<Hns>) -> Option<u64> {
    match value {
        Some(v) => Some(v.value),
        None => None,
    }
}

/// The status-query name of a lifecycle status.
pub fn ipc_status_label(status: TrayStatus) -> (s: &'static str)
    ensures
        s@ == status_label_text(status),
{
    match status {
        TrayStatus::Running => "running",
        TrayStatus::Starting => "starting",
        TrayStatus::ScheduledStart => "scheduledstart",
        TrayStatus::Pausing => "pausing",
        TrayStatus::Stopping => "stopping",
        TrayStatus::ScheduledStop => "scheduledstop",
        TrayStatus::Paused => "paused",
        TrayStatus::Pending => "pending",
        TrayStatus::Degraded => "degraded",
        TrayStatus::Unverified => "unverified",
        TrayStatus::Stopped => "stopped",
        TrayStatus::Blocked => "blocked",
        TrayStatus::Unsupported => "unsupported",
        TrayStatus::Error => "error",
    }
}

/// The status-query name of an ownership state.
pub fn ipc_ownership_label(ownership: OwnershipState) -> (s: &'static str)
    ensures
        s@ == ownership_label_text(ownership),
{
    match ownership {
        OwnershipState::Owned => "owned",
        OwnershipState::Released => "released",
        OwnershipState::Uncertain => "uncertain",
    }
}

impl IpcStatusSnapshot {
    /// Publishes the tray's lifecycle status, ownership and timing: the effective timing only
    /// when the observation is valid, the requested timing always.
    pub fn refresh(&mut self, status: TrayStatus, ownership: OwnershipState, timing: TimingValues)
        ensures
            final(self).status_view() == status_label_text(status),
            final(self).ownership_view() == ownership_label_text(ownership),
            final(self).effective_view() == hns_count(shown_effective(timing)),
            final(self).requested_view() == hns_count(timing.requested),
    {
        let effective = if timing.valid && !timing.invalid_interval {
            match timing.effective {
                Some(value) => Some(value.value),
                None => None,
            }
        } else {
            None
        };
        let requested = match timing.requested {
            Some(value) => Some(value.value),
            None => None,
        };
        self.update(ipc_status_label(status), ipc_ownership_label(ownership), effective, requested);
    }
}

/// Why an IPC payload was refused.
#[derive(Clone, Copy, Debug, PartialEq, Eq, Structural)]
pub enum IpcPayloadError {
    PayloadTruncated,
}

/// The little-endian value of a byte sequence.
pub open spec fn le_value(bytes: Seq<u8>) -> nat
    decreases bytes.len(),
{
    if bytes.len() == 0 {
        0
    } else {
        bytes[0] as nat + 256 * le_value(bytes.drop_first())
    }
}

/// 256 to the power `k`.
pub open spec fn pow256(k: nat) -> nat
    decreases k,
{
    if k == 0 {
        1
    } else {
        256 * pow256((k - 1) as nat)
    }
}

/// The interval an acquire request asks for: an empty payload keeps the configured interval,
/// eight bytes are a little-endian count of 100-nanosecond units, and any other length is
/// truncated.
pub fn acquire_interval_from_payload(payload: &[u8]) -> (r: Result<Option<u64>, IpcPayloadError>)
    ensures
        payload@.len() == 0 ==> r == Ok::<Option<u64>, IpcPayloadError>(None),
        payload@.len() != 0 && payload@.len() != 8 ==> r == Err::<Option<u64>, IpcPayloadError>(
            IpcPayloadError::PayloadTruncated,
        ),
        payload@.len() == 8 ==> r is Ok && r->Ok_0 is Some && r->Ok_0->0 == le_value(payload@),
{
    if payload.len() == 0 {
        return Ok(None);
    }
    if payload.len() != 8 {
        return Err(IpcPayloadError::PayloadTruncated);
    }
    let mut acc: u64 = 0;
    let mut i: usize = 8;
    assert(payload@.subrange(8, 8) =~= Seq::<u8>::empty());
    while i > 0
        invariant
            payload@.len() == 8,
            0 <= i <= 8,
            acc == le_value(payload@.subrange(i as int, 8)),
            acc < pow256((8 - i) as nat),
        decreases i,
    {
        i = i - 1;
        let b = payload[i];
        proof {
            let tail = payload@.subrange(i as int, 8);
            assert(tail.drop_first() =~= payload@.subrange(i + 1, 8));
            let k = (8 - i - 1) as nat;
            assert(pow256(k + 1) == 256 * pow256(k));
            assert(pow256(8) == 0x1_0000_0000_0000_0000) by {
                assert(pow256(0) == 1);
                assert(pow256(1) == 256);
                assert(pow256(2) == 0x1_0000);
                assert(pow256(3) == 0x100_0000);
                assert(pow256(4) == 0x1_0000_0000);
                assert(pow256(5) == 0x100_0000_0000);
                assert(pow256(6) == 0x1_0000_0000_0000);
                assert(pow256(7) == 0x100_0000_0000_0000);
            }
            lemma_pow256_monotone(k + 1, 8);
            assert(acc as int * 256 + b as int <= (pow256(k) - 1) * 256 + 255) by (nonlinear_arith)
                requires
                    acc < pow256(k),
                    b <= 255,
            ;
        }
        acc = acc * 256 + b as u64;
    }
    assert(payload@.subrange(0, 8) =~= payload@);
    Ok(Some(acc))
}

/// The action id a schedule request is answered with: the payload is a one-byte action tag
/// followed by a four-byte little-endian delay in seconds, and the id is that delay. Any other
/// length is truncated.
pub fn schedule_action_id_from_payload(payload: &[u8]) -> (r: Result<u32, IpcPayloadError>)
    ensures
        payload@.len() != 5 ==> r == Err::<u32, IpcPayloadError>(IpcPayloadError::PayloadTruncated),
        payload@.len() == 5 ==> r is Ok && r->Ok_0 == le_value(payload@.subrange(1, 5)),
{
    if payload.len() != 5 {
        return Err(IpcPayloadError::PayloadTruncated);
    }
    let b1 = payload[1] as u32;
    let b2 = payload[2] as u32;
    let b3 = payload[3] as u32;
    let b4 = payload[4] as u32;
    proof {
        let t = payload@.subrange(1, 5);
        assert(t.drop_first() =~= payload@.subrange(2, 5));
        assert(t.drop_first().drop_first() =~= payload@.subrange(3, 5));
        assert(t.drop_first().drop_first().drop_first() =~= payload@.subrange(4, 5));
        assert(payload@.subrange(4, 5).drop_first() =~= Seq::<u8>::empty());
        assert(le_value(Seq::<u8>::empty()) == 0);
        assert(payload@.subrange(4, 5)[0] == payload@[4]);
        assert(payload@.subrange(3, 5)[0] == payload@[3]);
        assert(payload@.subrange(2, 5)[0] == payload@[2]);
        assert(t[0] == payload@[1]);
        assert(le_value(payload@.subrange(4, 5)) == b4);
        assert(le_value(payload@.subrange(3, 5)) == b3 + 256 * b4);
        assert(le_value(payload@.subrange(2, 5)) == b2 + 256 * (b3 + 256 * b4));
        assert(le_value(t) == b1 + 256 * (b2 + 256 * (b3 + 256 * b4)));
    }
    Ok(b1 + 256 * (b2 + 256 * (b3 + 256 * b4)))
}

/// Powers of 256 grow with the exponent.
pub proof fn lemma_pow256_monotone(a: nat, b: nat)
    requires
        a <= b,
    ensures
        pow256(a) <= pow256(b),
    decreases b - a,
{
    if a < b {
        lemma_pow256_monotone(a, (b - 1) as nat);
    }
}

/// The effective timing an acquire reply reports: the valid effective count, or zero.
pub fn acquired_effective_hns(timing: TimingValues) -> (v: u64)
    ensures
        v == (match shown_effective(timing) {
            Some(h) => h.value,
            None => 0,
        }),
{
    if timing.valid && !timing.invalid_interval {
        match timing.effective {
            Some(value) => value.value,
            None => 0,
        }
    } else {
        0
    }
}

/// Requests that the IPC server thread hands to the UI thread, served oldest first.
pub struct IpcCommandQueue<T> {
    pending: VecDeque<T>,
}

/// What a pop takes from the queue `q`: its oldest request, if any.
pub open spec fn queue_front<T>(q: Seq<T>) -> Option<T> {
    if q.len() > 0 {
        Some(q[0])
    } else {
        None
    }
}

/// What a pop leaves of the queue `q`.
pub open spec fn queue_after_pop<T>(q: Seq<T>) -> Seq<T> {
    if q.len() > 0 {
        q.drop_first()
    } else {
        q
    }
}

impl<T> IpcCommandQueue<T> {
    /// The waiting requests, oldest first.
    pub closed spec fn pending_view(&self) -> Seq<T> {
        self.pending@
    }

    /// An empty queue.
    pub fn new() -> (q: Self)
        ensures
            q.pending_view() == Seq::<T>::empty(),
    {
        IpcCommandQueue { pending: VecDeque::new() }
    }

    /// Puts a request behind all waiting ones.
    pub fn push(&mut self, request: T)
        ensures
            final(self).pending_view() == old(self).pending_view().push(request),
    {
        self.pending.push_back(request);
    }

    /// Takes the oldest waiting request, if any.
    pub fn pop(&mut self) -> (r: Option<T>)
        ensures
            r == queue_front(old(self).pending_view()),
            final(self).pending_view() == queue_after_pop(old(self).pending_view()),
    {
        let r = self.pending.pop_front();
        proof {
            if old(self).pending@.len() > 0 {
                assert(old(self).pending@.subrange(1, old(self).pending@.len() as int)
                    =~= old(self).pending@.drop_first());
            }
        }
        r
    }
}

/// A request pushed behind others never overtakes them: popping from a queue that has just
/// received a request gives what popping without it would have given, unless the queue was
/// empty, and the request stays last in what remains.
pub proof fn lemma_queue_serves_in_arrival_order<T>(q: Seq<T>, request: T)
    ensures
        queue_front(q.push(request)) == (if q.len() == 0 {
            Some(request)
        } else {
            queue_front(q)
        }),
        queue_after_pop(q.push(request)) == (if q.len() == 0 {
            Seq::<T>::empty()
        } else {
            queue_after_pop(q).push(request)
        }),
{
    if q.len() > 0 {
        assert(q.push(request).drop_first() =~= q.drop_first().push(request));
    } else {
        assert(q.push(request).drop_first() =~= Seq::<T>::empty());
    }
}

/// The name of a lifecycle status as written in its type, the text a derived `Debug` prints.
pub open spec fn status_variant_name(status: TrayStatus) -> Seq<char> {
    match status {
        TrayStatus::Running => "Running"@,
        TrayStatus::Starting => "Starting"@,
        TrayStatus::ScheduledStart => "ScheduledStart"@,
        TrayStatus::Pausing => "Pausing"@,
        TrayStatus::Stopping => "Stopping"@,
        TrayStatus::ScheduledStop => "ScheduledStop"@,
        TrayStatus::Paused => "Paused"@,
        TrayStatus::Pending => "Pending"@,
        TrayStatus::Degraded => "Degraded"@,
        TrayStatus::Unverified => "Unverified"@,
        TrayStatus::Stopped => "Stopped"@,
        TrayStatus::Blocked => "Blocked"@,
        TrayStatus::Unsupported => "Unsupported"@,
        TrayStatus::Error => "Error"@,
    }
}

/// The status query reports every lifecycle status by its own name, lower-cased.
pub proof fn lemma_status_label_is_lowercased_name(status: TrayStatus)
    ensures
        status_label_text(status) == ascii_lower_seq(status_variant_name(status)),
{
    match status {
        TrayStatus::Running => {
            reveal_strlit("Running");
            reveal_strlit("running");
        },
        TrayStatus::Starting => {
            reveal_strlit("Starting");
            reveal_strlit("starting");
        },
        TrayStatus::ScheduledStart => {
            reveal_strlit("ScheduledStart");
            reveal_strlit("scheduledstart");
        },
        TrayStatus::Pausing => {
            reveal_strlit("Pausing");
            reveal_strlit("pausing");
        },
        TrayStatus::Stopping => {
            reveal_strlit("Stopping");
            reveal_strlit("stopping");
        },
        TrayStatus::ScheduledStop => {
            reveal_strlit("ScheduledStop");
            reveal_strlit("scheduledstop");
        },
        TrayStatus::Paused => {
            reveal_strlit("Paused");
            reveal_strlit("paused");
        },
        TrayStatus::Pending => {
            reveal_strlit("Pending");
            reveal_strlit("pending");
        },
        TrayStatus::Degraded => {
            reveal_strlit("Degraded");
            reveal_strlit("degraded");
        },
        TrayStatus::Unverified => {
            reveal_strlit("Unverified");
            reveal_strlit("unverified");
        },
        TrayStatus::Stopped => {
            reveal_strlit("Stopped");
            reveal_strlit("stopped");
        },
        TrayStatus::Blocked => {
            reveal_strlit("Blocked");
            reveal_strlit("blocked");
        },
        TrayStatus::Unsupported => {
            reveal_strlit("Unsupported");
            reveal_strlit("unsupported");
        },
        TrayStatus::Error => {
            reveal_strlit("Error");
            reveal_strlit("error");
        },
    }
    assert(status_label_text(status) =~= ascii_lower_seq(status_variant_name(status)));
}

/// Distinct lifecycle statuses are reported by distinct labels, so a client can tell every
/// status apart.
pub proof fn lemma_status_labels_are_distinct(a: TrayStatus, b: TrayStatus)
    ensures
        a != b ==> status_label_text(a) != status_label_text(b),
{
    reveal_strlit("running");
    reveal_strlit("starting");
    reveal_strlit("scheduledstart");
    reveal_strlit("pausing");
    reveal_strlit("stopping");
    reveal_strlit("scheduledstop");
    reveal_strlit("paused");
    reveal_strlit("pending");
    reveal_strlit("degraded");
    reveal_strlit("unverified");
    reveal_strlit("stopped");
    reveal_strlit("blocked");
    reveal_strlit("unsupported");
    reveal_strlit("error");
    if a != b && status_label_text(a) == status_label_text(b) {
        let la = status_label_text(a);
        let lb = status_label_text(b);
        assert(la.len() == lb.len());
        assert(forall|i: int| 0 <= i < la.len() ==> la[i] == lb[i]);
        assert(la[0] == lb[0]);
        if la.len() > 2 {
            assert(la[2] == lb[2]);
        }
        if la.len() > 3 {
            assert(la[3] == lb[3]);
        }
        if la.len() > 4 {
            assert(la[4] == lb[4]);
        }
    }
}

} // verus!
