//! The receiver's state as its contracts see it, and the rules of its
//! operations: what each one changes and which audit events it records.

use vstd::prelude::*;

use crate::ids::{uuid_hyphenated, uuid_simple};
use crate::model::{
    before, clock_reading, AcceptancePolicy, AudioMode, AuditEvent, ConnectInstructionsResponse,
    CreateSessionRequest, DashboardSummary, HttpStatus, NetworkVisibility, OperatorSettings,
    PairingPinResponse, PairingPinState, PinPolicy, PreviewStateResponse, PreviewStreamState,
    ProtocolDescriptor, ProtocolInstruction, ProtocolKind, QueuePolicy, ReceiverPolicy,
    RecordingProfile, RecordingState, Rejection, ReliabilityPolicy, ScalingMode, SessionDescriptor,
    SessionPriority, SessionReconnectRequest, SessionStatus, Timestamp,
};
use crate::net::{base_url, host_valid, BindAddress};
use crate::policy::{or_keep, policy_valid};
use crate::sessions::{
    admission_status, count_in, first_in, handoff_choice, has_id, ids_unique, none_in, StatusGroup,
};
use crate::text::{bool_text, decimal, fixed_digits};

verus! {

/// The receiver's state as the operations' contracts speak of it.
#[verifier::ext_equal]
pub struct ReceiverModel {
    pub api_token: Seq<char>,
    pub bind_addr: BindAddress,
    pub protocols: Seq<ProtocolDescriptor>,
    pub sessions: Seq<SessionDescriptor>,
    pub trusted: Seq<Seq<char>>,
    pub recordings: Map<u128, RecordingState>,
    pub audit: Seq<AuditEvent>,
    pub policy: ReceiverPolicy,
    pub operator: OperatorSettings,
    pub pairing_pin: Option<PairingPinResponse>,
    pub secret: Seq<u8>,
    pub reconnect_attempts: Map<u128, u8>,
    pub reliability: ReliabilityPolicy,
    pub started_at: Timestamp,
}

/// Each recording is kept under the id of its session.
pub open spec fn recordings_keyed(r: Map<u128, RecordingState>) -> bool {
    forall|k: u128| #[trigger] r.contains_key(k) ==> r[k].session_id == k
}

/// Some active session has id `id`.
pub open spec fn active_id(s: Seq<SessionDescriptor>, id: u128) -> bool {
    exists|i: int| 0 <= i < s.len() && #[trigger] s[i].id == id && s[i].status == SessionStatus::Active
}

/// Every recording belongs to an active session.
pub open spec fn recordings_on_active(s: Seq<SessionDescriptor>, r: Map<u128, RecordingState>) -> bool {
    forall|k: u128| #[trigger] r.contains_key(k) ==> active_id(s, k)
}

/// No device is trusted twice.
pub open spec fn trusted_unique(t: Seq<Seq<char>>) -> bool {
    forall|i: int, j: int| 0 <= i < t.len() && 0 <= j < t.len() && i != j ==> t[i] != t[j]
}

impl ReceiverModel {
    /// The state's invariant: sessions and trusted devices are each held
    /// once, each recording is kept under its session's id and belongs to an
    /// active session, the policy is valid and the listening host is well
    /// formed.
    pub open spec fn wf(self) -> bool {
        &&& ids_unique(self.sessions)
        &&& recordings_keyed(self.recordings)
        &&& recordings_on_active(self.sessions, self.recordings)
        &&& trusted_unique(self.trusted)
        &&& policy_valid(self.policy)
        &&& host_valid(self.bind_addr.host)
    }
}

/// The audit trail `new` is `old` followed by events of the given kinds and
/// messages, in order.
pub open spec fn appended(old: Seq<AuditEvent>, new: Seq<AuditEvent>, events: Seq<(Seq<char>, Seq<char>)>) -> bool {
    &&& new.len() == old.len() + events.len()
    &&& new.take(old.len() as int) == old
    &&& forall|i: int|
        0 <= i < events.len() ==> (#[trigger] new[old.len() + i]).kind@ == events[i].0
            && new[old.len() + i].message@ == events[i].1 && clock_reading(new[old.len() + i].ts)
}

/// Appending events in two steps appends them all.
pub proof fn lemma_appended_chain(
    a: Seq<AuditEvent>,
    b: Seq<AuditEvent>,
    c: Seq<AuditEvent>,
    e1: Seq<(Seq<char>, Seq<char>)>,
    e2: Seq<(Seq<char>, Seq<char>)>,
)
    requires
        appended(a, b, e1),
        appended(b, c, e2),
    ensures
        appended(a, c, e1 + e2),
{
    assert(c.take(a.len() as int) =~= b.take(a.len() as int));
    assert forall|i: int| 0 <= i < (e1 + e2).len() implies (#[trigger] c[a.len() + i]).kind@ == (e1
        + e2)[i].0 && c[a.len() + i].message@ == (e1 + e2)[i].1 && clock_reading(c[a.len() + i].ts) by {
        if i < e1.len() {
            assert(c[a.len() + i] == c.take(b.len() as int)[a.len() + i]);
            assert(b[a.len() + i].kind@ == e1[i].0);
        } else {
            let k = i - e1.len();
            assert(c[b.len() + k].kind@ == e2[k].0);
        }
    }
}

/// The header authorizes a mutation: it is `Bearer ` followed by the API
/// token.
pub open spec fn authorized(m: ReceiverModel, auth: Option<&str>) -> bool {
    match auth {
        Some(h) => h@ == "Bearer "@ + m.api_token,
        None => false,
    }
}

/// A refused mutation: nothing changes but one `security.denied` audit event
/// naming the operation.
pub open spec fn denied(old: ReceiverModel, new: ReceiverModel, op: Seq<char>) -> bool {
    audited(old, new, seq![("security.denied"@, "unauthorized "@ + op)])
}

/// The rejection has the given status and error text.
pub open spec fn rejection_is(r: Rejection, status: HttpStatus, error: Seq<char>) -> bool {
    r.status == status && r.body.error@ == error
}

/// `new` is `old` with the given audit events appended and nothing else
/// changed.
pub open spec fn audited(old: ReceiverModel, new: ReceiverModel, events: Seq<(Seq<char>, Seq<char>)>) -> bool {
    &&& new == ReceiverModel { audit: new.audit, ..old }
    &&& appended(old.audit, new.audit, events)
}

/// The position of the session with id `id` (meaningful when there is one).
pub open spec fn session_index(s: Seq<SessionDescriptor>, id: u128) -> int {
    choose|i: int| 0 <= i < s.len() && s[i].id == id
}

/// With unique ids, the session with id `id` is the one at its position.
pub proof fn lemma_session_index(s: Seq<SessionDescriptor>, id: u128, i: int)
    requires
        ids_unique(s),
        0 <= i < s.len(),
        s[i].id == id,
    ensures
        session_index(s, id) == i,
{
}

/// The session with a new status.
pub open spec fn with_status(d: SessionDescriptor, st: SessionStatus) -> SessionDescriptor {
    SessionDescriptor { status: st, ..d }
}

/// The table with `d` stored under its id: replacing the session with that
/// id, or added at the end.
pub open spec fn upsert_session(s: Seq<SessionDescriptor>, d: SessionDescriptor) -> Seq<SessionDescriptor> {
    if has_id(s, d.id) {
        s.update(session_index(s, d.id), d)
    } else {
        s.push(d)
    }
}

/// Session `sid` has a recording.
pub open spec fn has_recording(r: Map<u128, RecordingState>, sid: u128) -> bool {
    r.contains_key(sid)
}

/// The recordings without that of session `sid`.
pub open spec fn without_recording(r: Map<u128, RecordingState>, sid: u128) -> Map<u128, RecordingState> {
    r.remove(sid)
}

/// Changing the session at position `i` into `d` (same id) keeps every
/// recording on an active session when `d` is active, and when the
/// recording of `d` ends.
pub proof fn lemma_on_active_update(
    s: Seq<SessionDescriptor>,
    r: Map<u128, RecordingState>,
    i: int,
    d: SessionDescriptor,
)
    requires
        ids_unique(s),
        recordings_on_active(s, r),
        0 <= i < s.len(),
        d.id == s[i].id,
    ensures
        d.status == SessionStatus::Active ==> recordings_on_active(s.update(i, d), r),
        recordings_on_active(s.update(i, d), r.remove(d.id)),
{
    let t = s.update(i, d);
    assert forall|k: u128| #[trigger] r.contains_key(k) && (k != d.id || d.status == SessionStatus::Active)
        implies active_id(t, k) by {
        let j = choose|j: int| 0 <= j < s.len() && #[trigger] s[j].id == k && s[j].status == SessionStatus::Active;
        if k == d.id {
            assert(t[i].id == k && t[i].status == SessionStatus::Active);
        } else {
            assert(j != i);
            assert(t[j] == s[j]);
        }
    }
}

/// Adding a session keeps every recording on an active session.
pub proof fn lemma_on_active_push(s: Seq<SessionDescriptor>, r: Map<u128, RecordingState>, d: SessionDescriptor)
    requires
        recordings_on_active(s, r),
    ensures
        recordings_on_active(s.push(d), r),
{
    assert forall|k: u128| #[trigger] r.contains_key(k) implies active_id(s.push(d), k) by {
        let j = choose|j: int| 0 <= j < s.len() && #[trigger] s[j].id == k && s[j].status == SessionStatus::Active;
        assert(s.push(d)[j] == s[j]);
    }
}

/// The active session that an accepted session displaces (meaningful when
/// one is active).
pub open spec fn handoff_victim(s: Seq<SessionDescriptor>, q: QueuePolicy) -> int {
    choose|v: int| handoff_choice(s, q, v)
}

/// At most one session is the displaced one.
pub proof fn lemma_handoff_unique(s: Seq<SessionDescriptor>, q: QueuePolicy, v: int, w: int)
    requires
        handoff_choice(s, q, v),
        handoff_choice(s, q, w),
    ensures
        v == w,
{
    if v < w {
        assert(crate::sessions::displaced_before(q, s[w], s[v]));
    } else if w < v {
        assert(crate::sessions::displaced_before(q, s[v], s[w]));
    }
}

/// Accepting session `id` displaces another: the active sessions already
/// fill the policy's limit and the session is not itself active.
pub open spec fn needs_handoff(m: ReceiverModel, id: u128) -> bool {
    let i = session_index(m.sessions, id);
    count_in(m.sessions, StatusGroup::Active) >= m.policy.max_sessions && m.sessions[i].status
        != SessionStatus::Active
}

/// Accepting session `id`: it becomes active; when it needs a slot, the
/// displaced active session is stopped and its recording ends.
pub open spec fn accept_effect(m: ReceiverModel, id: u128) -> ReceiverModel {
    let s = m.sessions;
    let i = session_index(s, id);
    if needs_handoff(m, id) {
        let v = handoff_victim(s, m.policy.queue_policy);
        ReceiverModel {
            sessions: s.update(v, with_status(s[v], SessionStatus::Stopped)).update(
                i,
                with_status(s[i], SessionStatus::Active),
            ),
            recordings: without_recording(m.recordings, s[v].id),
            ..m
        }
    } else {
        ReceiverModel { sessions: s.update(i, with_status(s[i], SessionStatus::Active)), ..m }
    }
}

/// The audit events of accepting session `id`.
pub open spec fn accept_events(m: ReceiverModel, id: u128) -> Seq<(Seq<char>, Seq<char>)> {
    if needs_handoff(m, id) {
        let v = handoff_victim(m.sessions, m.policy.queue_policy);
        seq![
            ("session.handoff"@, session_text(m.sessions[v].id, " stopped for handoff"@)),
            ("session.accepted"@, session_text(id, " accepted"@)),
        ]
    } else {
        seq![("session.accepted"@, session_text(id, " accepted"@))]
    }
}


/// The reconnect attempts counted for session `id` so far.
pub open spec fn prior_attempts(m: ReceiverModel, id: u128) -> u8 {
    if m.reconnect_attempts.contains_key(id) {
        m.reconnect_attempts[id]
    } else {
        0
    }
}

/// The attempt count after one more reconnect (it stops growing at 255).
pub open spec fn attempts_after(m: ReceiverModel, id: u128) -> u8 {
    prior_attempts(m, id).saturating_add(1)
}

/// A reconnect resumes the session: the stream dropped, the jitter lies
/// within the grace window and the attempts are within the limit.
pub open spec fn resumes(m: ReceiverModel, id: u128, req: SessionReconnectRequest) -> bool {
    &&& req.dropped
    &&& req.jitter_ms as u64 <= m.reliability.reconnect_grace_ms
    &&& attempts_after(m, id) <= m.reliability.max_reconnect_attempts
}

/// The audit message of a reconnect.
pub open spec fn reconnect_text(id: u128, req: SessionReconnectRequest, resumed: bool, attempts: u8) -> Seq<char> {
    session_text(
        id,
        " reconnect dropped="@ + bool_text(req.dropped) + " jitter_ms="@ + decimal(req.jitter_ms as nat)
            + " resumed="@ + bool_text(resumed) + " attempts="@ + decimal(attempts as nat),
    )
}

/// The recordings with a recording of session `sid` under `profile`,
/// started at `started_at`, in place of any it had.
pub open spec fn with_recording(
    r: Map<u128, RecordingState>,
    sid: u128,
    profile: RecordingProfile,
    started_at: Timestamp,
) -> Map<u128, RecordingState> {
    r.insert(sid, RecordingState { session_id: sid, profile, started_at })
}

/// "recording <verb> for <uuid>".
pub open spec fn recording_text(verb: Seq<char>, sid: u128) -> Seq<char> {
    "recording "@ + verb + " for "@ + uuid_hyphenated(sid)
}

/// "session <uuid>" followed by `tail`.
pub open spec fn session_text(id: u128, tail: Seq<char>) -> Seq<char> {
    "session "@ + uuid_hyphenated(id) + tail
}

/// Some enabled protocol is of kind `kind`.
pub open spec fn protocol_available(p: Seq<ProtocolDescriptor>, kind: ProtocolKind) -> bool {
    exists|i: int| 0 <= i < p.len() && #[trigger] p[i].kind == kind && p[i].enabled
}

/// What creating a session from `req` produced: a session with the request's
/// protocol, device name and platform, a device id derived from its own id,
/// the requested priority and audio mode (normal and full by default), and
/// the status that the acceptance policy gives it.
pub open spec fn created_from(m: ReceiverModel, req: CreateSessionRequest, d: SessionDescriptor) -> bool {
    &&& d.protocol == req.protocol
    &&& d.device.id@ == "device-"@ + uuid_simple(d.id)
    &&& d.device.name == req.device_name
    &&& d.device.platform == req.device_platform
    &&& d.priority == or_keep(req.priority, SessionPriority::Normal)
    &&& d.audio_mode == or_keep(req.audio_mode, AudioMode::Full)
    &&& d.status == admission_status(m.policy.acceptance)
    &&& clock_reading(d.created_at)
}

/// `i` is the first protocol of `p` with id `id`.
pub open spec fn first_protocol(p: Seq<ProtocolDescriptor>, id: Seq<char>, i: int) -> bool {
    &&& 0 <= i < p.len()
    &&& p[i].id@ == id
    &&& forall|j: int| 0 <= j < i ==> (#[trigger] p[j]).id@ != id
}

/// Some protocol has id `id`.
pub open spec fn has_protocol(p: Seq<ProtocolDescriptor>, id: Seq<char>) -> bool {
    exists|i: int| 0 <= i < p.len() && #[trigger] p[i].id@ == id
}

/// The position of the first protocol with id `id`.
pub open spec fn protocol_index(p: Seq<ProtocolDescriptor>, id: Seq<char>) -> int {
    choose|i: int| first_protocol(p, id, i)
}

/// The position of trusted device `d` (meaningful when it is trusted).
pub open spec fn trusted_index(t: Seq<Seq<char>>, d: Seq<char>) -> int {
    choose|i: int| 0 <= i < t.len() && t[i] == d
}

/// The trusted devices after trusting `d`: unchanged when it is already
/// trusted, `d` added otherwise.
pub open spec fn trust_added(t: Seq<Seq<char>>, d: Seq<char>) -> Seq<Seq<char>> {
    if t.contains(d) {
        t
    } else {
        t.push(d)
    }
}

/// The pin state as seen at time `now`: enabled unless the pin policy is
/// disabled; the stored pin and its expiry shown while it has not expired.
pub open spec fn pin_state_at(m: ReceiverModel, now: Timestamp) -> PairingPinState {
    let live = match m.pairing_pin {
        Some(p) => before(now, p.expires_at),
        None => false,
    };
    PairingPinState {
        enabled: m.operator.pin_policy != PinPolicy::Disabled,
        pin: if live {
            Some(m.pairing_pin->0.pin)
        } else {
            None
        },
        expires_at: if live {
            Some(m.pairing_pin->0.expires_at)
        } else {
            None
        },
    }
}

/// A pin issued from clock readings `t1` and `t2`: the six-digit,
/// zero-padded millisecond part of `t1`, expiring five minutes after `t2`.
pub open spec fn pin_issued(r: PairingPinResponse, t1: Timestamp, t2: Timestamp) -> bool {
    &&& r.pin@ == fixed_digits(((t1.nanos / 1_000_000) % 1_000_000) as nat, 10, 6)
    &&& r.expires_at == (Timestamp { secs: (t2.secs + 300) as i64, nanos: t2.nanos })
}

/// The connection hints for AirPlay, Cast and Miracast senders.
pub open spec fn connect_hints(h: Seq<ProtocolInstruction>) -> bool {
    &&& h.len() == 3
    &&& h[0].protocol@ == "AirPlay"@
    &&& h[0].hint@ == "On iPhone, open Control Center, tap Screen Mirroring, then choose this receiver."@
    &&& h[1].protocol@ == "Cast"@
    &&& h[1].hint@ == "In Chrome or Android apps, tap Cast and pick this receiver name."@
    &&& h[2].protocol@ == "Miracast"@
    &&& h[2].hint@ == "On Windows, press Win+K and select this receiver from wireless displays."@
}

/// The connection instructions as seen at time `now`.
pub open spec fn instructions_at(m: ReceiverModel, now: Timestamp, r: ConnectInstructionsResponse) -> bool {
    &&& r.receiver_name == m.operator.device_name
    &&& r.local_url@ == base_url(m.bind_addr) + "/v1/connect/instructions"@
    &&& r.pairing_pin == pin_state_at(m, now)
    &&& connect_hints(r.protocol_hints@)
}

/// The position of the first session in group `g` (meaningful when there
/// is one).
pub open spec fn first_index(s: Seq<SessionDescriptor>, g: StatusGroup) -> int {
    choose|i: int| first_in(s, g, i)
}

/// The session that the preview shows: the first active one, else the first
/// waiting one.
pub open spec fn previewed(s: Seq<SessionDescriptor>) -> Option<SessionDescriptor> {
    if !none_in(s, StatusGroup::Active) {
        Some(s[first_index(s, StatusGroup::Active)])
    } else if !none_in(s, StatusGroup::Waiting) {
        Some(s[first_index(s, StatusGroup::Waiting)])
    } else {
        None
    }
}

/// `i` is the first protocol of kind `k`.
pub open spec fn first_of_kind(p: Seq<ProtocolDescriptor>, k: ProtocolKind, i: int) -> bool {
    &&& 0 <= i < p.len()
    &&& p[i].kind == k
    &&& forall|j: int| 0 <= j < i ==> (#[trigger] p[j]).kind != k
}

/// The catalogue entry of protocol kind `k`: its first entry.
pub open spec fn catalogue_entry(p: Seq<ProtocolDescriptor>, k: ProtocolKind) -> Option<ProtocolDescriptor> {
    if exists|i: int| first_of_kind(p, k, i) {
        Some(p[choose|i: int| first_of_kind(p, k, i)])
    } else {
        None
    }
}

/// The preview of a state: live when a session is active, connecting when
/// one waits, no stream otherwise; with the shown session's id, protocol
/// and device name, and the resolution and frame rate of its protocol.
pub open spec fn preview_of(m: ReceiverModel) -> PreviewStateResponse {
    let cur = previewed(m.sessions);
    let meta = match cur {
        Some(c) => catalogue_entry(m.protocols, c.protocol),
        None => None,
    };
    PreviewStateResponse {
        stream_state: if !none_in(m.sessions, StatusGroup::Active) {
            PreviewStreamState::Live
        } else if !none_in(m.sessions, StatusGroup::Waiting) {
            PreviewStreamState::Connecting
        } else {
            PreviewStreamState::NoActiveStream
        },
        resolution: match meta {
            Some(p) => Some(p.capabilities.max_resolution),
            None => None,
        },
        fps_target: match meta {
            Some(p) => Some(p.capabilities.max_fps),
            None => None,
        },
        session_id: match cur {
            Some(c) => Some(c.id),
            None => None,
        },
        protocol: match cur {
            Some(c) => Some(c.protocol),
            None => None,
        },
        device_name: match cur {
            Some(c) => Some(c.device.name),
            None => None,
        },
    }
}

/// The built-in protocol catalogue: AirPlay, Cast and Miracast, all enabled,
/// at 1920x1080 and 60 fps with audio; Miracast cannot record.
pub open spec fn builtin_protocols(p: Seq<ProtocolDescriptor>) -> bool {
    &&& p.len() == 3
    &&& p[0].id@ == "airplay"@ && p[0].kind == ProtocolKind::AirPlay && p[0].capabilities.recording
    &&& p[1].id@ == "cast"@ && p[1].kind == ProtocolKind::Cast && p[1].capabilities.recording
    &&& p[2].id@ == "miracast"@ && p[2].kind == ProtocolKind::Miracast
        && !p[2].capabilities.recording
    &&& forall|i: int|
        0 <= i < 3 ==> {
            &&& (#[trigger] p[i]).enabled
            &&& p[i].capabilities.max_resolution@ == "1920x1080"@
            &&& p[i].capabilities.max_fps == 60
            &&& p[i].capabilities.audio
        }
}

/// The policy a receiver starts with.
pub open spec fn initial_policy(p: ReceiverPolicy) -> bool {
    &&& p.acceptance == AcceptancePolicy::Ask
    &&& p.max_sessions == 4
    &&& p.queue_policy == QueuePolicy::FirstIn
    &&& p.audio_output_device@ == "default-speaker"@
    &&& p.display.target_display@ == "display-1"@
    &&& p.display.scaling_mode == ScalingMode::Fit
    &&& p.display.rotation_degrees == 0
    &&& p.display.preserve_aspect_ratio
    &&& p.performance.target_latency_ms == 85
    &&& p.performance.max_bitrate_mbps == 24
    &&& p.performance.baseline_profile@ == "1080p60"@
    &&& p.performance.allow_4k_best_effort
}

/// The demonstration session a receiver starts with: a pending AirPlay
/// session from an iPhone.
pub open spec fn seed_session(s: SessionDescriptor) -> bool {
    &&& s.protocol == ProtocolKind::AirPlay
    &&& s.device.id@ == "device-ios-seed"@
    &&& s.device.name@ == "Seed iPhone"@
    &&& s.device.platform@ == "iOS"@
    &&& s.priority == SessionPriority::Normal
    &&& s.audio_mode == AudioMode::Full
    &&& s.status == SessionStatus::Pending
    &&& clock_reading(s.created_at)
}

/// The whole seconds that have passed from `start` to `now` (none when
/// `now` is not later).
pub open spec fn uptime(start: Timestamp, now: Timestamp) -> int {
    let d = now.secs - start.secs - if now.nanos < start.nanos { 1int } else { 0int };
    if d > 0 { d } else { 0 }
}

/// The number of trailing audit events that a debug snapshot carries.
pub const SNAPSHOT_AUDIT_TAIL: usize = 20;

/// The trailing audit events of `a` that a debug snapshot carries.
pub open spec fn audit_tail(a: Seq<AuditEvent>) -> Seq<AuditEvent> {
    if a.len() > SNAPSHOT_AUDIT_TAIL {
        a.subrange(a.len() - SNAPSHOT_AUDIT_TAIL, a.len() as int)
    } else {
        a
    }
}

/// A receiver as it starts: the built-in protocols, the seed session, the
/// initial policy and operator settings, and nothing else.
pub open spec fn initial_state(m: ReceiverModel, api_token: Seq<char>, bind_addr: BindAddress) -> bool {
    &&& m.api_token == api_token
    &&& m.bind_addr == bind_addr
    &&& builtin_protocols(m.protocols)
    &&& m.sessions.len() == 1 && seed_session(m.sessions[0])
    &&& m.trusted == Seq::<Seq<char>>::empty()
    &&& m.recordings == Map::<u128, RecordingState>::empty()
    &&& m.audit == Seq::<AuditEvent>::empty()
    &&& initial_policy(m.policy)
    &&& m.operator.device_name@ == "Air Sender Receiver"@
    &&& m.operator.pin_policy == PinPolicy::Always
    &&& m.operator.network_visibility == NetworkVisibility::Lan
    &&& m.pairing_pin is None
    &&& m.secret == vstd::utf8::encode_utf8(api_token + "-config-signing"@)
    &&& m.reconnect_attempts == Map::<u128, u8>::empty()
    &&& m.reliability == (ReliabilityPolicy { reconnect_grace_ms: 4000, max_reconnect_attempts: 5 })
    &&& clock_reading(m.started_at)
}

/// The dashboard counts of a state.
pub open spec fn dashboard_of(m: ReceiverModel) -> DashboardSummary {
    DashboardSummary {
        protocol_count: m.protocols.len() as usize,
        pending_sessions: count_in(m.sessions, StatusGroup::Waiting) as usize,
        active_sessions: count_in(m.sessions, StatusGroup::Active) as usize,
        stopped_sessions: count_in(m.sessions, StatusGroup::Stopped) as usize,
        trusted_device_count: m.trusted.len() as usize,
        active_recordings: m.recordings.len() as usize,
    }
}

} // verus!
