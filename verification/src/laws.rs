//! Properties that span the receiver's operations.

use vstd::prelude::*;

use crate::model::{
    AcceptancePolicy, AudioMode, CreateSessionRequest, PinPolicy, SessionReconnectRequest, QueuePolicy, ReceiverPolicy, RecordingProfile, RecordingState,
    SessionDescriptor, SessionPriority, SessionStatus, Timestamp, UpdatePolicyRequest, before,
};
use crate::policy::{blank_error, policy_update};
use crate::text::blank;
use crate::sessions::{
    admission_status, count_in, handoff_choice, has_id, lemma_count_update, lemma_status_counts_cover, StatusGroup,
};
use crate::signature::signature_of;
use crate::receiver::{
    accept_effect, attempts_after, audited, dashboard_of, handoff_victim, needs_handoff, prior_attempts, session_index,
    trust_added, trusted_index, trusted_unique, upsert_session, with_recording, with_status, without_recording,
    created_from, pin_state_at, resumes, uptime, ReceiverModel,
};

verus! {

/// The dashboard's pending, active and stopped counts add up to the number
/// of sessions.
pub proof fn lemma_dashboard_counts_cover(m: ReceiverModel)
    requires
        m.sessions.len() <= usize::MAX,
    ensures
        dashboard_of(m).pending_sessions + dashboard_of(m).active_sessions
            + dashboard_of(m).stopped_sessions == m.sessions.len(),
{
    lemma_status_counts_cover(m.sessions);
    crate::sessions::lemma_count_bounded(m.sessions, StatusGroup::Waiting);
    crate::sessions::lemma_count_bounded(m.sessions, StatusGroup::Active);
    crate::sessions::lemma_count_bounded(m.sessions, StatusGroup::Stopped);
}

/// Accepting a session never pushes the number of active sessions past the
/// policy's limit when it was within it: a session that needs a slot takes
/// the one of the session it displaces.
pub proof fn lemma_accept_respects_limit(m: ReceiverModel, id: u128)
    requires
        m.wf(),
        crate::sessions::has_id(m.sessions, id),
        m.sessions[session_index(m.sessions, id)].status != SessionStatus::Stopped,
        count_in(m.sessions, StatusGroup::Active) <= m.policy.max_sessions,
    ensures
        count_in(accept_effect(m, id).sessions, StatusGroup::Active) <= m.policy.max_sessions,
        accept_effect(m, id).sessions[session_index(m.sessions, id)].status == SessionStatus::Active,
{
    let s = m.sessions;
    let i = session_index(s, id);
    let k = choose|k: int| 0 <= k < s.len() && #[trigger] s[k].id == id;
    crate::receiver::lemma_session_index(s, id, k);
    if needs_handoff(m, id) {
        if crate::sessions::none_in(s, StatusGroup::Active) {
            crate::sessions::lemma_count_none(s, StatusGroup::Active);
        }
        crate::sessions::lemma_handoff_exists(s, m.policy.queue_policy);
        let v = handoff_victim(s, m.policy.queue_policy);
        let s1 = s.update(v, with_status(s[v], SessionStatus::Stopped));
        lemma_count_update(s, StatusGroup::Active, v, with_status(s[v], SessionStatus::Stopped));
        assert(v != i);
        lemma_count_update(s1, StatusGroup::Active, i, with_status(s[i], SessionStatus::Active));
    } else {
        lemma_count_update(s, StatusGroup::Active, i, with_status(s[i], SessionStatus::Active));
    }
}

/// Creating a session keeps the active and pending sessions within the
/// policy's limit: a request at the limit is refused, and one below it adds
/// at most one session that holds a slot.
pub proof fn lemma_create_respects_limit(m: ReceiverModel, d: SessionDescriptor)
    requires
        m.wf(),
        count_in(m.sessions, StatusGroup::Occupying) < m.policy.max_sessions,
        d.status == admission_status(m.policy.acceptance),
    ensures
        count_in(upsert_session(m.sessions, d), StatusGroup::Occupying) <= m.policy.max_sessions,
{
    let s = m.sessions;
    if has_id(s, d.id) {
        let k = choose|k: int| 0 <= k < s.len() && #[trigger] s[k].id == d.id;
        crate::receiver::lemma_session_index(s, d.id, k);
        lemma_count_update(s, StatusGroup::Occupying, k, d);
    } else {
        crate::sessions::lemma_count_push(s, StatusGroup::Occupying, d);
    }
}

/// Recordings follow session status: in every state that the operations
/// reach, each recording is kept under its session's id and that session is
/// active, so ending a session (stop, handoff, a reconnect that queues it)
/// ends its recording.
pub proof fn lemma_recordings_belong_to_active_sessions(m: ReceiverModel, sid: u128)
    requires
        m.wf(),
        m.recordings.contains_key(sid),
    ensures
        m.recordings[sid].session_id == sid,
        exists|i: int|
            0 <= i < m.sessions.len() && #[trigger] m.sessions[i].id == sid && m.sessions[i].status
                == SessionStatus::Active,
{
}

/// Trusting a device makes it trusted, and trusting it again changes
/// nothing.
pub proof fn lemma_trust_idempotent(t: Seq<Seq<char>>, d: Seq<char>)
    ensures
        trust_added(t, d).contains(d),
        trust_added(trust_added(t, d), d) == trust_added(t, d),
{
    if !t.contains(d) {
        assert(t.push(d)[t.len() as int] == d);
    }
}

/// Revoking a device that was just trusted leaves it untrusted, and leaves
/// the devices trusted before as they were when it was new.
pub proof fn lemma_revoke_undoes_trust(t: Seq<Seq<char>>, d: Seq<char>)
    requires
        trusted_unique(t),
        !t.contains(d),
    ensures
        trust_added(t, d).remove(trusted_index(trust_added(t, d), d)) == t,
{
    let u = t.push(d);
    assert(u[t.len() as int] == d);
    let i = trusted_index(u, d);
    assert(0 <= i < u.len() && u[i] == d);
    if i < t.len() {
        assert(t[i] == d);
    }
    assert(u.remove(i) =~= t);
}

/// Verifying a sealed profile succeeds: sealing changes nothing but the
/// audit trail, so the signature it produced matches the payload under the
/// secret held afterwards.
pub proof fn lemma_sealed_profile_verifies(
    before: ReceiverModel,
    after: ReceiverModel,
    payload: Seq<u8>,
    signature: Seq<char>,
)
    requires
        audited(before, after, seq![("config.signed"@, "signed configuration profile"@)]),
        signature == signature_of(before.secret, payload),
    ensures
        signature == signature_of(after.secret, payload),
{
}

/// The audit trail is chronological and append-only: an operation keeps
/// every earlier event in place and adds its own after them.
pub proof fn lemma_audit_append_only(
    before: ReceiverModel,
    after: ReceiverModel,
    events: Seq<(Seq<char>, Seq<char>)>,
)
    requires
        audited(before, after, events),
    ensures
        after.audit.len() == before.audit.len() + events.len(),
        forall|i: int| 0 <= i < before.audit.len() ==> after.audit[i] == before.audit[i],
{
    assert forall|i: int| 0 <= i < before.audit.len() implies after.audit[i] == before.audit[i] by {
        assert(after.audit.take(before.audit.len() as int)[i] == after.audit[i]);
    }
}

/// Reconnect attempts only grow, one at a time until they stop at 255.
pub proof fn lemma_reconnect_attempts_grow(m: ReceiverModel, id: u128)
    ensures
        attempts_after(m, id) >= prior_attempts(m, id),
        prior_attempts(m, id) < 255 ==> attempts_after(m, id) == prior_attempts(m, id) + 1,
{
}

/// The session an accepted session displaces, under each queue policy.
/// Under first-in the oldest active session goes. Under teacher-priority and
/// admin-override, priorities rank admin-override above teacher above
/// normal: an admin-override session goes only when every active session is
/// admin-override, a teacher session only when no normal session is active,
/// and among sessions of the victim's own priority the oldest goes.
pub proof fn lemma_handoff_follows_priority(s: Seq<SessionDescriptor>, q: QueuePolicy, v: int, j: int)
    requires
        handoff_choice(s, q, v),
        0 <= j < s.len(),
        s[j].status == SessionStatus::Active,
    ensures
        q == QueuePolicy::FirstIn ==> !before(s[j].created_at, s[v].created_at),
        q != QueuePolicy::FirstIn && s[v].priority == SessionPriority::AdminOverride
            ==> s[j].priority == SessionPriority::AdminOverride,
        q != QueuePolicy::FirstIn && s[v].priority == SessionPriority::Teacher
            ==> s[j].priority != SessionPriority::Normal,
        s[j].priority == s[v].priority ==> !before(s[j].created_at, s[v].created_at),
{
    assert(!crate::sessions::displaced_before(q, s[j], s[v]));
}

/// A session created below the limit goes live at once exactly under
/// automatic acceptance; under ask and trusted-only it waits as pending.
pub proof fn lemma_created_session_status(m: ReceiverModel, req: CreateSessionRequest, d: SessionDescriptor)
    requires
        created_from(m, req, d),
    ensures
        d.status == SessionStatus::Active <==> m.policy.acceptance == AcceptancePolicy::Auto,
        m.policy.acceptance != AcceptancePolicy::Auto ==> d.status == SessionStatus::Pending,
        d.protocol == req.protocol,
        req.priority matches Some(pr) ==> d.priority == pr,
        req.priority is None ==> d.priority == SessionPriority::Normal,
        req.audio_mode matches Some(a) ==> d.audio_mode == a,
        req.audio_mode is None ==> d.audio_mode == AudioMode::Full,
{
}

/// A rotation update is accepted exactly for the right angles 0, 90, 180
/// and 270, and an accepted one writes the angle; the other fields of the
/// request are left in range and not blank.
pub proof fn lemma_rotation_update(p: ReceiverPolicy, req: UpdatePolicyRequest, r: u16)
    requires
        req.rotation_degrees == Some(r),
        req.max_sessions matches Some(n) ==> 1 <= n <= 4,
        req.target_latency_ms matches Some(l) ==> 30 <= l <= 300,
        req.max_bitrate_mbps matches Some(b) ==> 8 <= b <= 120,
        blank_error(req) is None,
    ensures
        policy_update(p, req).1 is None <==> (r == 0 || r == 90 || r == 180 || r == 270),
        (r == 0 || r == 90 || r == 180 || r == 270) ==> policy_update(p, req).0.display.rotation_degrees == r,
        !(r == 0 || r == 90 || r == 180 || r == 270) ==> policy_update(p, req).0 == p,
{
}

/// Pairing pins are enabled exactly when the operator's pin policy is
/// always or first-pair-only.
pub proof fn lemma_pin_enabled(m: ReceiverModel, now: Timestamp)
    ensures
        pin_state_at(m, now).enabled <==> (m.operator.pin_policy == PinPolicy::Always
            || m.operator.pin_policy == PinPolicy::FirstPairOnly),
{
}

/// Starting a recording of session `sid` holds, under `sid`, a recording
/// with the given profile and start time, replacing any earlier one, and
/// leaves the recordings of other sessions as they were.
pub proof fn lemma_start_recording_replaces(
    r: Map<u128, RecordingState>,
    sid: u128,
    profile: RecordingProfile,
    started_at: Timestamp,
    other: u128,
)
    requires
        other != sid,
    ensures
        with_recording(r, sid, profile, started_at).contains_key(sid),
        with_recording(r, sid, profile, started_at)[sid].profile == profile,
        with_recording(r, sid, profile, started_at)[sid].started_at == started_at,
        with_recording(r, sid, profile, started_at)[sid].session_id == sid,
        with_recording(r, sid, profile, started_at).contains_key(other) == r.contains_key(other),
        r.contains_key(other) ==> with_recording(r, sid, profile, started_at)[other] == r[other],
{
}

/// A policy update is accepted exactly when every given number is in its
/// range (session limit 1 to 4, rotation a right angle, latency 30 to 300 ms,
/// bitrate 8 to 120 Mbps) and no given text is blank; an accepted update
/// writes each given field and keeps the others, a refused one changes
/// nothing.
pub proof fn lemma_policy_update_checks(p: ReceiverPolicy, req: UpdatePolicyRequest)
    ensures
        policy_update(p, req).1 is None <==> {
            &&& req.max_sessions matches Some(n) ==> 1 <= n <= 4
            &&& req.rotation_degrees matches Some(r) ==> (r == 0 || r == 90 || r == 180 || r == 270)
            &&& req.target_latency_ms matches Some(l) ==> 30 <= l <= 300
            &&& req.max_bitrate_mbps matches Some(b) ==> 8 <= b <= 120
            &&& !(req.audio_output_device matches Some(t) && blank(t@))
            &&& !(req.target_display matches Some(t) && blank(t@))
            &&& !(req.baseline_profile matches Some(t) && blank(t@))
        },
        policy_update(p, req).1 is Some ==> policy_update(p, req).0 == p,
        policy_update(p, req).1 is None ==> {
            let q = policy_update(p, req).0;
            &&& q.max_sessions == (if let Some(n) = req.max_sessions { n } else { p.max_sessions })
            &&& q.acceptance == (if let Some(a) = req.acceptance { a } else { p.acceptance })
            &&& q.queue_policy == (if let Some(a) = req.queue_policy { a } else { p.queue_policy })
            &&& q.display.rotation_degrees == (if let Some(r) = req.rotation_degrees { r } else { p.display.rotation_degrees })
            &&& q.performance.target_latency_ms == (if let Some(l) = req.target_latency_ms { l } else { p.performance.target_latency_ms })
            &&& q.performance.max_bitrate_mbps == (if let Some(b) = req.max_bitrate_mbps { b } else { p.performance.max_bitrate_mbps })
            &&& q.audio_output_device == (if let Some(t) = req.audio_output_device { t } else { p.audio_output_device })
            &&& q.display.target_display == (if let Some(t) = req.target_display { t } else { p.display.target_display })
            &&& q.performance.baseline_profile == (if let Some(t) = req.baseline_profile { t } else { p.performance.baseline_profile })
        },
{
}

/// The stored pin is shown, with its expiry, exactly while the time lies
/// strictly before the expiry.
pub proof fn lemma_pin_shown_until_expiry(m: ReceiverModel, now: Timestamp)
    ensures
        pin_state_at(m, now).pin is Some <==> (m.pairing_pin matches Some(p) && (now.secs < p.expires_at.secs
            || (now.secs == p.expires_at.secs && now.nanos < p.expires_at.nanos))),
        pin_state_at(m, now).pin matches Some(x) ==> (x == m.pairing_pin->0.pin
            && pin_state_at(m, now).expires_at == Some(m.pairing_pin->0.expires_at)),
        pin_state_at(m, now).pin is None ==> pin_state_at(m, now).expires_at is None,
{
}

/// A reconnect resumes the session exactly when the stream dropped, the
/// jitter is at most the grace window and the attempt count, one more than
/// before (stopping at 255), is at most the limit.
pub proof fn lemma_reconnect_resumes(m: ReceiverModel, id: u128, req: SessionReconnectRequest)
    ensures
        resumes(m, id, req) <==> (req.dropped && req.jitter_ms <= m.reliability.reconnect_grace_ms
            && attempts_after(m, id) <= m.reliability.max_reconnect_attempts),
        attempts_after(m, id) == (if prior_attempts(m, id) == 255 { 255 } else { prior_attempts(m, id) + 1 }),
        !m.reconnect_attempts.contains_key(id) ==> attempts_after(m, id) == 1,
{
}

/// Stopping a recording of session `sid` leaves no recording under `sid`
/// and the recordings of other sessions as they were.
pub proof fn lemma_stop_recording_removes(r: Map<u128, RecordingState>, sid: u128, other: u128)
    requires
        other != sid,
    ensures
        !without_recording(r, sid).contains_key(sid),
        without_recording(r, sid).contains_key(other) == r.contains_key(other),
        r.contains_key(other) ==> without_recording(r, sid)[other] == r[other],
{
}

/// Uptime counts the whole seconds elapsed since the start: none when the
/// time is not later than the start, otherwise the largest number of
/// seconds that fits in the elapsed time.
pub proof fn lemma_uptime_whole_seconds(start: Timestamp, now: Timestamp)
    requires
        start.nanos < 1_000_000_000,
        now.nanos < 1_000_000_000,
    ensures
        ({
            let elapsed = (now.secs - start.secs) * 1_000_000_000 + now.nanos - start.nanos;
            &&& elapsed <= 0 ==> uptime(start, now) == 0
            &&& elapsed > 0 ==> uptime(start, now) * 1_000_000_000 <= elapsed < (uptime(start, now) + 1)
                * 1_000_000_000
        }),
{
}

} // verus!
