//! The receiver's state and the operations of its control API. Each
//! mutating operation takes the `Authorization` header the request carried,
//! refuses it (and records the refusal in the audit trail) unless the header
//! is `Bearer <api token>`, and otherwise applies its rule and records what
//! it did.

use std::collections::HashMap;

use vstd::prelude::*;
use vstd::std_specs::iter::IteratorSpec;
use vstd::string::*;

use crate::clock::current_time;
use crate::ids::{random_uuid, uuid_simple_text, uuid_text};
use crate::model::{
    clock_reading, AcceptancePolicy, ApiError, AudioMode, AuditEvent, AuditExport, ConnectInstructionsResponse,
    DebugSnapshot, HealthDetail,
    CreateSessionRequest, DashboardSummary, DeviceDescriptor, DiagnosticsBundle, DisplayPolicy,
    HttpStatus, NetworkVisibility, OperatorSettings, PairingPinResponse, PairingPinState,
    PerformancePolicy, PerformanceReport, PinPolicy, PreviewStateResponse, PreviewStreamState,
    ProtocolDescriptor, ProtocolInstruction, ProtocolKind, QueuePolicy, ReceiverPolicy,
    RecordingAck, RecordingState, Rejection, ReliabilityPolicy, ScalingMode, SessionDescriptor,
    SessionPriority, SessionReconnectRequest, SessionReconnectResponse, SessionStatus,
    SignConfigProfileRequest, SignedConfigEnvelope, SignedConfigProfile, StartRecordingRequest,
    StopRecordingRequest, StreamCapabilities, Timestamp, UpdateOperatorSettingsRequest,
    UpdatePolicyRequest, UpdateProtocolRequest, VerifyConfigProfileResponse, before,
};
use crate::net::{BindAddress, BindHost, base_url, host_valid, local_api_base_url};
use crate::policy::{
    apply_operator_update, apply_policy_update, lemma_policy_update_keeps_validity,
    operator_update, performance_report, policy_update, report_for,
};
use crate::receiver::{
    ReceiverModel, accept_effect, accept_events, appended, attempts_after, audited, authorized,
    audit_tail, created_from, dashboard_of, denied, first_index, first_of_kind,
    first_protocol, handoff_victim, has_protocol, has_recording, initial_state, instructions_at,
    lemma_appended_chain, lemma_handoff_unique, lemma_session_index,
    needs_handoff, pin_issued, pin_state_at, preview_of, previewed, protocol_available,
    protocol_index, reconnect_text, recording_text, rejection_is, resumes, session_index,
    session_text, trust_added, trusted_index, upsert_session, with_recording,
    uptime, with_status, without_recording, SNAPSHOT_AUDIT_TAIL,
};
use crate::sessions::{
    StatusGroup, choose_handoff, count_in, count_sessions, find_first, first_in, handoff_choice, has_id,
    lemma_count_none, position_of,
};
use crate::signature::{profile_signature, signature_matches, signature_of};
use crate::text::{blank, bool_text, bool_to_text, decimal_text, fixed_digits_text, is_blank};

verus! {

broadcast use vstd::std_specs::hash::group_hash_axioms;

/// The receiver's state.
pub struct AppState {
    api_token: String,
    bind_addr: BindAddress,
    protocols: Vec<ProtocolDescriptor>,
    sessions: Vec<SessionDescriptor>,
    trusted_devices: Vec<String>,
    recordings: HashMap<u128, RecordingState>,
    audit_log: Vec<AuditEvent>,
    policy: ReceiverPolicy,
    operator_settings: OperatorSettings,
    pairing_pin: Option<PairingPinResponse>,
    signing_secret: Vec<u8>,
    reconnect_attempts: HashMap<u128, u8>,
    reliability: ReliabilityPolicy,
    started_at: Timestamp,
}

impl View for AppState {
    type V = ReceiverModel;

    closed spec fn view(&self) -> ReceiverModel {
        ReceiverModel {
            api_token: self.api_token@,
            bind_addr: self.bind_addr,
            protocols: self.protocols@,
            sessions: self.sessions@,
            trusted: self.trusted_devices@.map_values(|s: String| s@),
            recordings: self.recordings@,
            audit: self.audit_log@,
            policy: self.policy,
            operator: self.operator_settings,
            pairing_pin: self.pairing_pin,
            secret: self.signing_secret@,
            reconnect_attempts: self.reconnect_attempts@,
            reliability: self.reliability,
            started_at: self.started_at,
        }
    }
}

fn protocol(id: &str, kind: ProtocolKind, recording: bool) -> (r: ProtocolDescriptor)
    ensures
        r.id@ == id@,
        r.kind == kind,
        r.enabled,
        r.capabilities.max_resolution@ == "1920x1080"@,
        r.capabilities.max_fps == 60,
        r.capabilities.audio,
        r.capabilities.recording == recording,
{
    ProtocolDescriptor {
        id: String::from_str(id),
        kind,
        enabled: true,
        capabilities: StreamCapabilities {
            max_resolution: String::from_str("1920x1080"),
            max_fps: 60,
            audio: true,
            recording,
        },
    }
}

impl AppState {
    /// A receiver listening on 127.0.0.1:9760.
    pub fn bootstrap(api_token: String) -> (r: Self)
        ensures
            initial_state(
                r@,
                api_token@,
                BindAddress { host: BindHost::V4 { a: 127, b: 0, c: 0, d: 1 }, port: 9760 },
            ),
            r@.wf(),
    {
        Self::bootstrap_with_bind(
            api_token,
            BindAddress { host: BindHost::V4 { a: 127, b: 0, c: 0, d: 1 }, port: 9760 },
        )
    }

    /// A receiver listening on `bind_addr` (a well-formed host), holding the built-in protocols,
    /// one pending seed session and the initial policy.
    pub fn bootstrap_with_bind(api_token: String, bind_addr: BindAddress) -> (r: Self)
        requires
            host_valid(bind_addr.host),
        ensures
            initial_state(r@, api_token@, bind_addr),
            r@.wf(),
    {
        let mut protocols: Vec<ProtocolDescriptor> = Vec::new();
        protocols.push(protocol("airplay", ProtocolKind::AirPlay, true));
        protocols.push(protocol("cast", ProtocolKind::Cast, true));
        protocols.push(protocol("miracast", ProtocolKind::Miracast, false));
        let seed_id = random_uuid();
        let mut sessions: Vec<SessionDescriptor> = Vec::new();
        sessions.push(
            SessionDescriptor {
                id: seed_id,
                protocol: ProtocolKind::AirPlay,
                device: DeviceDescriptor {
                    id: String::from_str("device-ios-seed"),
                    name: String::from_str("Seed iPhone"),
                    platform: String::from_str("iOS"),
                },
                priority: SessionPriority::Normal,
                audio_mode: AudioMode::Full,
                status: SessionStatus::Pending,
                created_at: current_time(),
            },
        );
        let mut secret_text = api_token.clone();
        secret_text.append("-config-signing");
        let signing_secret = secret_text.as_str().as_bytes_vec();
        let performance = PerformancePolicy::default();
        let policy = ReceiverPolicy {
            acceptance: AcceptancePolicy::Ask,
            max_sessions: 4,
            queue_policy: QueuePolicy::FirstIn,
            audio_output_device: String::from_str("default-speaker"),
            display: DisplayPolicy {
                target_display: String::from_str("display-1"),
                scaling_mode: ScalingMode::Fit,
                rotation_degrees: 0,
                preserve_aspect_ratio: true,
            },
            performance,
        };
        proof {
            reveal_strlit("default-speaker");
            reveal_strlit("display-1");
            reveal_strlit("1080p60");
            assert(!crate::text::is_white_space(policy.audio_output_device@[0]));
            assert(!crate::text::is_white_space(policy.display.target_display@[0]));
            assert(!crate::text::is_white_space(policy.performance.baseline_profile@[0]));
        }
        let r = AppState {
            api_token,
            bind_addr,
            protocols,
            sessions,
            trusted_devices: Vec::new(),
            recordings: HashMap::new(),
            audit_log: Vec::new(),
            policy,
            operator_settings: OperatorSettings {
                device_name: String::from_str("Air Sender Receiver"),
                pin_policy: PinPolicy::Always,
                network_visibility: NetworkVisibility::Lan,
            },
            pairing_pin: None,
            signing_secret,
            reconnect_attempts: HashMap::new(),
            reliability: ReliabilityPolicy { reconnect_grace_ms: 4000, max_reconnect_attempts: 5 },
            started_at: current_time(),
        };
        assert(r@.trusted =~= Seq::<Seq<char>>::empty());
        r
    }

    /// Whether the request's `Authorization` header (absent when `None`, or
    /// when it was not text) authorizes a mutation.
    pub fn authorize(&self, auth: Option<&str>) -> (r: Result<(), HttpStatus>)
        ensures
            r is Ok <==> authorized(self@, auth),
            r matches Err(s) ==> s == HttpStatus::Unauthorized,
    {
        match auth {
            Some(h) => {
                let mut expected = String::from_str("Bearer ");
                expected.append(self.api_token.as_str());
                let given = h.to_owned();
                if expected == given {
                    Ok(())
                } else {
                    Err(HttpStatus::Unauthorized)
                }
            },
            None => Err(HttpStatus::Unauthorized),
        }
    }

    /// The base URL by which local clients reach the control API.
    pub fn local_api_base_url(&self) -> (r: String)
        ensures
            r@ == base_url(self@.bind_addr),
    {
        local_api_base_url(&self.bind_addr)
    }

    /// The answer to an unauthorized mutation.
    pub fn unauthorized() -> (r: Rejection)
        ensures
            rejection_is(r, HttpStatus::Unauthorized, "unauthorized"@),
    {
        reject(HttpStatus::Unauthorized, "unauthorized")
    }

    /// Appends an event of the given kind and message, with a fresh id and
    /// the current time, to the audit trail.
    fn audit(&mut self, kind: &str, message: String)
        ensures
            audited(old(self)@, final(self)@, seq![(kind@, message@)]),
    {
        let ghost old_log = self.audit_log@;
        self.audit_log.push(
            AuditEvent { id: random_uuid(), ts: current_time(), kind: String::from_str(kind), message },
        );
        assert(self.audit_log@.take(old_log.len() as int) == old_log);
        assert(self@ == ReceiverModel { audit: self@.audit, ..old(self)@ });
    }

    /// Records a refused mutation of operation `op` and returns the answer.
    fn deny(&mut self, op: &str) -> (r: Rejection)
        ensures
            denied(old(self)@, final(self)@, op@),
            rejection_is(r, HttpStatus::Unauthorized, "unauthorized"@),
    {
        let mut message = String::from_str("unauthorized ");
        message.append(op);
        self.audit("security.denied", message);
        Self::unauthorized()
    }


    /// "session <uuid>" followed by `tail`.
    fn session_message(id: u128, tail: &str) -> (r: String)
        ensures
            r@ == session_text(id, tail@),
    {
        let mut m = String::from_str("session ");
        m.append(uuid_text(id).as_str());
        m.append(tail);
        m
    }

    fn protocol_enabled(&self, kind: ProtocolKind) -> (r: bool)
        ensures
            r == protocol_available(self@.protocols, kind),
    {
        let mut i: usize = 0;
        while i < self.protocols.len()
            invariant
                i <= self.protocols@.len(),
                forall|j: int|
                    0 <= j < i ==> !(#[trigger] self.protocols@[j].kind == kind
                        && self.protocols@[j].enabled),
            decreases self.protocols.len() - i,
        {
            if self.protocols[i].kind == kind && self.protocols[i].enabled {
                return true;
            }
            i = i + 1;
        }
        false
    }

    /// Stores `d` under its id, replacing a session with the same id (which
    /// has no recording).
    fn store_session(&mut self, d: SessionDescriptor)
        requires
            old(self)@.wf(),
            !old(self)@.recordings.contains_key(d.id),
        ensures
            final(self)@ == (ReceiverModel { sessions: upsert_session(old(self)@.sessions, d), ..old(self)@ }),
            final(self)@.wf(),
    {
        match position_of(&self.sessions, d.id) {
            Some(i) => {
                proof {
                    lemma_session_index(self.sessions@, d.id, i as int);
                    crate::receiver::lemma_on_active_update(self.sessions@, self.recordings@, i as int, d);
                    assert(self.recordings@.remove(d.id) =~= self.recordings@);
                }
                let ghost before = self.sessions@;
                self.sessions.set(i, d);
                assert forall|a: int, b: int|
                    0 <= a < self.sessions@.len() && 0 <= b < self.sessions@.len() && a != b
                        implies self.sessions@[a].id != self.sessions@[b].id by {
                    assert(self.sessions@[a].id == before[a].id);
                    assert(self.sessions@[b].id == before[b].id);
                }
            },
            None => {
                proof {
                    crate::receiver::lemma_on_active_push(self.sessions@, self.recordings@, d);
                }
                self.sessions.push(d);
            },
        }
        assert(self@ =~= ReceiverModel { sessions: upsert_session(old(self)@.sessions, d), ..old(self)@ });
    }

    /// Creates a session for a sender device (answered with 201). The
    /// protocol must be enabled (else 409) and audio-only mode needs AirPlay
    /// or Cast (else 400). When the active and pending sessions already fill
    /// the policy's limit the request is refused with 409 "max sessions
    /// reached" and nothing changes; otherwise the new session is active
    /// under automatic acceptance and pending under the others. A new
    /// session has no recording: should its fresh id equal that of a stored
    /// session, that session is replaced and its recording ends.
    pub fn create_mock_session(&mut self, auth: Option<&str>, req: CreateSessionRequest) -> (r: Result<SessionDescriptor, Rejection>)
        requires
            old(self)@.wf(),
        ensures
            final(self)@.wf(),
            !authorized(old(self)@, auth) ==> (r matches Err(e) && rejection_is(e, HttpStatus::Unauthorized, "unauthorized"@)
                && denied(old(self)@, final(self)@, "create_session"@)),
            authorized(old(self)@, auth) && !protocol_available(old(self)@.protocols, req.protocol)
                ==> (r matches Err(e) && rejection_is(e, HttpStatus::Conflict, "protocol is disabled"@)
                && final(self)@ == old(self)@),
            authorized(old(self)@, auth) && protocol_available(old(self)@.protocols, req.protocol)
                && req.audio_mode == Some(AudioMode::AudioOnly) && req.protocol == ProtocolKind::Miracast
                ==> (r matches Err(e) && rejection_is(
                e,
                HttpStatus::BadRequest,
                "audio-only mode is only supported for airplay/cast"@,
            ) && final(self)@ == old(self)@),
            authorized(old(self)@, auth) && protocol_available(old(self)@.protocols, req.protocol)
                && !(req.audio_mode == Some(AudioMode::AudioOnly) && req.protocol == ProtocolKind::Miracast)
                && count_in(old(self)@.sessions, StatusGroup::Occupying) >= old(self)@.policy.max_sessions
                ==> (r matches Err(e) && rejection_is(e, HttpStatus::Conflict, "max sessions reached"@)
                && final(self)@ == old(self)@),
            authorized(old(self)@, auth) && protocol_available(old(self)@.protocols, req.protocol)
                && !(req.audio_mode == Some(AudioMode::AudioOnly) && req.protocol == ProtocolKind::Miracast)
                && count_in(old(self)@.sessions, StatusGroup::Occupying) < old(self)@.policy.max_sessions
                ==> (r matches Ok(d) && created_from(old(self)@, req, d) && audited(
                (ReceiverModel {
                    sessions: upsert_session(old(self)@.sessions, d),
                    recordings: without_recording(old(self)@.recordings, d.id),
                    ..old(self)@
                }),
                final(self)@,
                seq![("session.created"@, session_text(d.id, " created"@))],
            )),
    {
        if self.authorize(auth).is_err() {
            return Err(self.deny("create_session"));
        }
        if !self.protocol_enabled(req.protocol) {
            return Err(reject(HttpStatus::Conflict, "protocol is disabled"));
        }
        let priority = match req.priority {
            Some(p) => p,
            None => SessionPriority::Normal,
        };
        let audio_mode = match req.audio_mode {
            Some(a) => a,
            None => AudioMode::Full,
        };
        if audio_mode == AudioMode::AudioOnly && !(req.protocol == ProtocolKind::AirPlay
            || req.protocol == ProtocolKind::Cast) {
            return Err(
                reject(HttpStatus::BadRequest, "audio-only mode is only supported for airplay/cast"),
            );
        }
        if count_sessions(&self.sessions, StatusGroup::Occupying) >= self.policy.max_sessions {
            return Err(reject(HttpStatus::Conflict, "max sessions reached"));
        }
        let id = random_uuid();
        let status = match self.policy.acceptance {
            AcceptancePolicy::Auto => SessionStatus::Active,
            AcceptancePolicy::Ask => SessionStatus::Pending,
            AcceptancePolicy::TrustedOnly => SessionStatus::Pending,
        };
        let mut device_id = String::from_str("device-");
        device_id.append(uuid_simple_text(id).as_str());
        let descriptor = SessionDescriptor {
            id,
            protocol: req.protocol,
            device: DeviceDescriptor { id: device_id, name: req.device_name, platform: req.device_platform },
            priority,
            audio_mode,
            status,
            created_at: current_time(),
        };
        self.remove_recording(id);
        self.store_session(descriptor.clone());
        self.audit("session.created", Self::session_message(id, " created"));
        Ok(descriptor)
    }

    /// Ends the recording of session `sid`, if there is one; returns whether
    /// there was.
    fn remove_recording(&mut self, sid: u128) -> (r: bool)
        requires
            old(self)@.wf(),
        ensures
            r == has_recording(old(self)@.recordings, sid),
            final(self)@ == (ReceiverModel { recordings: without_recording(old(self)@.recordings, sid), ..old(self)@ }),
            final(self)@.wf(),
    {
        let removed = self.recordings.remove(&sid);
        assert(self@ =~= ReceiverModel { recordings: without_recording(old(self)@.recordings, sid), ..old(self)@ });
        removed.is_some()
    }

    /// Gives the session at position `i` a new status; a session that stops
    /// being active must have no recording.
    fn set_session_status(&mut self, i: usize, st: SessionStatus)
        requires
            old(self)@.wf(),
            i < old(self)@.sessions.len(),
            st == SessionStatus::Active || !old(self)@.recordings.contains_key(old(self)@.sessions[i as int].id),
        ensures
            final(self)@ == (ReceiverModel {
                sessions: old(self)@.sessions.update(i as int, with_status(old(self)@.sessions[i as int], st)),
                ..old(self)@
            }),
            final(self)@.wf(),
    {
        let ghost before = self.sessions@;
        let mut updated = self.sessions[i].clone();
        updated.status = st;
        proof {
            crate::receiver::lemma_on_active_update(before, self.recordings@, i as int, updated);
            if st != SessionStatus::Active {
                assert(self.recordings@.remove(updated.id) =~= self.recordings@);
            }
        }
        self.sessions.set(i, updated);
        assert forall|a: int, b: int|
            0 <= a < self.sessions@.len() && 0 <= b < self.sessions@.len() && a != b
                implies self.sessions@[a].id != self.sessions@[b].id by {
            assert(self.sessions@[a].id == before[a].id);
            assert(self.sessions@[b].id == before[b].id);
        }
        assert(self@ =~= (ReceiverModel {
            sessions: old(self)@.sessions.update(i as int, with_status(old(self)@.sessions[i as int], st)),
            ..old(self)@
        }));
    }

    /// Accepts a pending or queued session (200): it becomes active. When the
    /// active sessions already fill the policy's limit, the active session
    /// that holds its slot most weakly under the queue policy (lowest weight,
    /// then oldest) is stopped and its recording ends. Unknown sessions are
    /// answered 404 and stopped ones 409, with nothing changed.
    pub fn accept_session(&mut self, auth: Option<&str>, id: u128) -> (r: Result<SessionDescriptor, Rejection>)
        requires
            old(self)@.wf(),
        ensures
            final(self)@.wf(),
            !authorized(old(self)@, auth) ==> (r matches Err(e) && rejection_is(e, HttpStatus::Unauthorized, "unauthorized"@)
                && denied(old(self)@, final(self)@, "accept_session"@)),
            authorized(old(self)@, auth) && !has_id(old(self)@.sessions, id) ==> (r matches Err(e)
                && rejection_is(e, HttpStatus::NotFound, "session not found"@) && final(self)@ == old(self)@),
            authorized(old(self)@, auth) && has_id(old(self)@.sessions, id)
                && old(self)@.sessions[session_index(old(self)@.sessions, id)].status == SessionStatus::Stopped
                ==> (r matches Err(e) && rejection_is(e, HttpStatus::Conflict, "cannot accept a stopped session"@)
                && final(self)@ == old(self)@),
            authorized(old(self)@, auth) && has_id(old(self)@.sessions, id)
                && old(self)@.sessions[session_index(old(self)@.sessions, id)].status != SessionStatus::Stopped
                ==> {
                &&& needs_handoff(old(self)@, id) ==> handoff_choice(
                    old(self)@.sessions,
                    old(self)@.policy.queue_policy,
                    handoff_victim(old(self)@.sessions, old(self)@.policy.queue_policy),
                )
                &&& audited(accept_effect(old(self)@, id), final(self)@, accept_events(old(self)@, id))
                &&& r == Ok::<SessionDescriptor, Rejection>(
                    final(self)@.sessions[session_index(old(self)@.sessions, id)],
                )
            },
    {
        if self.authorize(auth).is_err() {
            return Err(self.deny("accept_session"));
        }
        let i = match position_of(&self.sessions, id) {
            Some(i) => i,
            None => {
                return Err(reject(HttpStatus::NotFound, "session not found"));
            },
        };
        proof {
            lemma_session_index(self.sessions@, id, i as int);
        }
        if self.sessions[i].status == SessionStatus::Stopped {
            return Err(reject(HttpStatus::Conflict, "cannot accept a stopped session"));
        }
        let ghost m0 = self@;
        let active = count_sessions(&self.sessions, StatusGroup::Active);
        let needs = active >= self.policy.max_sessions && self.sessions[i].status != SessionStatus::Active;
        assert(needs == needs_handoff(m0, id));
        if needs {
            match choose_handoff(&self.sessions, self.policy.queue_policy) {
                Some(v) => {
                    proof {
                        lemma_handoff_unique(
                            m0.sessions,
                            m0.policy.queue_policy,
                            v as int,
                            handoff_victim(m0.sessions, m0.policy.queue_policy),
                        );
                    }
                    let victim_id = self.sessions[v].id;
                    self.remove_recording(victim_id);
                    self.set_session_status(v, SessionStatus::Stopped);
                    self.audit("session.handoff", Self::session_message(victim_id, " stopped for handoff"));
                },
                None => {
                    proof {
                        lemma_count_none(m0.sessions, StatusGroup::Active);
                    }
                },
            }
        }
        let ghost m1 = self@;
        self.set_session_status(i, SessionStatus::Active);
        let accepted = self.sessions[i].clone();
        let ghost m2 = self@;
        self.audit("session.accepted", Self::session_message(id, " accepted"));
        proof {
            if needs {
                assert(m0.sessions[session_index(m0.sessions, id)].status != SessionStatus::Active);
                lemma_appended_chain(
                    m0.audit,
                    m1.audit,
                    self@.audit,
                    seq![("session.handoff"@, session_text(m0.sessions[handoff_victim(m0.sessions, m0.policy.queue_policy)].id, " stopped for handoff"@))],
                    seq![("session.accepted"@, session_text(id, " accepted"@))],
                );
                assert(accept_events(m0, id) =~= seq![("session.handoff"@, session_text(m0.sessions[handoff_victim(m0.sessions, m0.policy.queue_policy)].id, " stopped for handoff"@))]
                    + seq![("session.accepted"@, session_text(id, " accepted"@))]);
                assert(m2 =~= (ReceiverModel { audit: m1.audit, ..accept_effect(m0, id) }));
            } else {
                assert(m2 =~= (ReceiverModel { audit: m0.audit, ..accept_effect(m0, id) }));
            }
        }
        Ok(accepted)
    }


    /// Stops a session (200): it becomes stopped and its recording ends.
    /// Unknown sessions are answered 404 with nothing changed.
    pub fn stop_session(&mut self, auth: Option<&str>, id: u128) -> (r: Result<SessionDescriptor, Rejection>)
        requires
            old(self)@.wf(),
        ensures
            final(self)@.wf(),
            !authorized(old(self)@, auth) ==> (r matches Err(e) && rejection_is(e, HttpStatus::Unauthorized, "unauthorized"@)
                && denied(old(self)@, final(self)@, "stop_session"@)),
            authorized(old(self)@, auth) && !has_id(old(self)@.sessions, id) ==> (r matches Err(e)
                && rejection_is(e, HttpStatus::NotFound, "session not found"@) && final(self)@ == old(self)@),
            authorized(old(self)@, auth) && has_id(old(self)@.sessions, id) ==> ({
                let s = old(self)@.sessions;
                let i = session_index(s, id);
                &&& audited(
                    (ReceiverModel {
                        sessions: s.update(i, with_status(s[i], SessionStatus::Stopped)),
                        recordings: without_recording(old(self)@.recordings, id),
                        ..old(self)@
                    }),
                    final(self)@,
                    seq![("session.stopped"@, session_text(id, " stopped"@))],
                )
                &&& r == Ok::<SessionDescriptor, Rejection>(with_status(s[i], SessionStatus::Stopped))
            }),
    {
        if self.authorize(auth).is_err() {
            return Err(self.deny("stop_session"));
        }
        let i = match position_of(&self.sessions, id) {
            Some(i) => i,
            None => {
                return Err(reject(HttpStatus::NotFound, "session not found"));
            },
        };
        proof {
            lemma_session_index(self.sessions@, id, i as int);
        }
        self.remove_recording(id);
        self.set_session_status(i, SessionStatus::Stopped);
        let stopped = self.sessions[i].clone();
        self.audit("session.stopped", Self::session_message(id, " stopped"));
        Ok(stopped)
    }

    /// Reports a transport disruption of a session (200). The attempt count
    /// grows by one; the session resumes as active when the stream dropped,
    /// the jitter is within the grace window and the attempts within the
    /// limit, and is queued otherwise; a session that is queued loses its
    /// recording, since recordings run on active sessions only. Unknown
    /// sessions are answered 404 and stopped ones 409, with nothing changed.
    pub fn reconnect_session(&mut self, auth: Option<&str>, id: u128, req: SessionReconnectRequest) -> (r: Result<SessionReconnectResponse, Rejection>)
        requires
            old(self)@.wf(),
        ensures
            final(self)@.wf(),
            !authorized(old(self)@, auth) ==> (r matches Err(e) && rejection_is(e, HttpStatus::Unauthorized, "unauthorized"@)
                && denied(old(self)@, final(self)@, "reconnect_session"@)),
            authorized(old(self)@, auth) && !has_id(old(self)@.sessions, id) ==> (r matches Err(e)
                && rejection_is(e, HttpStatus::NotFound, "session not found"@) && final(self)@ == old(self)@),
            authorized(old(self)@, auth) && has_id(old(self)@.sessions, id)
                && old(self)@.sessions[session_index(old(self)@.sessions, id)].status == SessionStatus::Stopped
                ==> (r matches Err(e) && rejection_is(e, HttpStatus::Conflict, "cannot reconnect a stopped session"@)
                && final(self)@ == old(self)@),
            authorized(old(self)@, auth) && has_id(old(self)@.sessions, id)
                && old(self)@.sessions[session_index(old(self)@.sessions, id)].status != SessionStatus::Stopped
                ==> ({
                let m = old(self)@;
                let i = session_index(m.sessions, id);
                let resumed = resumes(m, id, req);
                let status = if resumed {
                    SessionStatus::Active
                } else {
                    SessionStatus::Queued
                };
                let attempts = attempts_after(m, id);
                &&& audited(
                    (ReceiverModel {
                        sessions: m.sessions.update(i, with_status(m.sessions[i], status)),
                        reconnect_attempts: m.reconnect_attempts.insert(id, attempts),
                        recordings: if resumed { m.recordings } else { without_recording(m.recordings, id) },
                        ..m
                    }),
                    final(self)@,
                    seq![("session.reconnect"@, reconnect_text(id, req, resumed, attempts))],
                )
                &&& r matches Ok(resp) && resp.session_id == id && resp.status == status
                    && resp.reconnect_attempts == attempts && resp.resumed == resumed
            }),
    {
        if self.authorize(auth).is_err() {
            return Err(self.deny("reconnect_session"));
        }
        let i = match position_of(&self.sessions, id) {
            Some(i) => i,
            None => {
                return Err(reject(HttpStatus::NotFound, "session not found"));
            },
        };
        proof {
            lemma_session_index(self.sessions@, id, i as int);
        }
        if self.sessions[i].status == SessionStatus::Stopped {
            return Err(reject(HttpStatus::Conflict, "cannot reconnect a stopped session"));
        }
        let ghost m0 = self@;
        let prior: u8 = match self.reconnect_attempts.get(&id) {
            Some(c) => *c,
            None => 0,
        };
        let count = prior.saturating_add(1);
        self.reconnect_attempts.insert(id, count);
        let resumed = req.dropped && (req.jitter_ms as u64) <= self.reliability.reconnect_grace_ms
            && count <= self.reliability.max_reconnect_attempts;
        let status = if resumed {
            SessionStatus::Active
        } else {
            SessionStatus::Queued
        };
        if !resumed {
            self.remove_recording(id);
        }
        self.set_session_status(i, status);
        let mut tail = String::from_str(" reconnect dropped=");
        tail.append(bool_to_text(req.dropped).as_str());
        tail.append(" jitter_ms=");
        tail.append(decimal_text(req.jitter_ms as u64).as_str());
        tail.append(" resumed=");
        tail.append(bool_to_text(resumed).as_str());
        tail.append(" attempts=");
        tail.append(decimal_text(count as u64).as_str());
        self.audit("session.reconnect", Self::session_message(id, tail.as_str()));
        assert(self@.reconnect_attempts == m0.reconnect_attempts.insert(id, count));
        Ok(SessionReconnectResponse { session_id: id, status, reconnect_attempts: count, resumed })
    }

    /// "recording <verb> for <uuid>".
    fn recording_message(verb: &str, sid: u128) -> (r: String)
        ensures
            r@ == recording_text(verb@, sid),
    {
        let mut m = String::from_str("recording ");
        m.append(verb);
        m.append(" for ");
        m.append(uuid_text(sid).as_str());
        m
    }

    /// Starts recording an active session (200), replacing a recording it
    /// already has. Unknown sessions are answered 404 and sessions that are
    /// not active 409, with nothing changed.
    pub fn start_recording(&mut self, auth: Option<&str>, req: StartRecordingRequest) -> (r: Result<RecordingAck, Rejection>)
        requires
            old(self)@.wf(),
        ensures
            final(self)@.wf(),
            !authorized(old(self)@, auth) ==> (r matches Err(e) && rejection_is(e, HttpStatus::Unauthorized, "unauthorized"@)
                && denied(old(self)@, final(self)@, "start_recording"@)),
            authorized(old(self)@, auth) && !has_id(old(self)@.sessions, req.session_id) ==> (r matches Err(e)
                && rejection_is(e, HttpStatus::NotFound, "session not found"@) && final(self)@ == old(self)@),
            authorized(old(self)@, auth) && has_id(old(self)@.sessions, req.session_id)
                && old(self)@.sessions[session_index(old(self)@.sessions, req.session_id)].status != SessionStatus::Active
                ==> (r matches Err(e) && rejection_is(e, HttpStatus::Conflict, "session must be active to start recording"@)
                && final(self)@ == old(self)@),
            authorized(old(self)@, auth) && has_id(old(self)@.sessions, req.session_id)
                && old(self)@.sessions[session_index(old(self)@.sessions, req.session_id)].status == SessionStatus::Active
                ==> ({
                &&& exists|started_at: Timestamp|
                    clock_reading(started_at) && audited(
                        (ReceiverModel {
                            recordings: #[trigger] with_recording(
                                old(self)@.recordings,
                                req.session_id,
                                req.profile,
                                started_at,
                            ),
                            ..old(self)@
                        }),
                        final(self)@,
                        seq![("recording.started"@, recording_text("started"@, req.session_id))],
                    )
                &&& r matches Ok(ack) && ack.session_id == req.session_id && ack.status@ == "recording"@
            }),
    {
        if self.authorize(auth).is_err() {
            return Err(self.deny("start_recording"));
        }
        let sid = req.session_id;
        let i = match position_of(&self.sessions, sid) {
            Some(i) => i,
            None => {
                return Err(reject(HttpStatus::NotFound, "session not found"));
            },
        };
        proof {
            lemma_session_index(self.sessions@, sid, i as int);
        }
        if self.sessions[i].status != SessionStatus::Active {
            return Err(reject(HttpStatus::Conflict, "session must be active to start recording"));
        }
        let ghost m0 = self@;
        let recording = RecordingState { session_id: sid, profile: req.profile, started_at: current_time() };
        let ghost x = recording;
        self.recordings.insert(sid, recording);
        assert(self@ =~= (ReceiverModel { recordings: m0.recordings.insert(sid, x), ..m0 }));
        assert(crate::receiver::active_id(m0.sessions, sid)) by {
            assert(m0.sessions[i as int].id == sid);
        }
        self.audit("recording.started", Self::recording_message("started", sid));
        assert(self@.recordings == with_recording(m0.recordings, sid, x.profile, x.started_at));
        Ok(RecordingAck { session_id: sid, status: String::from_str("recording") })
    }

    /// Stops the recording of a session (200). A session without a recording
    /// is answered 404 with nothing changed.
    pub fn stop_recording(&mut self, auth: Option<&str>, req: StopRecordingRequest) -> (r: Result<RecordingAck, Rejection>)
        requires
            old(self)@.wf(),
        ensures
            final(self)@.wf(),
            !authorized(old(self)@, auth) ==> (r matches Err(e) && rejection_is(e, HttpStatus::Unauthorized, "unauthorized"@)
                && denied(old(self)@, final(self)@, "stop_recording"@)),
            authorized(old(self)@, auth) && !has_recording(old(self)@.recordings, req.session_id) ==> (r matches Err(e)
                && rejection_is(e, HttpStatus::NotFound, "recording not active"@) && final(self)@ == old(self)@),
            authorized(old(self)@, auth) && has_recording(old(self)@.recordings, req.session_id) ==> ({
                &&& audited(
                    (ReceiverModel {
                        recordings: without_recording(old(self)@.recordings, req.session_id),
                        ..old(self)@
                    }),
                    final(self)@,
                    seq![("recording.stopped"@, recording_text("stopped"@, req.session_id))],
                )
                &&& r matches Ok(ack) && ack.session_id == req.session_id && ack.status@ == "stopped"@
            }),
    {
        if self.authorize(auth).is_err() {
            return Err(self.deny("stop_recording"));
        }
        if self.remove_recording(req.session_id) {
            self.audit("recording.stopped", Self::recording_message("stopped", req.session_id));
            Ok(RecordingAck { session_id: req.session_id, status: String::from_str("stopped") })
        } else {
            Err(reject(HttpStatus::NotFound, "recording not active"))
        }
    }


    fn trusted_position(&self, device_id: &String) -> (r: Option<usize>)
        ensures
            match r {
                Some(i) => i < self@.trusted.len() && self@.trusted[i as int] == device_id@,
                None => !self@.trusted.contains(device_id@),
            },
    {
        let mut i: usize = 0;
        while i < self.trusted_devices.len()
            invariant
                i <= self.trusted_devices@.len(),
                forall|j: int| 0 <= j < i ==> #[trigger] self.trusted_devices@[j]@ != device_id@,
            decreases self.trusted_devices.len() - i,
        {
            if self.trusted_devices[i] == *device_id {
                return Some(i);
            }
            i = i + 1;
        }
        proof {
            if self@.trusted.contains(device_id@) {
                let k = choose|k: int| 0 <= k < self@.trusted.len() && self@.trusted[k] == device_id@;
                assert(self.trusted_devices@[k]@ == device_id@);
            }
        }
        None
    }

    /// Trusts a sender device (200); trusting it again changes nothing but
    /// the audit trail.
    pub fn trust_device(&mut self, auth: Option<&str>, device_id: String) -> (r: Result<String, Rejection>)
        requires
            old(self)@.wf(),
        ensures
            final(self)@.wf(),
            !authorized(old(self)@, auth) ==> (r matches Err(e) && rejection_is(e, HttpStatus::Unauthorized, "unauthorized"@)
                && denied(old(self)@, final(self)@, "trust_device"@)),
            authorized(old(self)@, auth) ==> ({
                &&& audited(
                    (ReceiverModel { trusted: trust_added(old(self)@.trusted, device_id@), ..old(self)@ }),
                    final(self)@,
                    seq![("pairing.trusted"@, "trusted "@ + device_id@)],
                )
                &&& r matches Ok(d) && d@ == device_id@
            }),
    {
        if self.authorize(auth).is_err() {
            return Err(self.deny("trust_device"));
        }
        let ghost m0 = self@;
        match self.trusted_position(&device_id) {
            Some(_) => {},
            None => {
                self.trusted_devices.push(device_id.clone());
                assert(self@.trusted =~= m0.trusted.push(device_id@));
                assert forall|a: int, b: int|
                    0 <= a < self@.trusted.len() && 0 <= b < self@.trusted.len() && a != b
                        implies self@.trusted[a] != self@.trusted[b] by {
                    if a == m0.trusted.len() as int {
                        assert(!m0.trusted.contains(device_id@));
                        assert(m0.trusted[b] == self@.trusted[b]);
                    } else if b == m0.trusted.len() as int {
                        assert(!m0.trusted.contains(device_id@));
                        assert(m0.trusted[a] == self@.trusted[a]);
                    }
                }
            },
        }
        assert(self@ =~= (ReceiverModel { trusted: trust_added(m0.trusted, device_id@), ..m0 }));
        let mut message = String::from_str("trusted ");
        message.append(device_id.as_str());
        self.audit("pairing.trusted", message);
        Ok(device_id)
    }

    /// Revokes the trust of a device (200). A device that is not trusted is
    /// answered 404 with nothing changed.
    pub fn revoke_trust(&mut self, auth: Option<&str>, device_id: String) -> (r: Result<String, Rejection>)
        requires
            old(self)@.wf(),
        ensures
            final(self)@.wf(),
            !authorized(old(self)@, auth) ==> (r matches Err(e) && rejection_is(e, HttpStatus::Unauthorized, "unauthorized"@)
                && denied(old(self)@, final(self)@, "revoke_trust"@)),
            authorized(old(self)@, auth) && !old(self)@.trusted.contains(device_id@) ==> (r matches Err(e)
                && rejection_is(e, HttpStatus::NotFound, "device not trusted"@) && final(self)@ == old(self)@),
            authorized(old(self)@, auth) && old(self)@.trusted.contains(device_id@) ==> ({
                &&& audited(
                    (ReceiverModel {
                        trusted: old(self)@.trusted.remove(trusted_index(old(self)@.trusted, device_id@)),
                        ..old(self)@
                    }),
                    final(self)@,
                    seq![("pairing.revoked"@, "revoked "@ + device_id@)],
                )
                &&& r matches Ok(d) && d@ == device_id@
            }),
    {
        if self.authorize(auth).is_err() {
            return Err(self.deny("revoke_trust"));
        }
        let ghost m0 = self@;
        match self.trusted_position(&device_id) {
            Some(i) => {
                assert(trusted_index(m0.trusted, device_id@) == i as int);
                self.trusted_devices.remove(i);
                assert(self@.trusted =~= m0.trusted.remove(i as int));
                assert forall|a: int, b: int|
                    0 <= a < self@.trusted.len() && 0 <= b < self@.trusted.len() && a != b
                        implies self@.trusted[a] != self@.trusted[b] by {
                    let a0 = if a < i { a } else { a + 1 };
                    let b0 = if b < i { b } else { b + 1 };
                    assert(self@.trusted[a] == m0.trusted[a0]);
                    assert(self@.trusted[b] == m0.trusted[b0]);
                }
                assert(self@ =~= (ReceiverModel { trusted: m0.trusted.remove(i as int), ..m0 }));
                let mut message = String::from_str("revoked ");
                message.append(device_id.as_str());
                self.audit("pairing.revoked", message);
                Ok(device_id)
            },
            None => Err(reject(HttpStatus::NotFound, "device not trusted")),
        }
    }

    /// Enables or disables a protocol (200). An unknown protocol id is
    /// answered 404 with nothing changed.
    pub fn update_protocol(&mut self, auth: Option<&str>, id: &str, req: UpdateProtocolRequest) -> (r: Result<ProtocolDescriptor, Rejection>)
        requires
            old(self)@.wf(),
        ensures
            final(self)@.wf(),
            !authorized(old(self)@, auth) ==> (r matches Err(e) && rejection_is(e, HttpStatus::Unauthorized, "unauthorized"@)
                && denied(old(self)@, final(self)@, "update_protocol"@)),
            authorized(old(self)@, auth) && !has_protocol(old(self)@.protocols, id@) ==> (r matches Err(e)
                && rejection_is(e, HttpStatus::NotFound, "protocol not found"@) && final(self)@ == old(self)@),
            authorized(old(self)@, auth) && has_protocol(old(self)@.protocols, id@) ==> ({
                let ps = old(self)@.protocols;
                let i = protocol_index(ps, id@);
                let updated = ProtocolDescriptor { enabled: req.enabled, ..ps[i] };
                &&& first_protocol(ps, id@, i)
                &&& audited(
                    (ReceiverModel { protocols: ps.update(i, updated), ..old(self)@ }),
                    final(self)@,
                    seq![("protocol.updated"@, "protocol "@ + ps[i].id@ + " enabled="@ + bool_text(req.enabled))],
                )
                &&& r == Ok::<ProtocolDescriptor, Rejection>(updated)
            }),
    {
        if self.authorize(auth).is_err() {
            return Err(self.deny("update_protocol"));
        }
        let ghost m0 = self@;
        let wanted = id.to_owned();
        let mut i: usize = 0;
        while i < self.protocols.len()
            invariant
                i <= self.protocols@.len(),
                self@ == m0,
                m0 == old(self)@,
                m0.wf(),
                authorized(m0, auth),
                wanted@ == id@,
                forall|j: int| 0 <= j < i ==> (#[trigger] self.protocols@[j]).id@ != id@,
            decreases self.protocols.len() - i,
        {
            if self.protocols[i].id == wanted {
                proof {
                    assert(first_protocol(m0.protocols, id@, i as int));
                    let k = protocol_index(m0.protocols, id@);
                    assert(first_protocol(m0.protocols, id@, k));
                    if k < i {
                        assert(m0.protocols[k].id@ != id@);
                    } else if k > i {
                        assert(m0.protocols[i as int].id@ != id@);
                    }
                }
                let mut updated = self.protocols[i].clone();
                updated.enabled = req.enabled;
                self.protocols.set(i, updated.clone());
                assert(self@ =~= (ReceiverModel { protocols: m0.protocols.update(i as int, updated), ..m0 }));
                let mut message = String::from_str("protocol ");
                message.append(updated.id.as_str());
                message.append(" enabled=");
                message.append(bool_to_text(req.enabled).as_str());
                self.audit("protocol.updated", message);
                return Ok(updated);
            }
            i = i + 1;
        }
        Err(reject(HttpStatus::NotFound, "protocol not found"))
    }

    /// Updates the operator settings (200). A blank device name is answered
    /// 400 with nothing changed.
    pub fn update_operator_settings(&mut self, auth: Option<&str>, req: UpdateOperatorSettingsRequest) -> (r: Result<OperatorSettings, Rejection>)
        requires
            old(self)@.wf(),
        ensures
            final(self)@.wf(),
            !authorized(old(self)@, auth) ==> (r matches Err(e) && rejection_is(e, HttpStatus::Unauthorized, "unauthorized"@)
                && denied(old(self)@, final(self)@, "update_operator_settings"@)),
            authorized(old(self)@, auth) ==> ({
                let (updated, error) = operator_update(old(self)@.operator, req);
                match error {
                    Some(msg) => r matches Err(e) && rejection_is(e, HttpStatus::BadRequest, msg)
                        && final(self)@ == old(self)@,
                    None => audited(
                        (ReceiverModel { operator: updated, ..old(self)@ }),
                        final(self)@,
                        seq![("operator.updated"@, "operator settings updated"@)],
                    ) && r == Ok::<OperatorSettings, Rejection>(updated),
                }
            }),
    {
        if self.authorize(auth).is_err() {
            return Err(self.deny("update_operator_settings"));
        }
        let ghost m0 = self@;
        match apply_operator_update(&mut self.operator_settings, req) {
            Some(msg) => {
                assert(self@ =~= m0);
                Err(Rejection { status: HttpStatus::BadRequest, body: ApiError { error: msg } })
            },
            None => {
                self.audit("operator.updated", String::from_str("operator settings updated"));
                Ok(self.operator_settings.clone())
            },
        }
    }

    /// Applies a partial policy update (200): see `policy_update`. A refused
    /// update (a value out of range or a blank text) is answered 400 and
    /// changes nothing: neither the policy nor the audit trail.
    pub fn update_policy(&mut self, auth: Option<&str>, req: UpdatePolicyRequest) -> (r: Result<ReceiverPolicy, Rejection>)
        requires
            old(self)@.wf(),
        ensures
            final(self)@.wf(),
            !authorized(old(self)@, auth) ==> (r matches Err(e) && rejection_is(e, HttpStatus::Unauthorized, "unauthorized"@)
                && denied(old(self)@, final(self)@, "update_policy"@)),
            authorized(old(self)@, auth) ==> ({
                let (updated, error) = policy_update(old(self)@.policy, req);
                match error {
                    Some(msg) => r matches Err(e) && rejection_is(e, HttpStatus::BadRequest, msg)
                        && final(self)@ == old(self)@,
                    None => audited(
                        (ReceiverModel { policy: updated, ..old(self)@ }),
                        final(self)@,
                        seq![("policy.updated"@, "receiver policy updated"@)],
                    ) && r == Ok::<ReceiverPolicy, Rejection>(updated),
                }
            }),
    {
        if self.authorize(auth).is_err() {
            return Err(self.deny("update_policy"));
        }
        proof {
            lemma_policy_update_keeps_validity(self.policy, req);
        }
        match apply_policy_update(&mut self.policy, req) {
            Some(msg) => Err(Rejection { status: HttpStatus::BadRequest, body: ApiError { error: msg } }),
            None => {
                self.audit("policy.updated", String::from_str("receiver policy updated"));
                Ok(self.policy.clone())
            },
        }
    }


    /// The pairing-pin state as seen at time `now`.
    pub fn pairing_pin_state_at(&self, now: Timestamp) -> (r: PairingPinState)
        ensures
            r == pin_state_at(self@, now),
    {
        let enabled = self.operator_settings.pin_policy != PinPolicy::Disabled;
        match &self.pairing_pin {
            Some(p) => {
                if now.is_before(&p.expires_at) {
                    PairingPinState { enabled, pin: Some(p.pin.clone()), expires_at: Some(p.expires_at) }
                } else {
                    PairingPinState { enabled, pin: None, expires_at: None }
                }
            },
            None => PairingPinState { enabled, pin: None, expires_at: None },
        }
    }

    /// The pairing-pin state now: whether pins are enabled, and the current
    /// pin and its expiry unless it has expired.
    pub fn get_pairing_pin_state(&self) -> (r: PairingPinState)
        ensures
            exists|now: Timestamp| clock_reading(now) && r == #[trigger] pin_state_at(self@, now),
    {
        let now = current_time();
        self.pairing_pin_state_at(now)
    }

    /// The pin issued from clock readings `t1` and `t2`.
    pub fn pin_for(t1: Timestamp, t2: Timestamp) -> (r: PairingPinResponse)
        requires
            t2.secs <= i64::MAX - 300,
        ensures
            pin_issued(r, t1, t2),
    {
        let millis = ((t1.nanos / 1_000_000) % 1_000_000) as u64;
        PairingPinResponse {
            pin: fixed_digits_text(millis, 10, 6),
            expires_at: Timestamp { secs: t2.secs + 300, nanos: t2.nanos },
        }
    }

    /// Issues an on-screen pairing pin (200) from the clock's millisecond
    /// reading (so the pin lies in 000000..000999), valid for five minutes;
    /// it replaces any earlier pin.
    pub fn generate_pairing_pin(&mut self, auth: Option<&str>) -> (r: Result<PairingPinResponse, Rejection>)
        requires
            old(self)@.wf(),
        ensures
            final(self)@.wf(),
            !authorized(old(self)@, auth) ==> (r matches Err(e) && rejection_is(e, HttpStatus::Unauthorized, "unauthorized"@)
                && denied(old(self)@, final(self)@, "generate_pairing_pin"@)),
            authorized(old(self)@, auth) ==> (r matches Ok(pin) && (exists|t1: Timestamp, t2: Timestamp|
                clock_reading(t1) && clock_reading(t2) && #[trigger] pin_issued(pin, t1, t2)) && audited(
                (ReceiverModel { pairing_pin: Some(pin), ..old(self)@ }),
                final(self)@,
                seq![("pairing.pin.generated"@, "on-screen pin generated"@)],
            )),
    {
        if self.authorize(auth).is_err() {
            return Err(self.deny("generate_pairing_pin"));
        }
        let t1 = current_time();
        let t2 = current_time();
        let response = Self::pin_for(t1, t2);
        self.pairing_pin = Some(response.clone());
        self.audit("pairing.pin.generated", String::from_str("on-screen pin generated"));
        Ok(response)
    }

    /// The connection instructions as seen at time `now`.
    pub fn connect_instructions_at(&self, now: Timestamp) -> (r: ConnectInstructionsResponse)
        ensures
            instructions_at(self@, now, r),
    {
        let mut url = local_api_base_url(&self.bind_addr);
        url.append("/v1/connect/instructions");
        let mut hints: Vec<ProtocolInstruction> = Vec::new();
        hints.push(
            ProtocolInstruction {
                protocol: String::from_str("AirPlay"),
                hint: String::from_str(
                    "On iPhone, open Control Center, tap Screen Mirroring, then choose this receiver.",
                ),
            },
        );
        hints.push(
            ProtocolInstruction {
                protocol: String::from_str("Cast"),
                hint: String::from_str("In Chrome or Android apps, tap Cast and pick this receiver name."),
            },
        );
        hints.push(
            ProtocolInstruction {
                protocol: String::from_str("Miracast"),
                hint: String::from_str(
                    "On Windows, press Win+K and select this receiver from wireless displays.",
                ),
            },
        );
        ConnectInstructionsResponse {
            receiver_name: self.operator_settings.device_name.clone(),
            local_url: url,
            pairing_pin: self.pairing_pin_state_at(now),
            protocol_hints: hints,
        }
    }

    /// How senders connect: the receiver's name, the local API URL, the
    /// pairing-pin state now, and one hint per protocol.
    pub fn get_connect_instructions(&self) -> (r: ConnectInstructionsResponse)
        ensures
            exists|now: Timestamp| clock_reading(now) && #[trigger] instructions_at(self@, now, r),
    {
        let now = current_time();
        self.connect_instructions_at(now)
    }

    fn catalogue_position(&self, kind: ProtocolKind) -> (r: Option<usize>)
        ensures
            match r {
                Some(i) => first_of_kind(self@.protocols, kind, i as int),
                None => !(exists|i: int| first_of_kind(self@.protocols, kind, i)),
            },
    {
        let mut i: usize = 0;
        while i < self.protocols.len()
            invariant
                i <= self.protocols@.len(),
                forall|j: int| 0 <= j < i ==> (#[trigger] self.protocols@[j]).kind != kind,
            decreases self.protocols.len() - i,
        {
            if self.protocols[i].kind == kind {
                return Some(i);
            }
            i = i + 1;
        }
        proof {
            assert forall|k: int| !first_of_kind(self@.protocols, kind, k) by {
                if 0 <= k < self@.protocols.len() {
                    assert(self.protocols@[k].kind != kind);
                }
            }
        }
        None
    }

    /// What the preview pane shows: the first active session as live, else
    /// the first pending or queued one as connecting, else no stream; with
    /// the resolution and frame rate of that session's protocol.
    pub fn get_preview_state(&self) -> (r: PreviewStateResponse)
        ensures
            r == preview_of(self@),
    {
        let s = &self.sessions;
        let (state, current) = match find_first(s, StatusGroup::Active) {
            Some(i) => (PreviewStreamState::Live, Some(i)),
            None => match find_first(s, StatusGroup::Waiting) {
                Some(i) => (PreviewStreamState::Connecting, Some(i)),
                None => (PreviewStreamState::NoActiveStream, None),
            },
        };
        proof {
            match current {
                Some(i) => {
                    let g = if state == PreviewStreamState::Live {
                        StatusGroup::Active
                    } else {
                        StatusGroup::Waiting
                    };
                    let k = first_index(s@, g);
                    assert(first_in(s@, g, k));
                    if k < i {
                        assert(crate::sessions::in_group(g, s@[k].status));
                    } else if k > i {
                        assert(crate::sessions::in_group(g, s@[i as int].status));
                    }
                    assert(previewed(s@) == Some(s@[i as int]));
                },
                None => {},
            }
        }
        match current {
            Some(i) => {
                let session = &s[i];
                let (resolution, fps_target) = match self.catalogue_position(session.protocol) {
                    Some(p) => {
                        proof {
                            let k = choose|k: int| first_of_kind(self@.protocols, session.protocol, k);
                            if k < p {
                                assert(self@.protocols[k].kind != session.protocol);
                            } else if k > p {
                                assert(self@.protocols[p as int].kind != session.protocol);
                            }
                        }
                        (
                            Some(self.protocols[p].capabilities.max_resolution.clone()),
                            Some(self.protocols[p].capabilities.max_fps),
                        )
                    },
                    None => (None, None),
                };
                PreviewStateResponse {
                    stream_state: state,
                    resolution,
                    fps_target,
                    session_id: Some(session.id),
                    protocol: Some(session.protocol),
                    device_name: Some(session.device.name.clone()),
                }
            },
            None => PreviewStateResponse {
                stream_state: state,
                resolution: None,
                fps_target: None,
                session_id: None,
                protocol: None,
                device_name: None,
            },
        }
    }

    /// The audit trail for export, stamped with the time of export.
    pub fn export_audit(&self) -> (r: AuditExport)
        ensures
            clock_reading(r.exported_at),
            r.format@ == "jsonl-compatible"@,
            r.total_events == self@.audit.len(),
            r.events@ == self@.audit,
    {
        let events = self.get_audit();
        AuditExport {
            exported_at: current_time(),
            format: String::from_str("jsonl-compatible"),
            total_events: events.len(),
            events,
        }
    }

    /// The expected throughput under the current policy.
    pub fn get_performance_report(&self) -> (r: PerformanceReport)
        ensures
            report_for(self@.policy, r),
    {
        performance_report(&self.policy)
    }

    /// Everything support needs in one bundle, stamped with the time it was
    /// made.
    pub fn get_diagnostics_bundle(&self) -> (r: DiagnosticsBundle)
        ensures
            clock_reading(r.generated_at),
            r.dashboard == dashboard_of(self@),
            r.policy == self@.policy,
            r.reliability == self@.reliability,
            r.sessions@ == self@.sessions,
            r.active_recordings@.len() == self@.recordings.len(),
            r.active_recordings@.to_set() == self@.recordings.values(),
            r.protocol_status@ == self@.protocols,
    {
        DiagnosticsBundle {
            generated_at: current_time(),
            dashboard: self.get_dashboard(),
            policy: self.get_policy(),
            reliability: self.reliability,
            sessions: self.get_sessions(),
            active_recordings: self.get_recordings(),
            protocol_status: self.get_protocols(),
        }
    }

    /// Starts signing a configuration profile: checks the name and stamps
    /// the profile with the current time. Its serialized bytes are then
    /// sealed with `seal_config_profile`. A blank name is answered 400.
    pub fn sign_config_profile(&mut self, auth: Option<&str>, req: SignConfigProfileRequest) -> (r: Result<SignedConfigProfile, Rejection>)
        requires
            old(self)@.wf(),
        ensures
            final(self)@.wf(),
            !authorized(old(self)@, auth) ==> (r matches Err(e) && rejection_is(e, HttpStatus::Unauthorized, "unauthorized"@)
                && denied(old(self)@, final(self)@, "sign_config_profile"@)),
            authorized(old(self)@, auth) && blank(req.name@) ==> (r matches Err(e)
                && rejection_is(e, HttpStatus::BadRequest, "profile name cannot be empty"@)
                && final(self)@ == old(self)@),
            authorized(old(self)@, auth) && !blank(req.name@) ==> (r matches Ok(p) && p.name == req.name
                && clock_reading(p.issued_at) && p.policy == req.policy && p.operator == req.operator && final(self)@ == old(self)@),
    {
        if self.authorize(auth).is_err() {
            return Err(self.deny("sign_config_profile"));
        }
        if is_blank(req.name.as_str()) {
            return Err(reject(HttpStatus::BadRequest, "profile name cannot be empty"));
        }
        Ok(
            SignedConfigProfile {
                name: req.name,
                issued_at: current_time(),
                policy: req.policy,
                operator: req.operator,
            },
        )
    }

    /// Seals a profile (200): signs `payload`, the profile's serialized
    /// bytes, with the receiver's signing secret. Like every signing step it
    /// needs the bearer token; a refusal is recorded as a denied
    /// `sign_config_profile`.
    pub fn seal_config_profile(&mut self, auth: Option<&str>, profile: SignedConfigProfile, payload: &[u8]) -> (r: Result<SignedConfigEnvelope, Rejection>)
        requires
            old(self)@.wf(),
        ensures
            final(self)@.wf(),
            !authorized(old(self)@, auth) ==> (r matches Err(e) && rejection_is(e, HttpStatus::Unauthorized, "unauthorized"@)
                && denied(old(self)@, final(self)@, "sign_config_profile"@)),
            authorized(old(self)@, auth) ==> (r matches Ok(env) && env.profile == profile
                && env.signature@ == signature_of(old(self)@.secret, payload@)
                && audited(old(self)@, final(self)@, seq![("config.signed"@, "signed configuration profile"@)])),
    {
        if self.authorize(auth).is_err() {
            return Err(self.deny("sign_config_profile"));
        }
        let signature = profile_signature(self.signing_secret.as_slice(), payload);
        self.audit("config.signed", String::from_str("signed configuration profile"));
        Ok(SignedConfigEnvelope { profile, signature })
    }

    /// Verifies a signed profile (200): `payload` is the profile's serialized
    /// bytes; it is valid when `signature` is its signature under the
    /// receiver's secret.
    pub fn verify_config_profile(&mut self, auth: Option<&str>, payload: &[u8], signature: &str) -> (r: Result<VerifyConfigProfileResponse, Rejection>)
        requires
            old(self)@.wf(),
        ensures
            final(self)@.wf(),
            !authorized(old(self)@, auth) ==> (r matches Err(e) && rejection_is(e, HttpStatus::Unauthorized, "unauthorized"@)
                && denied(old(self)@, final(self)@, "verify_config_profile"@)),
            authorized(old(self)@, auth) ==> ({
                let valid = signature@ == signature_of(old(self)@.secret, payload@);
                &&& audited(
                    old(self)@,
                    final(self)@,
                    seq![("config.verified"@, "configuration profile valid="@ + bool_text(valid))],
                )
                &&& r matches Ok(v) && v.valid == valid
            }),
    {
        if self.authorize(auth).is_err() {
            return Err(self.deny("verify_config_profile"));
        }
        let valid = signature_matches(self.signing_secret.as_slice(), payload, signature);
        let mut message = String::from_str("configuration profile valid=");
        message.append(bool_to_text(valid).as_str());
        self.audit("config.verified", message);
        Ok(VerifyConfigProfileResponse { valid })
    }

    /// The protocol catalogue.
    pub fn get_protocols(&self) -> (r: Vec<ProtocolDescriptor>)
        ensures
            r@ == self@.protocols,
    {
        let r = self.protocols.clone();
        assert(r@ =~= self.protocols@);
        r
    }

    /// All sessions.
    pub fn get_sessions(&self) -> (r: Vec<SessionDescriptor>)
        ensures
            r@ == self@.sessions,
    {
        let r = self.sessions.clone();
        assert(r@ =~= self.sessions@);
        r
    }

    /// All running recordings, in the order in which the map holds them.
    pub fn get_recordings(&self) -> (r: Vec<RecordingState>)
        ensures
            r@.len() == self@.recordings.len(),
            r@.to_set() == self@.recordings.values(),
    {
        let mut out: Vec<RecordingState> = Vec::new();
        let ghost s = vstd::std_specs::hash::spec_values_iter(&self.recordings).remaining();
        for x in it: self.recordings.values()
            invariant
                it.seq() == s,
                out@.len() == it.index(),
                forall|j: int| 0 <= j < it.index() ==> out@[j] == *it.seq()[j],
        {
            out.push(x.clone());
        }
        proof {
            assert(out@ =~= s.unref());
        }
        out
    }

    /// The ids of the trusted devices.
    pub fn get_trusted_devices(&self) -> (r: Vec<String>)
        ensures
            r@.map_values(|s: String| s@) == self@.trusted,
    {
        let r = self.trusted_devices.clone();
        assert(r@.map_values(|s: String| s@) =~= self.trusted_devices@.map_values(|s: String| s@));
        r
    }

    /// The audit trail, oldest first.
    pub fn get_audit(&self) -> (r: Vec<AuditEvent>)
        ensures
            r@ == self@.audit,
    {
        let r = self.audit_log.clone();
        assert(r@ =~= self.audit_log@);
        r
    }

    /// The operator settings.
    pub fn get_operator_settings(&self) -> (r: OperatorSettings)
        ensures
            r == self@.operator,
    {
        self.operator_settings.clone()
    }

    /// The receiver policy.
    pub fn get_policy(&self) -> (r: ReceiverPolicy)
        ensures
            r == self@.policy,
    {
        self.policy.clone()
    }

    /// Counts of protocols, sessions by status (pending and queued together),
    /// trusted devices and running recordings.
    pub fn get_dashboard(&self) -> (r: DashboardSummary)
        ensures
            r == dashboard_of(self@),
            r.protocol_count == self@.protocols.len(),
            r.pending_sessions == count_in(self@.sessions, StatusGroup::Waiting),
            r.active_sessions == count_in(self@.sessions, StatusGroup::Active),
            r.stopped_sessions == count_in(self@.sessions, StatusGroup::Stopped),
            r.trusted_device_count == self@.trusted.len(),
            r.active_recordings == self@.recordings.len(),
    {
        DashboardSummary {
            protocol_count: self.protocols.len(),
            pending_sessions: count_sessions(&self.sessions, StatusGroup::Waiting),
            active_sessions: count_sessions(&self.sessions, StatusGroup::Active),
            stopped_sessions: count_sessions(&self.sessions, StatusGroup::Stopped),
            trusted_device_count: self.trusted_devices.len(),
            active_recordings: self.recordings.len(),
        }
    }

    /// Liveness as seen at time `now`: "ok", the time itself and the whole
    /// seconds since the receiver started.
    pub fn health_detail_at(&self, now: Timestamp) -> (r: HealthDetail)
        ensures
            r.status@ == "ok"@,
            r.server_time == now,
            r.uptime_secs == uptime(self@.started_at, now),
    {
        let borrow: i128 = if now.nanos < self.started_at.nanos { 1 } else { 0 };
        let d: i128 = now.secs as i128 - self.started_at.secs as i128 - borrow;
        let uptime_secs: u64 = if d > 0 { d as u64 } else { 0 };
        HealthDetail { status: String::from_str("ok"), server_time: now, uptime_secs }
    }

    /// Liveness now, with the server's time and its uptime.
    pub fn health_detail(&self) -> (r: HealthDetail)
        ensures
            r.status@ == "ok"@,
            clock_reading(r.server_time),
            r.uptime_secs == uptime(self@.started_at, r.server_time),
    {
        let now = current_time();
        self.health_detail_at(now)
    }

    /// The in-memory state for debugging: the dashboard, protocols,
    /// sessions, recordings, trusted devices, policy, operator settings,
    /// reliability controls and pairing pin, with the trailing audit events.
    /// The API token and signing secret are left out.
    pub fn debug_snapshot(&self) -> (r: DebugSnapshot)
        ensures
            r.dashboard == dashboard_of(self@),
            r.protocols@ == self@.protocols,
            r.sessions@ == self@.sessions,
            r.recordings@.len() == self@.recordings.len(),
            r.recordings@.to_set() == self@.recordings.values(),
            r.trusted_devices@.map_values(|s: String| s@) == self@.trusted,
            r.policy == self@.policy,
            r.operator_settings == self@.operator,
            r.reliability == self@.reliability,
            r.pairing_pin == self@.pairing_pin,
            r.recent_audit@ == audit_tail(self@.audit),
    {
        let n = self.audit_log.len();
        let start: usize = if n > SNAPSHOT_AUDIT_TAIL { n - SNAPSHOT_AUDIT_TAIL } else { 0 };
        let mut recent: Vec<AuditEvent> = Vec::new();
        let mut i: usize = start;
        while i < n
            invariant
                n == self.audit_log@.len(),
                start <= i <= n,
                recent@ == self.audit_log@.subrange(start as int, i as int),
            decreases n - i,
        {
            recent.push(self.audit_log[i].clone());
            assert(recent@ =~= self.audit_log@.subrange(start as int, i + 1));
            i = i + 1;
        }
        assert(recent@ =~= audit_tail(self@.audit));
        DebugSnapshot {
            dashboard: self.get_dashboard(),
            protocols: self.get_protocols(),
            sessions: self.get_sessions(),
            recordings: self.get_recordings(),
            trusted_devices: self.get_trusted_devices(),
            policy: self.get_policy(),
            operator_settings: self.get_operator_settings(),
            reliability: self.reliability,
            pairing_pin: self.pairing_pin.clone(),
            recent_audit: recent,
        }
    }
}

/// A rejection with the given status and error text.
pub fn reject(status: HttpStatus, error: &str) -> (r: Rejection)
    ensures
        rejection_is(r, status, error@),
{
    Rejection { status, body: ApiError { error: String::from_str(error) } }
}

/// The liveness answer.
pub fn health() -> (r: &'static str)
    ensures
        r@ == "ok"@,
{
    "ok"
}

} // verus!
