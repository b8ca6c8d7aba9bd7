use receiver_core::model::{
    AcceptancePolicy, AudioMode, CreateSessionRequest, DeviceDescriptor, HttpStatus,
    PerformancePolicy, PinPolicy, ProtocolKind, QueuePolicy, RecordingProfile,
    SessionDescriptor, SessionPriority, SessionReconnectRequest, SessionStatus,
    SignConfigProfileRequest, StartRecordingRequest, StopRecordingRequest, Timestamp,
    UpdateOperatorSettingsRequest, UpdatePolicyRequest, UpdateProtocolRequest,
};
use receiver_core::net::{host_is_valid, local_api_base_url, BindAddress, BindHost};
use receiver_core::sessions::{choose_handoff, count_sessions, StatusGroup};
use receiver_core::signature::{profile_signature, signature_matches};
use receiver_core::state::{health, AppState};
use receiver_core::text::{char_is_whitespace, decimal_text, fixed_digits_text, is_blank};

const AUTH: Option<&str> = Some("Bearer token");

fn uuid_text(v: u128) -> String {
    let h = format!("{:032x}", v);
    format!("{}-{}-{}-{}-{}", &h[0..8], &h[8..12], &h[12..16], &h[16..20], &h[20..32])
}

fn policy_update() -> UpdatePolicyRequest {
    UpdatePolicyRequest {
        acceptance: None,
        max_sessions: None,
        queue_policy: None,
        audio_output_device: None,
        target_display: None,
        scaling_mode: None,
        rotation_degrees: None,
        preserve_aspect_ratio: None,
        target_latency_ms: None,
        max_bitrate_mbps: None,
        baseline_profile: None,
        allow_4k_best_effort: None,
    }
}

fn session_request(protocol: ProtocolKind) -> CreateSessionRequest {
    CreateSessionRequest {
        protocol,
        device_name: "Pixel 8".to_string(),
        device_platform: "Android".to_string(),
        priority: None,
        audio_mode: None,
    }
}

fn profile() -> RecordingProfile {
    RecordingProfile {
        destination_path: "./recordings".to_string(),
        quality_preset: "balanced".to_string(),
        codec: "h264".to_string(),
        container: "mp4".to_string(),
    }
}

fn with_max_sessions(state: &mut AppState, max: usize) {
    let mut req = policy_update();
    req.max_sessions = Some(max);
    assert!(state.update_policy(AUTH, req).is_ok());
}

fn last_audit(state: &AppState) -> (String, String) {
    let audit = state.get_audit();
    let e = audit.last().unwrap();
    (e.kind.clone(), e.message.clone())
}

fn session(id: u128, priority: SessionPriority, status: SessionStatus, secs: i64) -> SessionDescriptor {
    SessionDescriptor {
        id,
        protocol: ProtocolKind::AirPlay,
        device: DeviceDescriptor { id: "d".to_string(), name: "n".to_string(), platform: "p".to_string() },
        priority,
        audio_mode: AudioMode::Full,
        status,
        created_at: Timestamp { secs, nanos: 0 },
    }
}

#[test]
fn fnv1a_signature_known_values() {
    assert_eq!(profile_signature(b"", b""), "cbf29ce484222325");
    assert_eq!(profile_signature(b"", b"a"), "af63dc4c8601ec8c");
    assert_eq!(profile_signature(b"a", b""), profile_signature(b"", b"a"));
    assert_eq!(profile_signature(b"", b"foobar"), "85944171f73967e8");
}

#[test]
fn signature_check_detects_tampering() {
    let sig = profile_signature(b"secret", b"payload");
    assert!(signature_matches(b"secret", b"payload", &sig));
    assert!(!signature_matches(b"secret", b"payloaD", &sig));
    assert!(!signature_matches(b"other", b"payload", &sig));
}

#[test]
fn digits_render_as_std_formats_them() {
    assert_eq!(decimal_text(0), "0");
    assert_eq!(decimal_text(255), "255");
    assert_eq!(decimal_text(u64::MAX), u64::MAX.to_string());
    assert_eq!(fixed_digits_text(42, 10, 6), "000042");
    assert_eq!(fixed_digits_text(255, 16, 4), "00ff");
    assert_eq!(fixed_digits_text(u64::MAX, 16, 16), format!("{:016x}", u64::MAX));
}

#[test]
fn blank_text_is_only_white_space() {
    assert!(is_blank(""));
    assert!(is_blank("  "));
    assert!(is_blank("\t\n\r"));
    assert!(is_blank("\u{3000}\u{a0}"));
    assert!(!is_blank(" a "));
    assert!(!is_blank("x"));
}

#[test]
fn white_space_matches_std_for_every_char() {
    for c in (0u32..=0x10ffff).filter_map(char::from_u32) {
        assert_eq!(char_is_whitespace(c), c.is_whitespace(), "{:?}", c);
    }
}

#[test]
fn session_ids_and_times_come_from_uuid_and_clock() {
    let mut state = AppState::bootstrap("token".to_string());
    let a = state.create_mock_session(AUTH, session_request(ProtocolKind::Cast)).ok().unwrap();
    let b = state.create_mock_session(AUTH, session_request(ProtocolKind::Cast)).ok().unwrap();
    assert_ne!(a.id, b.id);
    assert_eq!((a.id >> 76) & 0xf, 4);
    assert_eq!(a.device.id, format!("device-{:032x}", a.id));
    assert_eq!(a.device.id.len(), 39);
    assert!(a.created_at.secs > 1_600_000_000);
    assert!(a.created_at.nanos < 1_000_000_000);
    let audit = state.get_audit();
    assert_eq!(audit[0].message, format!("session {} created", uuid_text(a.id)));
    assert_eq!(audit[0].message.len(), "session  created".len() + 36);
    assert_ne!(audit[0].id, audit[1].id);
}

#[test]
fn base_url_forms() {
    let unspecified = BindAddress { host: BindHost::V4 { a: 0, b: 0, c: 0, d: 0 }, port: 9760 };
    assert_eq!(local_api_base_url(&unspecified), "http://127.0.0.1:9760");
    let v6_any = BindAddress { host: BindHost::V6 { text: "::".to_string(), unspecified: true }, port: 80 };
    assert_eq!(local_api_base_url(&v6_any), "http://[::1]:80");
    let v6 = BindAddress { host: BindHost::V6 { text: "fe80::1".to_string(), unspecified: false }, port: 443 };
    assert_eq!(local_api_base_url(&v6), "http://[fe80::1]:443");
    let v4 = BindAddress { host: BindHost::V4 { a: 192, b: 168, c: 1, d: 20 }, port: 0 };
    assert_eq!(local_api_base_url(&v4), "http://192.168.1.20:0");
    assert!(host_is_valid(&v6.host));
    assert!(host_is_valid(&v4.host));
    assert!(!host_is_valid(&BindHost::V6 { text: "localhost".to_string(), unspecified: false }));
}

#[test]
fn health_is_ok() {
    assert_eq!(health(), "ok");
}

#[test]
fn performance_policy_defaults() {
    let p = PerformancePolicy::default();
    assert_eq!(p.target_latency_ms, 85);
    assert_eq!(p.max_bitrate_mbps, 24);
    assert_eq!(p.baseline_profile, "1080p60");
    assert!(p.allow_4k_best_effort);
}

#[test]
fn initial_state() {
    let state = AppState::bootstrap("token".to_string());
    let policy = state.get_policy();
    assert_eq!(policy.acceptance, AcceptancePolicy::Ask);
    assert_eq!(policy.max_sessions, 4);
    assert_eq!(policy.queue_policy, QueuePolicy::FirstIn);
    assert_eq!(policy.audio_output_device, "default-speaker");
    let sessions = state.get_sessions();
    assert_eq!(sessions.len(), 1);
    assert_eq!(sessions[0].status, SessionStatus::Pending);
    assert_eq!(sessions[0].device.name, "Seed iPhone");
    assert!(state.get_audit().is_empty());
    assert!(state.get_trusted_devices().is_empty());
    assert_eq!(state.get_operator_settings().device_name, "Air Sender Receiver");
    assert_eq!(state.local_api_base_url(), "http://127.0.0.1:9760");
}

#[test]
fn authorization_needs_exact_bearer_token() {
    let state = AppState::bootstrap("token".to_string());
    assert!(state.authorize(Some("Bearer token")).is_ok());
    assert!(state.authorize(Some("token")).is_err());
    assert!(state.authorize(Some("Bearer token ")).is_err());
    assert!(state.authorize(Some("Bearer other")).is_err());
    assert_eq!(state.authorize(None), Err(HttpStatus::Unauthorized));
    assert_eq!(AppState::unauthorized().body.error, "unauthorized");
}

#[test]
fn refused_mutation_only_records_denial() {
    let mut state = AppState::bootstrap("token".to_string());
    let before = state.get_dashboard();
    let r = state.trust_device(Some("Bearer wrong"), "demo".to_string());
    let e = r.err().unwrap();
    assert_eq!(e.status, HttpStatus::Unauthorized);
    assert_eq!(e.body.error, "unauthorized");
    assert_eq!(state.get_dashboard(), before);
    assert_eq!(state.get_audit().len(), 1);
    assert_eq!(last_audit(&state), ("security.denied".to_string(), "unauthorized trust_device".to_string()));
}

#[test]
fn dashboard_counts_cover_all_sessions() {
    let mut state = AppState::bootstrap("token".to_string());
    let seed = state.get_sessions()[0].id;
    let _ = state.create_mock_session(AUTH, session_request(ProtocolKind::Cast));
    let _ = state.create_mock_session(AUTH, session_request(ProtocolKind::Miracast));
    let _ = state.accept_session(AUTH, seed);
    let second = state.get_sessions()[1].id;
    let _ = state.stop_session(AUTH, second);
    let d = state.get_dashboard();
    assert_eq!(d.protocol_count, 3);
    assert_eq!(d.active_sessions, 1);
    assert_eq!(d.stopped_sessions, 1);
    assert_eq!(d.pending_sessions, 1);
    assert_eq!(d.pending_sessions + d.active_sessions + d.stopped_sessions, state.get_sessions().len());
}

#[test]
fn new_session_refused_at_the_limit() {
    let mut state = AppState::bootstrap("token".to_string());
    with_max_sessions(&mut state, 2);
    let d = state.create_mock_session(AUTH, session_request(ProtocolKind::Cast)).ok().unwrap();
    assert_eq!(d.status, SessionStatus::Pending);
    assert_eq!(last_audit(&state), ("session.created".to_string(), format!("session {} created", uuid_text(d.id))));
    let audit_len = state.get_audit().len();
    let e = state.create_mock_session(AUTH, session_request(ProtocolKind::AirPlay)).err().unwrap();
    assert_eq!(e.status, HttpStatus::Conflict);
    assert_eq!(e.body.error, "max sessions reached");
    assert_eq!(state.get_sessions().len(), 2);
    assert_eq!(state.get_audit().len(), audit_len);
    let _ = state.stop_session(AUTH, d.id);
    assert!(state.create_mock_session(AUTH, session_request(ProtocolKind::AirPlay)).is_ok());
}

#[test]
fn automatic_acceptance_activates_new_sessions() {
    let mut state = AppState::bootstrap("token".to_string());
    let mut req = policy_update();
    req.acceptance = Some(AcceptancePolicy::Auto);
    assert!(state.update_policy(AUTH, req).is_ok());
    let d = state.create_mock_session(AUTH, session_request(ProtocolKind::AirPlay)).ok().unwrap();
    assert_eq!(d.status, SessionStatus::Active);
    assert_eq!(d.priority, SessionPriority::Normal);
    assert_eq!(d.audio_mode, AudioMode::Full);
}

#[test]
fn audio_only_needs_airplay_or_cast() {
    let mut state = AppState::bootstrap("token".to_string());
    let mut req = session_request(ProtocolKind::Miracast);
    req.audio_mode = Some(AudioMode::AudioOnly);
    let e = state.create_mock_session(AUTH, req).err().unwrap();
    assert_eq!(e.status, HttpStatus::BadRequest);
    assert_eq!(e.body.error, "audio-only mode is only supported for airplay/cast");
    assert_eq!(state.get_sessions().len(), 1);
    let mut req = session_request(ProtocolKind::AirPlay);
    req.audio_mode = Some(AudioMode::AudioOnly);
    let d = state.create_mock_session(AUTH, req).ok().unwrap();
    assert_eq!(d.audio_mode, AudioMode::AudioOnly);
}

#[test]
fn disabled_protocol_refuses_sessions() {
    let mut state = AppState::bootstrap("token".to_string());
    let p = state.update_protocol(AUTH, "airplay", UpdateProtocolRequest { enabled: false }).ok().unwrap();
    assert!(!p.enabled);
    assert_eq!(last_audit(&state), ("protocol.updated".to_string(), "protocol airplay enabled=false".to_string()));
    let e = state.create_mock_session(AUTH, session_request(ProtocolKind::AirPlay)).err().unwrap();
    assert_eq!(e.status, HttpStatus::Conflict);
    assert_eq!(e.body.error, "protocol is disabled");
    let e = state.update_protocol(AUTH, "dlna", UpdateProtocolRequest { enabled: true }).err().unwrap();
    assert_eq!(e.status, HttpStatus::NotFound);
}

#[test]
fn accept_hands_off_when_full() {
    let mut state = AppState::bootstrap("token".to_string());
    with_max_sessions(&mut state, 2);
    let seed = state.get_sessions()[0].id;
    assert!(state.accept_session(AUTH, seed).is_ok());
    let _ = state.start_recording(AUTH, StartRecordingRequest { session_id: seed, profile: profile() });
    assert_eq!(state.get_recordings().len(), 1);
    let d = state.create_mock_session(AUTH, session_request(ProtocolKind::Cast)).ok().unwrap();
    with_max_sessions(&mut state, 1);
    let accepted = state.accept_session(AUTH, d.id).ok().unwrap();
    assert_eq!(accepted.status, SessionStatus::Active);
    let sessions = state.get_sessions();
    assert_eq!(sessions[0].status, SessionStatus::Stopped);
    assert!(state.get_recordings().is_empty());
    assert_eq!(state.get_dashboard().active_sessions, 1);
    let audit = state.get_audit();
    let n = audit.len();
    assert_eq!(audit[n - 2].kind, "session.handoff");
    assert_eq!(audit[n - 2].message, format!("session {} stopped for handoff", uuid_text(seed)));
    assert_eq!(audit[n - 1].message, format!("session {} accepted", uuid_text(d.id)));
}

#[test]
fn handoff_choice_follows_queue_policy() {
    let s = vec![
        session(1, SessionPriority::Teacher, SessionStatus::Active, 10),
        session(2, SessionPriority::Normal, SessionStatus::Active, 30),
        session(3, SessionPriority::Normal, SessionStatus::Pending, 0),
        session(4, SessionPriority::AdminOverride, SessionStatus::Active, 5),
    ];
    assert_eq!(choose_handoff(&s, QueuePolicy::FirstIn), Some(3));
    assert_eq!(choose_handoff(&s, QueuePolicy::TeacherPriority), Some(1));
    assert_eq!(choose_handoff(&s, QueuePolicy::AdminOverride), Some(1));
    let ties = vec![
        session(1, SessionPriority::Normal, SessionStatus::Active, 7),
        session(2, SessionPriority::Normal, SessionStatus::Active, 7),
    ];
    assert_eq!(choose_handoff(&ties, QueuePolicy::FirstIn), Some(0));
    let none = vec![session(1, SessionPriority::Normal, SessionStatus::Stopped, 7)];
    assert_eq!(choose_handoff(&none, QueuePolicy::FirstIn), None);
    assert_eq!(count_sessions(&s, StatusGroup::Active), 3);
    assert_eq!(count_sessions(&s, StatusGroup::Occupying), 4);
}

#[test]
fn accept_and_stop_unknown_sessions() {
    let mut state = AppState::bootstrap("token".to_string());
    let seed = state.get_sessions()[0].id;
    let e = state.stop_session(AUTH, seed.wrapping_add(1)).err().unwrap();
    assert_eq!(e.status, HttpStatus::NotFound);
    assert_eq!(e.body.error, "session not found");
    assert!(state.get_audit().is_empty());
}

#[test]
fn stopping_a_session_ends_its_recording() {
    let mut state = AppState::bootstrap("token".to_string());
    let seed = state.get_sessions()[0].id;
    let _ = state.accept_session(AUTH, seed);
    let ack = state.start_recording(AUTH, StartRecordingRequest { session_id: seed, profile: profile() }).ok().unwrap();
    assert_eq!(ack.status, "recording");
    assert_eq!(state.get_recordings()[0].profile.codec, "h264");
    let stopped = state.stop_session(AUTH, seed).ok().unwrap();
    assert_eq!(stopped.status, SessionStatus::Stopped);
    assert!(state.get_recordings().is_empty());
    let e = state.stop_recording(AUTH, StopRecordingRequest { session_id: seed }).err().unwrap();
    assert_eq!(e.status, HttpStatus::NotFound);
    assert_eq!(e.body.error, "recording not active");
}

#[test]
fn queued_reconnect_ends_the_recording() {
    let mut state = AppState::bootstrap("token".to_string());
    let seed = state.get_sessions()[0].id;
    let _ = state.accept_session(AUTH, seed);
    let _ = state.start_recording(AUTH, StartRecordingRequest { session_id: seed, profile: profile() });
    let r = state.reconnect_session(AUTH, seed, SessionReconnectRequest { jitter_ms: 10, dropped: true }).ok().unwrap();
    assert!(r.resumed);
    assert_eq!(state.get_recordings().len(), 1);
    let r = state.reconnect_session(AUTH, seed, SessionReconnectRequest { jitter_ms: 10, dropped: false }).ok().unwrap();
    assert!(!r.resumed);
    assert_eq!(r.status, SessionStatus::Queued);
    assert!(state.get_recordings().is_empty());
    assert_eq!(state.get_dashboard().active_recordings, 0);
    let e = state.stop_recording(AUTH, StopRecordingRequest { session_id: seed }).err().unwrap();
    assert_eq!(e.body.error, "recording not active");
}

#[test]
fn recording_start_and_stop() {
    let mut state = AppState::bootstrap("token".to_string());
    let seed = state.get_sessions()[0].id;
    let e = state.start_recording(AUTH, StartRecordingRequest { session_id: seed.wrapping_add(1), profile: profile() }).err().unwrap();
    assert_eq!(e.status, HttpStatus::NotFound);
    let _ = state.accept_session(AUTH, seed);
    let _ = state.start_recording(AUTH, StartRecordingRequest { session_id: seed, profile: profile() });
    let _ = state.start_recording(AUTH, StartRecordingRequest { session_id: seed, profile: profile() });
    assert_eq!(state.get_recordings().len(), 1);
    assert_eq!(last_audit(&state), ("recording.started".to_string(), format!("recording started for {}", uuid_text(seed))));
    let ack = state.stop_recording(AUTH, StopRecordingRequest { session_id: seed }).ok().unwrap();
    assert_eq!(ack.status, "stopped");
    assert!(state.get_recordings().is_empty());
}

#[test]
fn trust_is_a_set() {
    let mut state = AppState::bootstrap("token".to_string());
    let _ = state.trust_device(AUTH, "phone".to_string());
    let _ = state.trust_device(AUTH, "phone".to_string());
    assert_eq!(state.get_trusted_devices(), vec!["phone".to_string()]);
    assert_eq!(last_audit(&state), ("pairing.trusted".to_string(), "trusted phone".to_string()));
    let revoked = state.revoke_trust(AUTH, "phone".to_string()).ok().unwrap();
    assert_eq!(revoked, "phone");
    assert!(state.get_trusted_devices().is_empty());
    let e = state.revoke_trust(AUTH, "phone".to_string()).err().unwrap();
    assert_eq!(e.status, HttpStatus::NotFound);
    assert_eq!(e.body.error, "device not trusted");
}

#[test]
fn policy_update_applies_fields() {
    let mut state = AppState::bootstrap("token".to_string());
    let mut req = policy_update();
    req.max_sessions = Some(3);
    req.rotation_degrees = Some(270);
    req.target_latency_ms = Some(300);
    req.max_bitrate_mbps = Some(8);
    req.baseline_profile = Some("720p30".to_string());
    req.allow_4k_best_effort = Some(false);
    let p = state.update_policy(AUTH, req).ok().unwrap();
    assert_eq!(p.max_sessions, 3);
    assert_eq!(p.display.rotation_degrees, 270);
    assert_eq!(last_audit(&state), ("policy.updated".to_string(), "receiver policy updated".to_string()));
    let report = state.get_performance_report();
    assert_eq!(report.baseline_1080p60.profile, "720p30");
    assert_eq!(report.baseline_1080p60.expected_fps, 60);
    assert_eq!(report.best_effort_4k.profile, "disabled");
    assert_eq!(report.best_effort_4k.expected_fps, 0);
    assert_eq!(report.best_effort_4k.expected_latency_ms, 335);
    assert_eq!(report.best_effort_4k.target_bitrate_mbps, 20);
}

#[test]
fn policy_range_errors_change_nothing() {
    let mut state = AppState::bootstrap("token".to_string());
    let mut req = policy_update();
    req.max_sessions = Some(0);
    req.acceptance = Some(AcceptancePolicy::Auto);
    let e = state.update_policy(AUTH, req).err().unwrap();
    assert_eq!(e.body.error, "max_sessions must be between 1 and 4");
    let p = state.get_policy();
    assert_eq!(p.max_sessions, 4);
    assert_eq!(p.acceptance, AcceptancePolicy::Ask);
    let mut req = policy_update();
    req.rotation_degrees = Some(45);
    assert_eq!(state.update_policy(AUTH, req).err().unwrap().body.error, "rotation_degrees must be one of 0, 90, 180, 270");
    let mut req = policy_update();
    req.target_latency_ms = Some(301);
    assert_eq!(state.update_policy(AUTH, req).err().unwrap().body.error, "target_latency_ms must be between 30 and 300");
    let mut req = policy_update();
    req.max_bitrate_mbps = Some(7);
    assert_eq!(state.update_policy(AUTH, req).err().unwrap().body.error, "max_bitrate_mbps must be between 8 and 120");
}

#[test]
fn blank_policy_text_changes_nothing() {
    let mut state = AppState::bootstrap("token".to_string());
    let mut req = policy_update();
    req.max_sessions = Some(3);
    req.audio_output_device = Some("hdmi".to_string());
    req.target_display = Some("  ".to_string());
    let e = state.update_policy(AUTH, req).err().unwrap();
    assert_eq!(e.status, HttpStatus::BadRequest);
    assert_eq!(e.body.error, "target_display cannot be empty");
    let p = state.get_policy();
    assert_eq!(p.max_sessions, 4);
    assert_eq!(p.audio_output_device, "default-speaker");
    assert_eq!(p.display.target_display, "display-1");
    assert!(state.get_audit().is_empty());
    let mut req = policy_update();
    req.audio_output_device = Some("".to_string());
    assert_eq!(state.update_policy(AUTH, req).err().unwrap().body.error, "audio_output_device cannot be empty");
    let mut req = policy_update();
    req.baseline_profile = Some(" ".to_string());
    assert_eq!(state.update_policy(AUTH, req).err().unwrap().body.error, "baseline_profile cannot be empty");
}

#[test]
fn operator_settings_update() {
    let mut state = AppState::bootstrap("token".to_string());
    let s = state
        .update_operator_settings(
            AUTH,
            UpdateOperatorSettingsRequest { device_name: Some("Lab".to_string()), pin_policy: Some(PinPolicy::Disabled), network_visibility: None },
        )
        .ok()
        .unwrap();
    assert_eq!(s.device_name, "Lab");
    assert!(!state.get_pairing_pin_state().enabled);
    assert_eq!(state.get_connect_instructions().receiver_name, "Lab");
}

#[test]
fn reconnect_rules() {
    let mut state = AppState::bootstrap("token".to_string());
    let seed = state.get_sessions()[0].id;
    for attempt in 1..=5u8 {
        let r = state.reconnect_session(AUTH, seed, SessionReconnectRequest { jitter_ms: 4000, dropped: true }).ok().unwrap();
        assert_eq!(r.reconnect_attempts, attempt);
        assert!(r.resumed);
    }
    let r = state.reconnect_session(AUTH, seed, SessionReconnectRequest { jitter_ms: 10, dropped: true }).ok().unwrap();
    assert_eq!(r.reconnect_attempts, 6);
    assert!(!r.resumed);
    assert_eq!(r.status, SessionStatus::Queued);
    assert_eq!(
        last_audit(&state).1,
        format!("session {} reconnect dropped=true jitter_ms=10 resumed=false attempts=6", uuid_text(seed))
    );
    let mut fresh = AppState::bootstrap("token".to_string());
    let id = fresh.get_sessions()[0].id;
    let r = fresh.reconnect_session(AUTH, id, SessionReconnectRequest { jitter_ms: 4001, dropped: true }).ok().unwrap();
    assert!(!r.resumed);
    let r = fresh.reconnect_session(AUTH, id, SessionReconnectRequest { jitter_ms: 1, dropped: false }).ok().unwrap();
    assert!(!r.resumed);
    let _ = fresh.stop_session(AUTH, id);
    let e = fresh.reconnect_session(AUTH, id, SessionReconnectRequest { jitter_ms: 1, dropped: true }).err().unwrap();
    assert_eq!(e.status, HttpStatus::Conflict);
    assert_eq!(e.body.error, "cannot reconnect a stopped session");
}

#[test]
fn pairing_pin_form_and_expiry() {
    let pin = AppState::pin_for(Timestamp { secs: 10, nanos: 123_456_789 }, Timestamp { secs: 20, nanos: 5 });
    assert_eq!(pin.pin, "000123");
    assert_eq!(pin.expires_at, Timestamp { secs: 320, nanos: 5 });
    let mut state = AppState::bootstrap("token".to_string());
    let issued = state.generate_pairing_pin(AUTH).ok().unwrap();
    assert_eq!(issued.pin.len(), 6);
    assert!(issued.pin.starts_with("000"));
    let before = state.pairing_pin_state_at(Timestamp { secs: issued.expires_at.secs - 1, nanos: 0 });
    assert_eq!(before.pin, Some(issued.pin.clone()));
    let after = state.pairing_pin_state_at(issued.expires_at);
    assert_eq!(after.pin, None);
    assert_eq!(after.expires_at, None);
    assert!(after.enabled);
}

#[test]
fn config_profiles_sign_and_verify() {
    let mut state = AppState::bootstrap("token".to_string());
    let base = state.get_policy();
    let op = state.get_operator_settings();
    let e = state
        .sign_config_profile(AUTH, SignConfigProfileRequest { name: " ".to_string(), policy: base.clone(), operator: op.clone() })
        .err()
        .unwrap();
    assert_eq!(e.body.error, "profile name cannot be empty");
    let profile = state
        .sign_config_profile(AUTH, SignConfigProfileRequest { name: "p".to_string(), policy: base, operator: op })
        .ok()
        .unwrap();
    let refused = state.seal_config_profile(None, profile.clone(), b"payload").err().unwrap();
    assert_eq!(refused.status, HttpStatus::Unauthorized);
    assert_eq!(last_audit(&state), ("security.denied".to_string(), "unauthorized sign_config_profile".to_string()));
    let env = state.seal_config_profile(AUTH, profile, b"payload").ok().unwrap();
    let mut secret = b"token-config-signing".to_vec();
    secret.extend_from_slice(b"");
    assert_eq!(env.signature, profile_signature(&secret, b"payload"));
    let bad = state.verify_config_profile(AUTH, b"payloaD", &env.signature).ok().unwrap();
    assert!(!bad.valid);
    assert_eq!(last_audit(&state), ("config.verified".to_string(), "configuration profile valid=false".to_string()));
}

#[test]
fn audit_export_counts_events() {
    let mut state = AppState::bootstrap("token".to_string());
    let _ = state.trust_device(AUTH, "a".to_string());
    let _ = state.trust_device(None, "b".to_string());
    let export = state.export_audit();
    assert_eq!(export.format, "jsonl-compatible");
    assert_eq!(export.total_events, 2);
    assert_eq!(export.events[1].kind, "security.denied");
}

#[test]
fn preview_reports_protocol_capabilities() {
    let mut state = AppState::bootstrap("token".to_string());
    let seed = state.get_sessions()[0].id;
    let _ = state.accept_session(AUTH, seed);
    let p = state.get_preview_state();
    assert_eq!(p.session_id, Some(seed));
    assert_eq!(p.resolution, Some("1920x1080".to_string()));
    assert_eq!(p.fps_target, Some(60));
    assert_eq!(p.protocol, Some(ProtocolKind::AirPlay));
    assert_eq!(p.device_name, Some("Seed iPhone".to_string()));
}

#[test]
fn audit_trail_only_appends() {
    let mut state = AppState::bootstrap("token".to_string());
    let _ = state.trust_device(AUTH, "a".to_string());
    let first = state.get_audit();
    let seed = state.get_sessions()[0].id;
    let _ = state.accept_session(AUTH, seed);
    let _ = state.update_policy(None, policy_update());
    let later = state.get_audit();
    assert_eq!(later.len(), first.len() + 2);
    assert_eq!(later[0].id, first[0].id);
    assert_eq!(later[0].message, first[0].message);
    assert_eq!(later[1].kind, "session.accepted");
    assert_eq!(later[2].message, "unauthorized update_policy");
}

#[test]
fn health_detail_reports_uptime() {
    let state = AppState::bootstrap("token".to_string());
    let h = state.health_detail();
    assert_eq!(h.status, "ok");
    let later = Timestamp { secs: h.server_time.secs + 100, nanos: h.server_time.nanos };
    let l = state.health_detail_at(later);
    assert_eq!(l.server_time, later);
    assert_eq!(l.uptime_secs, h.uptime_secs + 100);
    assert_eq!(state.health_detail_at(Timestamp { secs: 0, nanos: 0 }).uptime_secs, 0);
}

#[test]
fn debug_snapshot_carries_state_and_audit_tail() {
    let mut state = AppState::bootstrap("token".to_string());
    for i in 0..25 {
        let _ = state.trust_device(AUTH, format!("device-{}", i));
    }
    let snap = state.debug_snapshot();
    let audit = state.get_audit();
    assert_eq!(audit.len(), 25);
    assert_eq!(snap.recent_audit.len(), 20);
    assert_eq!(snap.recent_audit[0].message, audit[5].message);
    assert_eq!(snap.recent_audit[19].message, "trusted device-24");
    assert_eq!(snap.trusted_devices.len(), 25);
    assert_eq!(snap.sessions.len(), 1);
    assert_eq!(snap.dashboard.trusted_device_count, 25);
    assert_eq!(snap.policy.max_sessions, 4);
    assert!(snap.pairing_pin.is_none());
    let fresh = AppState::bootstrap("token".to_string()).debug_snapshot();
    assert!(fresh.recent_audit.is_empty());
}
