use receiver_core::model::{
    AcceptancePolicy, CreateSessionRequest, HttpStatus, NetworkVisibility, OperatorSettings,
    PinPolicy, PreviewStreamState, ProtocolKind, QueuePolicy, ReceiverPolicy, RecordingProfile,
    ScalingMode, SessionReconnectRequest, SessionStatus, SignConfigProfileRequest,
    SignedConfigProfile, StartRecordingRequest, UpdateOperatorSettingsRequest, UpdatePolicyRequest,
    UpdateProtocolRequest, DisplayPolicy, PerformancePolicy,
};
use receiver_core::net::{BindAddress, BindHost};
use receiver_core::state::AppState;

const AUTH: Option<&str> = Some("Bearer token");

fn seeded_session_id(state: &AppState) -> u128 {
    state.get_sessions()[0].id
}

fn text(s: &str) -> String {
    serde_json::to_string(s).unwrap()
}

/// The JSON of a signed profile, with the fields in the order in which the
/// service serializes them.
fn profile_json(p: &SignedConfigProfile) -> String {
    let issued = chrono::DateTime::from_timestamp(p.issued_at.secs, p.issued_at.nanos).unwrap();
    let acceptance = match p.policy.acceptance {
        AcceptancePolicy::Auto => "auto",
        AcceptancePolicy::Ask => "ask",
        AcceptancePolicy::TrustedOnly => "trusted-only",
    };
    let queue = match p.policy.queue_policy {
        QueuePolicy::FirstIn => "first-in",
        QueuePolicy::TeacherPriority => "teacher-priority",
        QueuePolicy::AdminOverride => "admin-override",
    };
    let scaling = match p.policy.display.scaling_mode {
        ScalingMode::Fit => "fit",
        ScalingMode::Fill => "fill",
        ScalingMode::ActualSize => "actual-size",
    };
    let pin = match p.operator.pin_policy {
        PinPolicy::Always => "always",
        PinPolicy::FirstPairOnly => "first-pair-only",
        PinPolicy::Disabled => "disabled",
    };
    let visibility = match p.operator.network_visibility {
        NetworkVisibility::Lan => "lan",
        NetworkVisibility::PrivateOnly => "private-only",
        NetworkVisibility::Hidden => "hidden",
    };
    format!(
        "{{\"name\":{},\"issued_at\":{},\"policy\":{{\"acceptance\":\"{}\",\"max_sessions\":{},\"queue_policy\":\"{}\",\"audio_output_device\":{},\"display\":{{\"target_display\":{},\"scaling_mode\":\"{}\",\"rotation_degrees\":{},\"preserve_aspect_ratio\":{}}},\"performance\":{{\"target_latency_ms\":{},\"max_bitrate_mbps\":{},\"baseline_profile\":{},\"allow_4k_best_effort\":{}}}}},\"operator\":{{\"device_name\":{},\"pin_policy\":\"{}\",\"network_visibility\":\"{}\"}}}}",
        text(&p.name),
        serde_json::to_string(&issued).unwrap(),
        acceptance,
        p.policy.max_sessions,
        queue,
        text(&p.policy.audio_output_device),
        text(&p.policy.display.target_display),
        scaling,
        p.policy.display.rotation_degrees,
        p.policy.display.preserve_aspect_ratio,
        p.policy.performance.target_latency_ms,
        p.policy.performance.max_bitrate_mbps,
        text(&p.policy.performance.baseline_profile),
        p.policy.performance.allow_4k_best_effort,
        text(&p.operator.device_name),
        pin,
        visibility,
    )
}

fn empty_policy_update() -> UpdatePolicyRequest {
    UpdatePolicyRequest {
        acceptance: None,
        max_sessions: None,
        queue_policy: None,
        audio_output_device: None,
        target_display: None,
        scaling_mode: None,
        rotation_degrees: None,
        preserve_aspect_ratio: None,
        target_latency_ms: None,
        max_bitrate_mbps: None,
        baseline_profile: None,
        allow_4k_best_effort: None,
    }
}

#[test]
fn protocols_endpoint_works() {
    let state = AppState::bootstrap("token".to_string());
    let protocols = state.get_protocols();
    assert_eq!(protocols.len(), 3);
    assert_eq!(protocols[0].id, "airplay");
    assert_eq!(protocols[1].id, "cast");
    assert_eq!(protocols[2].id, "miracast");
}

#[test]
fn mutating_endpoint_requires_auth() {
    let mut state = AppState::bootstrap("token".to_string());
    let r = state.trust_device(None, "demo-device".to_string());
    assert_eq!(r.err().unwrap().status, HttpStatus::Unauthorized);
}

#[test]
fn trust_with_auth_succeeds() {
    let mut state = AppState::bootstrap("token".to_string());
    let r = state.trust_device(AUTH, "demo-device".to_string()).ok().unwrap();
    assert!(r.contains("demo-device"));
}

#[test]
fn recording_requires_active_session() {
    let mut state = AppState::bootstrap("token".to_string());
    let session_id = seeded_session_id(&state);
    let r = state.start_recording(
        AUTH,
        StartRecordingRequest {
            session_id,
            profile: RecordingProfile {
                destination_path: "/tmp/out.mp4".to_string(),
                quality_preset: "balanced".to_string(),
                codec: "h264".to_string(),
                container: "mp4".to_string(),
            },
        },
    );
    assert_eq!(r.err().unwrap().status, HttpStatus::Conflict);
}

#[test]
fn update_policy_rejects_invalid_max_sessions() {
    let mut state = AppState::bootstrap("token".to_string());
    let mut req = empty_policy_update();
    req.max_sessions = Some(5);
    let r = state.update_policy(AUTH, req);
    assert_eq!(r.err().unwrap().status, HttpStatus::BadRequest);
}

#[test]
fn protocol_toggle_requires_auth() {
    let mut state = AppState::bootstrap("token".to_string());
    let r = state.update_protocol(None, "airplay", UpdateProtocolRequest { enabled: false });
    assert_eq!(r.err().unwrap().status, HttpStatus::Unauthorized);
}

#[test]
fn update_policy_rejects_invalid_rotation() {
    let mut state = AppState::bootstrap("token".to_string());
    let mut req = empty_policy_update();
    req.rotation_degrees = Some(45);
    let r = state.update_policy(AUTH, req);
    assert_eq!(r.err().unwrap().status, HttpStatus::BadRequest);
}

#[test]
fn update_policy_rejects_empty_target_display() {
    let mut state = AppState::bootstrap("token".to_string());
    let mut req = empty_policy_update();
    req.target_display = Some("  ".to_string());
    let r = state.update_policy(AUTH, req);
    assert_eq!(r.err().unwrap().status, HttpStatus::BadRequest);
}

#[test]
fn accept_stopped_session_is_rejected() {
    let mut state = AppState::bootstrap("token".to_string());
    let seeded_id = seeded_session_id(&state);
    let _stopped = state.stop_session(AUTH, seeded_id);
    let r = state.accept_session(AUTH, seeded_id);
    assert_eq!(r.err().unwrap().status, HttpStatus::Conflict);
}

#[test]
fn generate_pairing_pin_requires_auth() {
    let mut state = AppState::bootstrap("token".to_string());
    let r = state.generate_pairing_pin(None);
    assert_eq!(r.err().unwrap().status, HttpStatus::Unauthorized);
}

#[test]
fn signed_profile_round_trip_verifies() {
    let mut state = AppState::bootstrap("token".to_string());
    let req = SignConfigProfileRequest {
        name: "test-profile".to_string(),
        policy: ReceiverPolicy {
            acceptance: AcceptancePolicy::Ask,
            max_sessions: 2,
            queue_policy: QueuePolicy::FirstIn,
            audio_output_device: "default-speaker".to_string(),
            display: DisplayPolicy {
                target_display: "display-1".to_string(),
                scaling_mode: ScalingMode::Fit,
                rotation_degrees: 0,
                preserve_aspect_ratio: true,
            },
            performance: PerformancePolicy::default(),
        },
        operator: OperatorSettings {
            device_name: "Lab Receiver".to_string(),
            pin_policy: PinPolicy::Always,
            network_visibility: NetworkVisibility::Lan,
        },
    };
    let profile = state.sign_config_profile(AUTH, req).ok().unwrap();
    assert_eq!(profile.name, "test-profile");
    assert_eq!(profile.policy.performance.target_latency_ms, 85);
    let payload = profile_json(&profile).into_bytes();
    let envelope = state.seal_config_profile(AUTH, profile.clone(), &payload).ok().unwrap();
    let returned = envelope.profile;
    let verified = state
        .verify_config_profile(AUTH, profile_json(&returned).as_bytes(), &envelope.signature)
        .ok()
        .unwrap();
    assert!(verified.valid);
}

#[test]
fn operator_settings_reject_empty_device_name() {
    let mut state = AppState::bootstrap("token".to_string());
    let r = state.update_operator_settings(
        AUTH,
        UpdateOperatorSettingsRequest {
            device_name: Some("  ".to_string()),
            pin_policy: None,
            network_visibility: None,
        },
    );
    assert_eq!(r.err().unwrap().status, HttpStatus::BadRequest);
}

#[test]
fn reconnect_session_endpoint_handles_jitter_drop() {
    let mut state = AppState::bootstrap("token".to_string());
    let seeded_id = seeded_session_id(&state);
    let r = state
        .reconnect_session(AUTH, seeded_id, SessionReconnectRequest { jitter_ms: 200, dropped: true })
        .ok()
        .unwrap();
    assert!(r.resumed);
    assert_eq!(r.status, SessionStatus::Active);
}

#[test]
fn performance_and_diagnostics_endpoints_are_available() {
    let state = AppState::bootstrap("token".to_string());
    let perf = state.get_performance_report();
    assert_eq!(perf.baseline_1080p60.profile, "1080p60");
    let diag = state.get_diagnostics_bundle();
    assert_eq!(diag.protocol_status.len(), 3);
    assert_eq!(diag.sessions.len(), 1);
}

#[test]
fn update_policy_rejects_invalid_performance_ranges() {
    let mut state = AppState::bootstrap("token".to_string());
    let mut req = empty_policy_update();
    req.target_latency_ms = Some(5);
    let r = state.update_policy(AUTH, req);
    assert_eq!(r.err().unwrap().status, HttpStatus::BadRequest);
    let mut req = empty_policy_update();
    req.max_bitrate_mbps = Some(200);
    let r = state.update_policy(AUTH, req);
    assert_eq!(r.err().unwrap().status, HttpStatus::BadRequest);
}

#[test]
fn preview_state_endpoint_tracks_stream_lifecycle() {
    let mut state = AppState::bootstrap("token".to_string());
    let seeded_id = seeded_session_id(&state);
    let preview = state.get_preview_state();
    assert_eq!(preview.stream_state, PreviewStreamState::Connecting);
    let _ = state.accept_session(AUTH, seeded_id);
    let preview = state.get_preview_state();
    assert_eq!(preview.stream_state, PreviewStreamState::Live);
    let _ = state.stop_session(AUTH, seeded_id);
    let preview = state.get_preview_state();
    assert_eq!(preview.stream_state, PreviewStreamState::NoActiveStream);
}

#[test]
fn accept_missing_session_does_not_stop_existing_active_session() {
    let mut state = AppState::bootstrap("token".to_string());
    let seeded_id = seeded_session_id(&state);
    let _accepted = state.accept_session(AUTH, seeded_id);
    let missing = seeded_id.wrapping_add(1);
    let r = state.accept_session(AUTH, missing);
    assert_eq!(r.err().unwrap().status, HttpStatus::NotFound);
    let sessions = state.get_sessions();
    let seeded = sessions.into_iter().find(|s| s.id == seeded_id).unwrap();
    assert_eq!(seeded.status, SessionStatus::Active);
}

#[test]
fn connect_instructions_include_operator_name_and_protocol_hints() {
    let state = AppState::bootstrap("token".to_string());
    let payload = state.get_connect_instructions();
    assert_eq!(payload.receiver_name, "Air Sender Receiver");
    assert_eq!(payload.local_url, "http://127.0.0.1:9760/v1/connect/instructions");
    assert_eq!(payload.protocol_hints.len(), 3);
}

#[test]
fn connect_instructions_use_configured_bind_address() {
    let bind = BindAddress { host: BindHost::V4 { a: 10, b: 0, c: 0, d: 8 }, port: 9988 };
    let state = AppState::bootstrap_with_bind("token".to_string(), bind);
    let payload = state.get_connect_instructions();
    assert_eq!(payload.local_url, "http://10.0.0.8:9988/v1/connect/instructions");
}

#[test]
fn pairing_pin_state_returns_generated_pin() {
    let mut state = AppState::bootstrap("token".to_string());
    let _ = state.generate_pairing_pin(AUTH);
    let payload = state.get_pairing_pin_state();
    assert!(payload.enabled);
    assert!(payload.pin.is_some());
}

#[test]
fn created_session_uses_request_fields() {
    let mut state = AppState::bootstrap("token".to_string());
    let d = state
        .create_mock_session(
            AUTH,
            CreateSessionRequest {
                protocol: ProtocolKind::Cast,
                device_name: "Pixel 8".to_string(),
                device_platform: "Android".to_string(),
                priority: None,
                audio_mode: None,
            },
        )
        .ok()
        .unwrap();
    assert_eq!(d.device.name, "Pixel 8");
    assert_eq!(d.status, SessionStatus::Pending);
    assert_eq!(d.device.id, format!("device-{:032x}", d.id));
}
