//! The receiver's data: protocols, sessions, recordings, policy, operator
//! settings, pairing, signed profiles, and the request and reply shapes of
//! the control API.

use vstd::prelude::*;

verus! {

/// A point in time: whole seconds since the Unix epoch and the nanoseconds
/// past that second.
#[derive(Clone, Copy, Debug, PartialEq, Eq, Structural)]
pub struct Timestamp {
    pub secs: i64,
    pub nanos: u32,
}

/// `a` lies strictly before `b` (seconds first, then nanoseconds).
pub open spec fn before(a: Timestamp, b: Timestamp) -> bool {
    a.secs < b.secs || (a.secs == b.secs && a.nanos < b.nanos)
}

/// `t` is a reading that the wall clock can give: seconds within
/// chrono's range of years (far inside +-10^13) and nanoseconds below one
/// second.
pub open spec fn clock_reading(t: Timestamp) -> bool {
    &&& -10_000_000_000_000 < t.secs < 10_000_000_000_000
    &&& t.nanos < 1_000_000_000
}

impl Timestamp {
    /// Whether `self` lies strictly before `other`.
    pub fn is_before(&self, other: &Timestamp) -> (r: bool)
        ensures
            r == before(*self, *other),
    {
        self.secs < other.secs || (self.secs == other.secs && self.nanos < other.nanos)
    }
}

#[derive(Clone, Copy, Debug, PartialEq, Eq, Structural)]
pub enum ProtocolKind {
    AirPlay,
    Cast,
    Miracast,
}

pub struct StreamCapabilities {
    pub max_resolution: String,
    pub max_fps: u16,
    pub audio: bool,
    pub recording: bool,
}

impl Clone for StreamCapabilities {
    fn clone(&self) -> (r: Self)
        ensures
            r == *self,
    {
        StreamCapabilities {
            max_resolution: self.max_resolution.clone(),
            max_fps: self.max_fps,
            audio: self.audio,
            recording: self.recording,
        }
    }
}


#[derive(Clone, Copy, Debug, PartialEq, Eq, Structural)]
pub enum SessionStatus {
    Pending,
    Queued,
    Active,
    Stopped,
}

#[derive(Clone, Copy, Debug, PartialEq, Eq, Structural, PartialOrd, Ord)]
pub enum SessionPriority {
    Normal,
    Teacher,
    AdminOverride,
}

#[derive(Clone, Copy, Debug, PartialEq, Eq, Structural)]
pub enum AudioMode {
    Full,
    AudioOnly,
}

#[derive(Clone, Copy, Debug, PartialEq, Eq, Structural)]
pub enum AcceptancePolicy {
    Auto,
    Ask,
    TrustedOnly,
}

#[derive(Clone, Copy, Debug, PartialEq, Eq, Structural)]
pub enum QueuePolicy {
    FirstIn,
    TeacherPriority,
    AdminOverride,
}

#[derive(Clone, Copy, Debug, PartialEq, Eq, Structural)]
pub enum ScalingMode {
    Fit,
    Fill,
    ActualSize,
}

#[derive(Clone, Copy, Debug, PartialEq, Eq, Structural)]
pub enum PinPolicy {
    Always,
    FirstPairOnly,
    Disabled,
}

#[derive(Clone, Copy, Debug, PartialEq, Eq, Structural)]
pub enum NetworkVisibility {
    Lan,
    PrivateOnly,
    Hidden,
}

#[derive(Clone, Copy, Debug, PartialEq, Eq, Structural)]
pub enum PreviewStreamState {
    NoActiveStream,
    Connecting,
    Live,
}

pub struct ProtocolDescriptor {
    pub id: String,
    pub kind: ProtocolKind,
    pub enabled: bool,
    pub capabilities: StreamCapabilities,
}

impl Clone for ProtocolDescriptor {
    fn clone(&self) -> (r: Self)
        ensures
            r == *self,
    {
        ProtocolDescriptor {
            id: self.id.clone(),
            kind: self.kind,
            enabled: self.enabled,
            capabilities: self.capabilities.clone(),
        }
    }
}

pub struct DeviceDescriptor {
    pub id: String,
    pub name: String,
    pub platform: String,
}

impl Clone for DeviceDescriptor {
    fn clone(&self) -> (r: Self)
        ensures
            r == *self,
    {
        DeviceDescriptor {
            id: self.id.clone(),
            name: self.name.clone(),
            platform: self.platform.clone(),
        }
    }
}

/// A mirroring session; `id` is the 128-bit value of its UUID.
pub struct SessionDescriptor {
    pub id: u128,
    pub protocol: ProtocolKind,
    pub device: DeviceDescriptor,
    pub priority: SessionPriority,
    pub audio_mode: AudioMode,
    pub status: SessionStatus,
    pub created_at: Timestamp,
}

impl Clone for SessionDescriptor {
    fn clone(&self) -> (r: Self)
        ensures
            r == *self,
    {
        SessionDescriptor {
            id: self.id,
            protocol: self.protocol,
            device: self.device.clone(),
            priority: self.priority,
            audio_mode: self.audio_mode,
            status: self.status,
            created_at: self.created_at,
        }
    }
}

pub struct RecordingProfile {
    pub destination_path: String,
    pub quality_preset: String,
    pub codec: String,
    pub container: String,
}

impl Clone for RecordingProfile {
    fn clone(&self) -> (r: Self)
        ensures
            r == *self,
    {
        RecordingProfile {
            destination_path: self.destination_path.clone(),
            quality_preset: self.quality_preset.clone(),
            codec: self.codec.clone(),
            container: self.container.clone(),
        }
    }
}

pub struct RecordingState {
    pub session_id: u128,
    pub profile: RecordingProfile,
    pub started_at: Timestamp,
}

impl Clone for RecordingState {
    fn clone(&self) -> (r: Self)
        ensures
            r == *self,
    {
        RecordingState {
            session_id: self.session_id,
            profile: self.profile.clone(),
            started_at: self.started_at,
        }
    }
}

pub struct AuditEvent {
    pub id: u128,
    pub ts: Timestamp,
    pub kind: String,
    pub message: String,
}

impl Clone for AuditEvent {
    fn clone(&self) -> (r: Self)
        ensures
            r == *self,
    {
        AuditEvent { id: self.id, ts: self.ts, kind: self.kind.clone(), message: self.message.clone() }
    }
}

pub struct DisplayPolicy {
    pub target_display: String,
    pub scaling_mode: ScalingMode,
    pub rotation_degrees: u16,
    pub preserve_aspect_ratio: bool,
}

impl Clone for DisplayPolicy {
    fn clone(&self) -> (r: Self)
        ensures
            r == *self,
    {
        DisplayPolicy {
            target_display: self.target_display.clone(),
            scaling_mode: self.scaling_mode,
            rotation_degrees: self.rotation_degrees,
            preserve_aspect_ratio: self.preserve_aspect_ratio,
        }
    }
}

pub struct PerformancePolicy {
    pub target_latency_ms: u16,
    pub max_bitrate_mbps: u16,
    pub baseline_profile: String,
    pub allow_4k_best_effort: bool,
}

impl Clone for PerformancePolicy {
    fn clone(&self) -> (r: Self)
        ensures
            r == *self,
    {
        PerformancePolicy {
            target_latency_ms: self.target_latency_ms,
            max_bitrate_mbps: self.max_bitrate_mbps,
            baseline_profile: self.baseline_profile.clone(),
            allow_4k_best_effort: self.allow_4k_best_effort,
        }
    }
}

pub struct ReceiverPolicy {
    pub acceptance: AcceptancePolicy,
    pub max_sessions: usize,
    pub queue_policy: QueuePolicy,
    pub audio_output_device: String,
    pub display: DisplayPolicy,
    pub performance: PerformancePolicy,
}

impl Clone for ReceiverPolicy {
    fn clone(&self) -> (r: Self)
        ensures
            r == *self,
    {
        ReceiverPolicy {
            acceptance: self.acceptance,
            max_sessions: self.max_sessions,
            queue_policy: self.queue_policy,
            audio_output_device: self.audio_output_device.clone(),
            display: self.display.clone(),
            performance: self.performance.clone(),
        }
    }
}

#[derive(Clone, Copy, Debug, PartialEq, Eq, Structural)]
pub struct ReliabilityPolicy {
    pub reconnect_grace_ms: u64,
    pub max_reconnect_attempts: u8,
}

pub struct OperatorSettings {
    pub device_name: String,
    pub pin_policy: PinPolicy,
    pub network_visibility: NetworkVisibility,
}

impl Clone for OperatorSettings {
    fn clone(&self) -> (r: Self)
        ensures
            r == *self,
    {
        OperatorSettings {
            device_name: self.device_name.clone(),
            pin_policy: self.pin_policy,
            network_visibility: self.network_visibility,
        }
    }
}

pub struct UpdateOperatorSettingsRequest {
    pub device_name: Option<String>,
    pub pin_policy: Option<PinPolicy>,
    pub network_visibility: Option<NetworkVisibility>,
}

pub struct PairingPinResponse {
    pub pin: String,
    pub expires_at: Timestamp,
}

impl Clone for PairingPinResponse {
    fn clone(&self) -> (r: Self)
        ensures
            r == *self,
    {
        PairingPinResponse { pin: self.pin.clone(), expires_at: self.expires_at }
    }
}

pub struct PairingPinState {
    pub enabled: bool,
    pub pin: Option<String>,
    pub expires_at: Option<Timestamp>,
}

pub struct ProtocolInstruction {
    pub protocol: String,
    pub hint: String,
}

pub struct ConnectInstructionsResponse {
    pub receiver_name: String,
    pub local_url: String,
    pub pairing_pin: PairingPinState,
    pub protocol_hints: Vec<ProtocolInstruction>,
}

pub struct SignedConfigProfile {
    pub name: String,
    pub issued_at: Timestamp,
    pub policy: ReceiverPolicy,
    pub operator: OperatorSettings,
}

impl Clone for SignedConfigProfile {
    fn clone(&self) -> (r: Self)
        ensures
            r == *self,
    {
        SignedConfigProfile {
            name: self.name.clone(),
            issued_at: self.issued_at,
            policy: self.policy.clone(),
            operator: self.operator.clone(),
        }
    }
}

pub struct SignConfigProfileRequest {
    pub name: String,
    pub policy: ReceiverPolicy,
    pub operator: OperatorSettings,
}

pub struct SignedConfigEnvelope {
    pub profile: SignedConfigProfile,
    pub signature: String,
}

pub struct VerifyConfigProfileRequest {
    pub profile: SignedConfigProfile,
    pub signature: String,
}

pub struct VerifyConfigProfileResponse {
    pub valid: bool,
}

pub struct StartRecordingRequest {
    pub session_id: u128,
    pub profile: RecordingProfile,
}

pub struct StopRecordingRequest {
    pub session_id: u128,
}

pub struct CreateSessionRequest {
    pub protocol: ProtocolKind,
    pub device_name: String,
    pub device_platform: String,
    pub priority: Option<SessionPriority>,
    pub audio_mode: Option<AudioMode>,
}

pub struct UpdateProtocolRequest {
    pub enabled: bool,
}

pub struct UpdatePolicyRequest {
    pub acceptance: Option<AcceptancePolicy>,
    pub max_sessions: Option<usize>,
    pub queue_policy: Option<QueuePolicy>,
    pub audio_output_device: Option<String>,
    pub target_display: Option<String>,
    pub scaling_mode: Option<ScalingMode>,
    pub rotation_degrees: Option<u16>,
    pub preserve_aspect_ratio: Option<bool>,
    pub target_latency_ms: Option<u16>,
    pub max_bitrate_mbps: Option<u16>,
    pub baseline_profile: Option<String>,
    pub allow_4k_best_effort: Option<bool>,
}

pub struct SessionReconnectRequest {
    pub jitter_ms: u16,
    pub dropped: bool,
}

pub struct SessionReconnectResponse {
    pub session_id: u128,
    pub status: SessionStatus,
    pub reconnect_attempts: u8,
    pub resumed: bool,
}

pub struct ThroughputProbeResult {
    pub profile: String,
    pub expected_fps: u16,
    pub expected_latency_ms: u16,
    pub target_bitrate_mbps: u16,
}

pub struct PerformanceReport {
    pub baseline_1080p60: ThroughputProbeResult,
    pub best_effort_4k: ThroughputProbeResult,
}

pub struct AuditExport {
    pub exported_at: Timestamp,
    pub format: String,
    pub total_events: usize,
    pub events: Vec<AuditEvent>,
}

/// Liveness with the server's time and how long it has been up.
pub struct HealthDetail {
    pub status: String,
    pub server_time: Timestamp,
    pub uptime_secs: u64,
}

/// The receiver's in-memory state for debugging, with the trailing audit
/// events.
pub struct DebugSnapshot {
    pub dashboard: DashboardSummary,
    pub protocols: Vec<ProtocolDescriptor>,
    pub sessions: Vec<SessionDescriptor>,
    pub recordings: Vec<RecordingState>,
    pub trusted_devices: Vec<String>,
    pub policy: ReceiverPolicy,
    pub operator_settings: OperatorSettings,
    pub reliability: ReliabilityPolicy,
    pub pairing_pin: Option<PairingPinResponse>,
    pub recent_audit: Vec<AuditEvent>,
}

pub struct DiagnosticsBundle {
    pub generated_at: Timestamp,
    pub dashboard: DashboardSummary,
    pub policy: ReceiverPolicy,
    pub reliability: ReliabilityPolicy,
    pub sessions: Vec<SessionDescriptor>,
    pub active_recordings: Vec<RecordingState>,
    pub protocol_status: Vec<ProtocolDescriptor>,
}

pub struct PreviewStateResponse {
    pub stream_state: PreviewStreamState,
    pub resolution: Option<String>,
    pub fps_target: Option<u16>,
    pub session_id: Option<u128>,
    pub protocol: Option<ProtocolKind>,
    pub device_name: Option<String>,
}

#[derive(Clone, Copy, Debug, PartialEq, Eq, Structural)]
pub struct DashboardSummary {
    pub protocol_count: usize,
    pub pending_sessions: usize,
    pub active_sessions: usize,
    pub stopped_sessions: usize,
    pub trusted_device_count: usize,
    pub active_recordings: usize,
}

/// The answer to a recording start or stop: the session and its recording
/// status ("recording" or "stopped").
pub struct RecordingAck {
    pub session_id: u128,
    pub status: String,
}

/// The body of a refused request.
pub struct ApiError {
    pub error: String,
}

/// The HTTP status with which the control API answers (`Success` is 200).
#[derive(Clone, Copy, Debug, PartialEq, Eq, Structural)]
pub enum HttpStatus {
    Success,
    Created,
    BadRequest,
    Unauthorized,
    NotFound,
    Conflict,
}

/// A refused request: the status and the error body.
pub struct Rejection {
    pub status: HttpStatus,
    pub body: ApiError,
}

} // verus!
