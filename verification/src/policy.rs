//! Receiver policy and operator settings: defaults, validation of partial
//! updates, and the performance report that the policy implies.

use vstd::prelude::*;

use crate::model::{
    AcceptancePolicy, DisplayPolicy, OperatorSettings, PerformancePolicy, PerformanceReport,
    QueuePolicy, ReceiverPolicy, ScalingMode, ThroughputProbeResult, UpdateOperatorSettingsRequest,
    UpdatePolicyRequest,
};
use crate::text::{blank, is_blank, opt_text};

verus! {

impl Default for PerformancePolicy {
    fn default() -> (r: Self)
        ensures
            r.target_latency_ms == 85,
            r.max_bitrate_mbps == 24,
            r.baseline_profile@ == "1080p60"@,
            r.allow_4k_best_effort,
    {
        PerformancePolicy {
            target_latency_ms: 85,
            max_bitrate_mbps: 24,
            baseline_profile: String::from_str("1080p60"),
            allow_4k_best_effort: true,
        }
    }
}

pub open spec fn valid_max_sessions(m: usize) -> bool {
    1 <= m <= 4
}

pub open spec fn valid_rotation(r: u16) -> bool {
    r == 0 || r == 90 || r == 180 || r == 270
}

pub open spec fn valid_latency(l: u16) -> bool {
    30 <= l <= 300
}

pub open spec fn valid_bitrate(b: u16) -> bool {
    8 <= b <= 120
}

/// A policy that every accepted update keeps: a session limit of 1 to 4, a
/// right-angle rotation, latency and bitrate targets within their ranges,
/// and no blank device, display or profile name.
pub open spec fn policy_valid(p: ReceiverPolicy) -> bool {
    &&& valid_max_sessions(p.max_sessions)
    &&& valid_rotation(p.display.rotation_degrees)
    &&& valid_latency(p.performance.target_latency_ms)
    &&& valid_bitrate(p.performance.max_bitrate_mbps)
    &&& !blank(p.audio_output_device@)
    &&& !blank(p.display.target_display@)
    &&& !blank(p.performance.baseline_profile@)
}

/// The text is given and blank.
pub open spec fn given_blank(o: Option<String>) -> bool {
    o is Some && blank(o->0@)
}

/// The first range check that the update fails, with its message; the
/// range checks come before any field is changed.
pub open spec fn range_error(req: UpdatePolicyRequest) -> Option<Seq<char>> {
    if req.max_sessions is Some && !valid_max_sessions(req.max_sessions->0) {
        Some("max_sessions must be between 1 and 4"@)
    } else if req.rotation_degrees is Some && !valid_rotation(req.rotation_degrees->0) {
        Some("rotation_degrees must be one of 0, 90, 180, 270"@)
    } else if req.target_latency_ms is Some && !valid_latency(req.target_latency_ms->0) {
        Some("target_latency_ms must be between 30 and 300"@)
    } else if req.max_bitrate_mbps is Some && !valid_bitrate(req.max_bitrate_mbps->0) {
        Some("max_bitrate_mbps must be between 8 and 120"@)
    } else {
        None
    }
}

pub open spec fn or_keep<T>(o: Option<T>, old: T) -> T {
    match o {
        Some(v) => v,
        None => old,
    }
}

/// The acceptance, session-limit and queue fields of the update applied.
pub open spec fn with_admission(p: ReceiverPolicy, req: UpdatePolicyRequest) -> ReceiverPolicy {
    ReceiverPolicy {
        acceptance: or_keep(req.acceptance, p.acceptance),
        max_sessions: or_keep(req.max_sessions, p.max_sessions),
        queue_policy: or_keep(req.queue_policy, p.queue_policy),
        ..p
    }
}

/// The audio output device of the update applied.
pub open spec fn with_audio(p: ReceiverPolicy, req: UpdatePolicyRequest) -> ReceiverPolicy {
    ReceiverPolicy { audio_output_device: or_keep(req.audio_output_device, p.audio_output_device), ..p }
}

/// The display fields and the latency and bitrate targets of the update
/// applied.
pub open spec fn with_display(p: ReceiverPolicy, req: UpdatePolicyRequest) -> ReceiverPolicy {
    ReceiverPolicy {
        display: DisplayPolicy {
            target_display: or_keep(req.target_display, p.display.target_display),
            scaling_mode: or_keep(req.scaling_mode, p.display.scaling_mode),
            rotation_degrees: or_keep(req.rotation_degrees, p.display.rotation_degrees),
            preserve_aspect_ratio: or_keep(req.preserve_aspect_ratio, p.display.preserve_aspect_ratio),
        },
        performance: PerformancePolicy {
            target_latency_ms: or_keep(req.target_latency_ms, p.performance.target_latency_ms),
            max_bitrate_mbps: or_keep(req.max_bitrate_mbps, p.performance.max_bitrate_mbps),
            ..p.performance
        },
        ..p
    }
}

/// The baseline profile and the 4K switch of the update applied.
pub open spec fn with_profile(p: ReceiverPolicy, req: UpdatePolicyRequest) -> ReceiverPolicy {
    ReceiverPolicy {
        performance: PerformancePolicy {
            baseline_profile: or_keep(req.baseline_profile, p.performance.baseline_profile),
            allow_4k_best_effort: or_keep(req.allow_4k_best_effort, p.performance.allow_4k_best_effort),
            ..p.performance
        },
        ..p
    }
}

/// The first blank text field of the update, with its message, in the
/// order audio device, display, baseline profile.
pub open spec fn blank_error(req: UpdatePolicyRequest) -> Option<Seq<char>> {
    if given_blank(req.audio_output_device) {
        Some("audio_output_device cannot be empty"@)
    } else if given_blank(req.target_display) {
        Some("target_display cannot be empty"@)
    } else if given_blank(req.baseline_profile) {
        Some("baseline_profile cannot be empty"@)
    } else {
        None
    }
}

/// Why the update is refused: the first failed range check, else the first
/// blank text field.
pub open spec fn update_error(req: UpdatePolicyRequest) -> Option<Seq<char>> {
    match range_error(req) {
        Some(m) => Some(m),
        None => blank_error(req),
    }
}

/// Every given field of the update written into `p`.
pub open spec fn with_update(p: ReceiverPolicy, req: UpdatePolicyRequest) -> ReceiverPolicy {
    with_profile(with_display(with_audio(with_admission(p, req), req), req), req)
}

/// What an update does to policy `p`: the policy afterwards, and the message
/// when it is refused. Every check is made before any field is written, so
/// a refused update leaves the policy as it was; an accepted one writes
/// every given field.
pub open spec fn policy_update(p: ReceiverPolicy, req: UpdatePolicyRequest) -> (ReceiverPolicy, Option<Seq<char>>) {
    match update_error(req) {
        Some(m) => (p, Some(m)),
        None => (with_update(p, req), None),
    }
}

fn check_blanks(req: &UpdatePolicyRequest) -> (r: Option<String>)
    ensures
        match r {
            Some(m) => blank_error(*req) == Some(m@),
            None => blank_error(*req) is None,
        },
{
    if let Some(v) = &req.audio_output_device {
        if is_blank(v.as_str()) {
            return Some(String::from_str("audio_output_device cannot be empty"));
        }
    }
    if let Some(v) = &req.target_display {
        if is_blank(v.as_str()) {
            return Some(String::from_str("target_display cannot be empty"));
        }
    }
    if let Some(v) = &req.baseline_profile {
        if is_blank(v.as_str()) {
            return Some(String::from_str("baseline_profile cannot be empty"));
        }
    }
    None
}

fn check_ranges(req: &UpdatePolicyRequest) -> (r: Option<String>)
    ensures
        match r {
            Some(m) => range_error(*req) == Some(m@),
            None => range_error(*req) is None,
        },
{
    if let Some(max) = req.max_sessions {
        if max == 0 || max > 4 {
            return Some(String::from_str("max_sessions must be between 1 and 4"));
        }
    }
    if let Some(rotation) = req.rotation_degrees {
        if !(rotation == 0 || rotation == 90 || rotation == 180 || rotation == 270) {
            return Some(String::from_str("rotation_degrees must be one of 0, 90, 180, 270"));
        }
    }
    if let Some(latency) = req.target_latency_ms {
        if !(30 <= latency && latency <= 300) {
            return Some(String::from_str("target_latency_ms must be between 30 and 300"));
        }
    }
    if let Some(bitrate) = req.max_bitrate_mbps {
        if !(8 <= bitrate && bitrate <= 120) {
            return Some(String::from_str("max_bitrate_mbps must be between 8 and 120"));
        }
    }
    None
}

fn write_admission(
    policy: &mut ReceiverPolicy,
    acceptance: Option<AcceptancePolicy>,
    max_sessions: Option<usize>,
    queue_policy: Option<QueuePolicy>,
)
    ensures
        *final(policy) == (ReceiverPolicy {
            acceptance: or_keep(acceptance, old(policy).acceptance),
            max_sessions: or_keep(max_sessions, old(policy).max_sessions),
            queue_policy: or_keep(queue_policy, old(policy).queue_policy),
            ..*old(policy)
        }),
{
    if let Some(v) = acceptance {
        policy.acceptance = v;
    }
    if let Some(v) = max_sessions {
        policy.max_sessions = v;
    }
    if let Some(v) = queue_policy {
        policy.queue_policy = v;
    }
}

fn write_display(
    display: &mut DisplayPolicy,
    scaling_mode: Option<ScalingMode>,
    rotation_degrees: Option<u16>,
    preserve_aspect_ratio: Option<bool>,
)
    ensures
        *final(display) == (DisplayPolicy {
            scaling_mode: or_keep(scaling_mode, old(display).scaling_mode),
            rotation_degrees: or_keep(rotation_degrees, old(display).rotation_degrees),
            preserve_aspect_ratio: or_keep(preserve_aspect_ratio, old(display).preserve_aspect_ratio),
            ..*old(display)
        }),
{
    if let Some(v) = scaling_mode {
        display.scaling_mode = v;
    }
    if let Some(v) = rotation_degrees {
        display.rotation_degrees = v;
    }
    if let Some(v) = preserve_aspect_ratio {
        display.preserve_aspect_ratio = v;
    }
}

fn write_targets(perf: &mut PerformancePolicy, target_latency_ms: Option<u16>, max_bitrate_mbps: Option<u16>)
    ensures
        *final(perf) == (PerformancePolicy {
            target_latency_ms: or_keep(target_latency_ms, old(perf).target_latency_ms),
            max_bitrate_mbps: or_keep(max_bitrate_mbps, old(perf).max_bitrate_mbps),
            ..*old(perf)
        }),
{
    if let Some(v) = target_latency_ms {
        perf.target_latency_ms = v;
    }
    if let Some(v) = max_bitrate_mbps {
        perf.max_bitrate_mbps = v;
    }
}

fn write_text(field: &mut String, value: Option<String>)
    ensures
        *final(field) == or_keep(value, *old(field)),
{
    if let Some(v) = value {
        *field = v;
    }
}

/// Applies a partial policy update in place, all or nothing: every check is
/// made first; on refusal nothing is written and the message is returned.
pub fn apply_policy_update(policy: &mut ReceiverPolicy, req: UpdatePolicyRequest) -> (r: Option<String>)
    ensures
        (*final(policy), opt_text(r)) == policy_update(*old(policy), req),
{
    let ghost p0 = *policy;
    let ghost rq = req;
    if let Some(m) = check_ranges(&req) {
        return Some(m);
    }
    if let Some(m) = check_blanks(&req) {
        return Some(m);
    }
    let UpdatePolicyRequest {
        acceptance,
        max_sessions,
        queue_policy,
        audio_output_device,
        target_display,
        scaling_mode,
        rotation_degrees,
        preserve_aspect_ratio,
        target_latency_ms,
        max_bitrate_mbps,
        baseline_profile,
        allow_4k_best_effort,
    } = req;
    write_admission(policy, acceptance, max_sessions, queue_policy);
    let ghost pa = *policy;
    assert(pa == with_admission(p0, rq));
    write_text(&mut policy.audio_output_device, audio_output_device);
    let ghost pb = *policy;
    assert(pb == with_audio(pa, rq));
    write_text(&mut policy.display.target_display, target_display);
    write_display(&mut policy.display, scaling_mode, rotation_degrees, preserve_aspect_ratio);
    write_targets(&mut policy.performance, target_latency_ms, max_bitrate_mbps);
    let ghost pc = *policy;
    assert(pc == with_display(pb, rq));
    write_text(&mut policy.performance.baseline_profile, baseline_profile);
    if let Some(v) = allow_4k_best_effort {
        policy.performance.allow_4k_best_effort = v;
    }
    assert(*policy == with_profile(pc, rq));
    None
}

/// A valid policy stays valid under every update, accepted or refused.
pub proof fn lemma_policy_update_keeps_validity(p: ReceiverPolicy, req: UpdatePolicyRequest)
    requires
        policy_valid(p),
    ensures
        policy_valid(policy_update(p, req).0),
{
}

/// A refused update leaves the policy as it was.
pub proof fn lemma_refused_update_changes_nothing(p: ReceiverPolicy, req: UpdatePolicyRequest)
    requires
        update_error(req) is Some,
    ensures
        policy_update(p, req).0 == p,
        policy_update(p, req).1 == update_error(req),
{
}

/// What an operator-settings update does: a blank device name refuses it
/// with nothing changed; otherwise each given field is written.
pub open spec fn operator_update(s: OperatorSettings, req: UpdateOperatorSettingsRequest) -> (OperatorSettings, Option<Seq<char>>) {
    if given_blank(req.device_name) {
        (s, Some("device_name cannot be empty"@))
    } else {
        (
            OperatorSettings {
                device_name: or_keep(req.device_name, s.device_name),
                pin_policy: or_keep(req.pin_policy, s.pin_policy),
                network_visibility: or_keep(req.network_visibility, s.network_visibility),
            },
            None,
        )
    }
}

/// Applies an operator-settings update in place; on refusal returns the
/// message.
pub fn apply_operator_update(settings: &mut OperatorSettings, req: UpdateOperatorSettingsRequest) -> (r: Option<String>)
    ensures
        (*final(settings), opt_text(r)) == operator_update(*old(settings), req),
{
    let UpdateOperatorSettingsRequest { device_name, pin_policy, network_visibility } = req;
    if let Some(name) = device_name {
        if is_blank(name.as_str()) {
            return Some(String::from_str("device_name cannot be empty"));
        }
        settings.device_name = name;
    }
    if let Some(v) = pin_policy {
        settings.pin_policy = v;
    }
    if let Some(v) = network_visibility {
        settings.network_visibility = v;
    }
    None
}

/// The expected throughput under `p`: the baseline profile at 60 fps with
/// the policy's latency and bitrate, and the 4K best-effort profile (45 fps,
/// or "disabled" at 0 fps) with 35 ms more latency and 12 Mbps more bitrate,
/// both capped at the largest 16-bit value.
pub open spec fn report_for(p: ReceiverPolicy, r: PerformanceReport) -> bool {
    &&& r.baseline_1080p60.profile == p.performance.baseline_profile
    &&& r.baseline_1080p60.expected_fps == 60
    &&& r.baseline_1080p60.expected_latency_ms == p.performance.target_latency_ms
    &&& r.baseline_1080p60.target_bitrate_mbps == p.performance.max_bitrate_mbps
    &&& r.best_effort_4k.profile@ == if p.performance.allow_4k_best_effort {
        "4k-best-effort"@
    } else {
        "disabled"@
    }
    &&& r.best_effort_4k.expected_fps == if p.performance.allow_4k_best_effort {
        45u16
    } else {
        0u16
    }
    &&& r.best_effort_4k.expected_latency_ms == p.performance.target_latency_ms.saturating_add(35)
    &&& r.best_effort_4k.target_bitrate_mbps == p.performance.max_bitrate_mbps.saturating_add(12)
}

/// The performance report for policy `p`.
pub fn performance_report(p: &ReceiverPolicy) -> (r: PerformanceReport)
    ensures
        report_for(*p, r),
{
    let allow = p.performance.allow_4k_best_effort;
    PerformanceReport {
        baseline_1080p60: ThroughputProbeResult {
            profile: p.performance.baseline_profile.clone(),
            expected_fps: 60,
            expected_latency_ms: p.performance.target_latency_ms,
            target_bitrate_mbps: p.performance.max_bitrate_mbps,
        },
        best_effort_4k: ThroughputProbeResult {
            profile: if allow {
                String::from_str("4k-best-effort")
            } else {
                String::from_str("disabled")
            },
            expected_fps: if allow {
                45
            } else {
                0
            },
            expected_latency_ms: p.performance.target_latency_ms.saturating_add(35),
            target_bitrate_mbps: p.performance.max_bitrate_mbps.saturating_add(12),
        },
    }
}

} // verus!
