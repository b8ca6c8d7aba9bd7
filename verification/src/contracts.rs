//! Interfaces that platform back ends implement.

use vstd::prelude::*;

use crate::model::{DeviceDescriptor, ReceiverPolicy, RecordingProfile, SessionDescriptor, StreamCapabilities};

verus! {

/// A streaming protocol back end (AirPlay, Cast, Miracast).
pub trait ProtocolAdapter: Send + Sync {
    fn protocol_id(&self) -> &'static str;

    fn discover(&self) -> Vec<DeviceDescriptor>;

    fn capabilities(&self) -> StreamCapabilities;
}

/// The component that owns running sessions.
pub trait SessionController: Send + Sync {
    fn list_sessions(&self) -> Vec<SessionDescriptor>;
}

/// The component that lays mirrored streams out on the display.
pub trait CompositorEngine: Send + Sync {
    fn layout_mode(&self) -> &'static str;
}

/// The component that writes sessions to disk.
pub trait Recorder: Send + Sync {
    fn start(&self, session_id: &str, profile: &RecordingProfile) -> bool;

    fn stop(&self, session_id: &str) -> bool;
}

/// Persistent store of trusted sender devices.
pub trait PairingStore: Send + Sync {
    fn trust_device(&self, device_id: &str);

    fn is_trusted(&self, device_id: &str) -> bool;
}

/// Source of the receiver policy currently in force.
pub trait PolicyEngine: Send + Sync {
    fn get_policy(&self) -> ReceiverPolicy;
}

} // verus!
