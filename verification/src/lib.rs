//! Control core of a local screen-mirroring receiver: protocol catalogue,
//! session lifecycle, recordings, device trust, receiver policy, pairing,
//! signed configuration profiles and the audit trail.

pub mod clock;
pub mod contracts;
pub mod ids;
pub mod laws;
pub mod model;
pub mod net;
pub mod policy;
pub mod receiver;
pub mod sessions;
pub mod signature;
pub mod state;
pub mod text;
