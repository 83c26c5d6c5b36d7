//! Client-side logic for Firebase Cloud Messaging device groups: the wire
//! schema of the group operations, the classification of the service's error
//! bodies, and the shaping of each HTTP request.
use vstd::prelude::*;

pub mod json;
pub mod raw;
pub mod error;
pub mod request;

pub use raw::{Operation, OperationResponse};
pub use request::FIREBASE_NOTIFICATION_URL;

verus! {

/// A device group: its name, and the key the service gave it.
#[derive(Debug, Clone)]
pub struct FCMDeviceGroup {
    /// Name of the device group.
    pub notification_key_name: String,
    /// Key of the device group; one group may have several keys.
    pub notification_key: String,
}

} // verus!
