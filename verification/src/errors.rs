//! Error taxonomy of the control plane, and its projection onto the HTTP
//! error envelope of the daemon API: not-found lookups map to 404, conflicts
//! (existing names, taken ports, illegal transitions) to 409, quota and
//! request-shape problems to 400, host faults to 500.

use vstd::prelude::*;

use crate::numstr::{spec_u64_str, u16_to_string, u64_to_string};

verus! {

/// Typed errors surfaced by the lifecycle coordinator and its collaborators.
#[derive(Debug)]
pub enum HypervisorError {
    InstanceNotFound(String),
    InstanceAlreadyExists(String),
    InvalidStateTransition { from: String, to: String },
    PortUnavailable(u16),
    NoPortsAvailable,
    StorageQuotaExceeded { used: u64, limit: u64 },
    QemuFailed(String),
    VmProcessNotFound(String),
    Io(String),
    Database(String),
    Serialization(String),
    MeasurementFailed(String),
    AttestationFailed(String),
}

/// The API-facing error classes, one per HTTP status used.
#[derive(Debug)]
pub enum ApiError {
    NotFound(String),
    Conflict(String),
    BadRequest(String),
    Internal(String),
}

impl ApiError {
    /// The HTTP status of this class.
    pub fn http_status(&self) -> (r: u16)
        ensures
            (self matches ApiError::NotFound(_)) ==> r == 404,
            (self matches ApiError::Conflict(_)) ==> r == 409,
            (self matches ApiError::BadRequest(_)) ==> r == 400,
            (self matches ApiError::Internal(_)) ==> r == 500,
    {
        match self {
            ApiError::NotFound(_) => 404,
            ApiError::Conflict(_) => 409,
            ApiError::BadRequest(_) => 400,
            ApiError::Internal(_) => 500,
        }
    }

    /// The machine-readable code of this class, as put in the envelope.
    pub fn code(&self) -> (r: String)
        ensures
            (self matches ApiError::NotFound(_)) ==> r@ == "NOT_FOUND"@,
            (self matches ApiError::Conflict(_)) ==> r@ == "CONFLICT"@,
            (self matches ApiError::BadRequest(_)) ==> r@ == "BAD_REQUEST"@,
            (self matches ApiError::Internal(_)) ==> r@ == "INTERNAL_ERROR"@,
    {
        match self {
            ApiError::NotFound(_) => "NOT_FOUND".to_owned(),
            ApiError::Conflict(_) => "CONFLICT".to_owned(),
            ApiError::BadRequest(_) => "BAD_REQUEST".to_owned(),
            ApiError::Internal(_) => "INTERNAL_ERROR".to_owned(),
        }
    }

    /// The human-readable message carried by this error.
    pub fn message(&self) -> (r: String)
        ensures
            (match self {
                ApiError::NotFound(m) => r@ == m@,
                ApiError::Conflict(m) => r@ == m@,
                ApiError::BadRequest(m) => r@ == m@,
                ApiError::Internal(m) => r@ == m@,
            }),
    {
        match self {
            ApiError::NotFound(m) => m.clone(),
            ApiError::Conflict(m) => m.clone(),
            ApiError::BadRequest(m) => m.clone(),
            ApiError::Internal(m) => m.clone(),
        }
    }

    /// Classifies a coordinator error: missing instances are 404, conflicts
    /// over names, ports and transitions are 409, an exceeded quota is 400,
    /// and host faults are 500.
    pub fn from_error(err: HypervisorError) -> (r: ApiError)
        ensures
            (match err {
                HypervisorError::InstanceNotFound(n) => r matches ApiError::NotFound(m) && m@
                    == "Instance '"@ + n@ + "' not found"@,
                HypervisorError::InstanceAlreadyExists(n) => r matches ApiError::Conflict(m) && m@
                    == "Instance '"@ + n@ + "' already exists"@,
                HypervisorError::InvalidStateTransition { from, to } => r matches ApiError::Conflict(
                    m,
                ) && m@ == "Invalid state transition from "@ + from@ + " to "@ + to@,
                HypervisorError::PortUnavailable(port) => r matches ApiError::Conflict(m) && m@
                    == "Port "@ + spec_u64_str(port as nat) + " is not available"@,
                HypervisorError::NoPortsAvailable => r matches ApiError::Conflict(m) && m@
                    == "No ports available"@,
                HypervisorError::StorageQuotaExceeded { used, limit } => r matches ApiError::BadRequest(
                    m,
                ) && m@ == "Storage quota exceeded: used "@ + spec_u64_str(used as nat) + ", limit "@
                    + spec_u64_str(limit as nat),
                HypervisorError::QemuFailed(msg) => r matches ApiError::Internal(m) && m@
                    == "QEMU operation failed: "@ + msg@,
                HypervisorError::VmProcessNotFound(n) => r matches ApiError::NotFound(m) && m@
                    == "VM process not found for instance '"@ + n@ + "'"@,
                HypervisorError::Io(msg) => r matches ApiError::Internal(m) && m@ == msg@,
                HypervisorError::Database(msg) => r matches ApiError::Internal(m) && m@ == msg@,
                HypervisorError::Serialization(msg) => r matches ApiError::Internal(m) && m@
                    == msg@,
                HypervisorError::MeasurementFailed(msg) => r matches ApiError::Internal(m) && m@
                    == msg@,
                HypervisorError::AttestationFailed(msg) => r matches ApiError::Internal(m) && m@
                    == msg@,
            }),
    {
        match err {
            HypervisorError::InstanceNotFound(n) => ApiError::NotFound(
                "Instance '".to_owned().concat(n.as_str()).concat("' not found"),
            ),
            HypervisorError::InstanceAlreadyExists(n) => ApiError::Conflict(
                "Instance '".to_owned().concat(n.as_str()).concat("' already exists"),
            ),
            HypervisorError::InvalidStateTransition { from, to } => ApiError::Conflict(
                "Invalid state transition from ".to_owned().concat(from.as_str()).concat(" to ")
                    .concat(to.as_str()),
            ),
            HypervisorError::PortUnavailable(port) => ApiError::Conflict(
                "Port ".to_owned().concat(u16_to_string(port).as_str()).concat(
                    " is not available",
                ),
            ),
            HypervisorError::NoPortsAvailable => ApiError::Conflict(
                "No ports available".to_owned(),
            ),
            HypervisorError::StorageQuotaExceeded { used, limit } => ApiError::BadRequest(
                "Storage quota exceeded: used ".to_owned().concat(u64_to_string(used).as_str())
                    .concat(", limit ").concat(u64_to_string(limit).as_str()),
            ),
            HypervisorError::QemuFailed(msg) => ApiError::Internal(
                "QEMU operation failed: ".to_owned().concat(msg.as_str()),
            ),
            HypervisorError::VmProcessNotFound(n) => ApiError::NotFound(
                "VM process not found for instance '".to_owned().concat(n.as_str()).concat("'"),
            ),
            HypervisorError::Io(msg) => ApiError::Internal(msg),
            HypervisorError::Database(msg) => ApiError::Internal(msg),
            HypervisorError::Serialization(msg) => ApiError::Internal(msg),
            HypervisorError::MeasurementFailed(msg) => ApiError::Internal(msg),
            HypervisorError::AttestationFailed(msg) => ApiError::Internal(msg),
        }
    }
}

} // verus!
