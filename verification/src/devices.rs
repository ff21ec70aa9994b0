//! What every device mirror shares: the staleness policy, the health
//! condition, the status snapshot the room layer reads, the error
//! taxonomy of a refresh, and the outcome a transport hands back.

pub mod power_socket;
pub mod thermometer;

use crate::numeral::{digit_str, spec_digit_char, spec_u64_string, u64_string};
use crate::proto::Response;
use crate::strutil::{to_uppercase, upper_of};
use vstd::prelude::*;

verus! {

/// How long a cached device value stays fresh, in milliseconds.
/// A mirror older than this is refreshed before the next read.
pub const UPDATE_INTERVAL_MS: u64 = 500;

/// A cached value needs a refresh when it has never been refreshed, or
/// when more than `UPDATE_INTERVAL_MS` has passed since the refresh.
pub open spec fn spec_needs_update(updated: Option<u64>, now: u64) -> bool {
    match updated {
        Option::None => true,
        Option::Some(t) => t + UPDATE_INTERVAL_MS < now,
    }
}

/// Staleness test for a mirror's last-refresh timestamp (milliseconds).
pub fn device_needs_update(updated: Option<u64>, now: u64) -> (r: bool)
    ensures
        r == spec_needs_update(updated, now),
{
    match updated {
        None => true,
        Some(t) => t < now && now - t > UPDATE_INTERVAL_MS,
    }
}

/// Health of a device mirror: `Good` after a successful refresh (and
/// permanently for a purely local device), `Error` after an
/// application-level error response, `Unknown` before the first refresh
/// or after a response of an unexpected shape.
#[derive(Debug)]
pub enum DeviceCondition {
    Good,
    Error(String),
    Unknown,
}

/// The mathematical shape of a `DeviceCondition`.
pub enum CondModel {
    Good,
    Error(Seq<char>),
    Unknown,
}

impl View for DeviceCondition {
    type V = CondModel;

    open spec fn view(&self) -> CondModel {
        match self {
            DeviceCondition::Good => CondModel::Good,
            DeviceCondition::Error(m) => CondModel::Error(m@),
            DeviceCondition::Unknown => CondModel::Unknown,
        }
    }
}

impl Clone for DeviceCondition {
    fn clone(&self) -> (r: Self)
        ensures
            r@ == self@,
    {
        match self {
            DeviceCondition::Good => DeviceCondition::Good,
            DeviceCondition::Unknown => DeviceCondition::Unknown,
            DeviceCondition::Error(err) => DeviceCondition::Error(err.clone()),
        }
    }
}

impl PartialEq for DeviceCondition {
    fn eq(&self, other: &Self) -> (r: bool) {
        match (self, other) {
            (DeviceCondition::Good, DeviceCondition::Good) => true,
            (DeviceCondition::Unknown, DeviceCondition::Unknown) => true,
            (DeviceCondition::Error(a), DeviceCondition::Error(b)) => *a == *b,
            _ => false,
        }
    }
}

impl vstd::std_specs::cmp::PartialEqSpecImpl for DeviceCondition {
    open spec fn obeys_eq_spec() -> bool {
        true
    }

    open spec fn eq_spec(&self, other: &Self) -> bool {
        self@ == other@
    }
}

/// How a condition reads: `OK`, `ERROR: <message>`, or `UNKNOWN`.
pub open spec fn spec_cond_string(c: CondModel) -> Seq<char> {
    match c {
        CondModel::Good => "OK"@,
        CondModel::Error(m) => "ERROR: "@ + m,
        CondModel::Unknown => "UNKNOWN"@,
    }
}

impl DeviceCondition {
    /// The condition as the room summary renders it.
    pub fn as_string(&self) -> (r: String)
        ensures
            r@ == spec_cond_string(self@),
    {
        match self {
            DeviceCondition::Good => String::from_str("OK"),
            DeviceCondition::Unknown => String::from_str("UNKNOWN"),
            DeviceCondition::Error(err) => {
                let mut s = String::from_str("ERROR: ");
                s.append(err.as_str());
                s
            },
        }
    }
}

/// A point-in-time snapshot of one device, as the room layer reads it.
#[derive(Debug)]
pub struct DeviceStatus {
    pub device_type: String,
    pub name: String,
    pub condition: DeviceCondition,
    pub status: String,
    pub updated: Option<u64>,
}

/// The mathematical shape of a `DeviceStatus`.
pub struct StatusModel {
    pub device_type: Seq<char>,
    pub name: Seq<char>,
    pub condition: CondModel,
    pub status: Seq<char>,
    pub updated: Option<u64>,
}

impl View for DeviceStatus {
    type V = StatusModel;

    open spec fn view(&self) -> StatusModel {
        StatusModel {
            device_type: self.device_type@,
            name: self.name@,
            condition: self.condition@,
            status: self.status@,
            updated: self.updated,
        }
    }
}

impl PartialEq for DeviceStatus {
    fn eq(&self, other: &Self) -> (r: bool) {
        let same_updated = match (self.updated, other.updated) {
            (None, None) => true,
            (Some(a), Some(b)) => a == b,
            _ => false,
        };
        self.device_type == other.device_type && self.name == other.name && self.condition
            == other.condition && self.status == other.status && same_updated
    }
}

impl vstd::std_specs::cmp::PartialEqSpecImpl for DeviceStatus {
    open spec fn obeys_eq_spec() -> bool {
        true
    }

    open spec fn eq_spec(&self, other: &Self) -> bool {
        self@ == other@
    }
}

/// The long form of a status: bracketed uppercased device type, name,
/// then condition and status lines.
pub open spec fn spec_status_string(m: StatusModel) -> Seq<char> {
    "["@ + upper_of(m.device_type) + "]"@ + m.name + "\n\tcondition: "@ + spec_cond_string(
        m.condition,
    ) + "\n\tstatus: "@ + m.status + "\n"@
}

/// The compact form: condition first, then type, name and status on one
/// line, with seconds since the last refresh to one decimal, or `NEVER`.
pub open spec fn spec_compact_string(m: StatusModel, now: u64) -> Seq<char> {
    let upd: Seq<char> = match m.updated {
        Option::None => "NEVER"@,
        Option::Some(t) => {
            let el: int = if now >= t {
                now - t
            } else {
                0
            };
            spec_u64_string((el / 1000) as nat) + seq!['.'] + seq![
                spec_digit_char(((el % 1000) / 100) as nat),
            ]
        },
    };
    "["@ + spec_cond_string(m.condition) + "]"@ + m.device_type + seq!['-'] + m.name + seq!['*']
        + m.status + " UPD: "@ + upd
}

impl DeviceStatus {
    /// A placeholder snapshot for a device that has never been read.
    pub fn quick_unknown(name: &str, device_type: &str) -> (r: DeviceStatus)
        ensures
            r@ == (StatusModel {
                device_type: device_type@,
                name: name@,
                condition: CondModel::Unknown,
                status: "UNKNOWN"@,
                updated: Option::None,
            }),
    {
        DeviceStatus {
            device_type: device_type.to_owned(),
            name: name.to_owned(),
            condition: DeviceCondition::Unknown,
            status: String::from_str("UNKNOWN"),
            updated: None,
        }
    }

    /// The long rendering of this snapshot, as room summaries embed it.
    pub fn as_string(&self) -> (r: String)
        ensures
            r@ == spec_status_string(self@),
    {
        let mut s = String::from_str("[");
        let upper = to_uppercase(self.device_type.as_str());
        s.append(upper.as_str());
        s.append("]");
        s.append(self.name.as_str());
        s.append("\n\tcondition: ");
        let cond = self.condition.as_string();
        s.append(cond.as_str());
        s.append("\n\tstatus: ");
        s.append(self.status.as_str());
        s.append("\n");
        s
    }

    /// The compact rendering of this snapshot; `now` is the current
    /// time in milliseconds, to age the last refresh.
    pub fn as_compact_string(&self, now: u64) -> (r: String)
        ensures
            r@ == spec_compact_string(self@, now),
    {
        let mut s = String::from_str("[");
        let cond = self.condition.as_string();
        s.append(cond.as_str());
        s.append("]");
        s.append(self.device_type.as_str());
        s.append("-");
        s.append(self.name.as_str());
        s.append("*");
        s.append(self.status.as_str());
        s.append(" UPD: ");
        match self.updated {
            None => {
                s.append("NEVER");
            },
            Some(t) => {
                let el: u64 = if now >= t {
                    now - t
                } else {
                    0
                };
                let secs = u64_string(el / 1000);
                s.append(secs.as_str());
                s.append(".");
                s.append(digit_str((el % 1000) / 100));
            },
        }
        proof {
            reveal_strlit("-");
            reveal_strlit("*");
            reveal_strlit(".");
            assert(s@ =~= spec_compact_string(self@, now));
        }
        s
    }
}

/// Anything the room layer can read a status snapshot from.
pub trait Device {
    /// The snapshot this device would report now.
    spec fn status_model(&self) -> StatusModel;

    /// A point-in-time status snapshot; never fails.
    fn get_status(&self) -> (r: DeviceStatus)
        ensures
            r@ == self.status_model(),
    ;
}

/// What a transport hands back from one round trip: the reply text, or
/// the description of a connection/timeout failure.
pub enum FetchOutcome {
    Reply(String),
    TransportFailed(String),
}

/// Why a device write (an action) failed.
#[derive(Debug)]
pub enum DeviceUpdateError {
    /// A well-formed response of the wrong shape for the action.
    UnexpectedResponse(Response),
    /// A transport or decode failure; the round trip itself broke down.
    UnknownError(String),
}

impl DeviceUpdateError {
    /// The failure as text.
    pub fn as_string(&self) -> (r: String)
        ensures
            match self {
                DeviceUpdateError::UnexpectedResponse(_) => r@ == "unexpected response"@,
                DeviceUpdateError::UnknownError(m) => r@ == "unknown error: "@ + m@,
            },
    {
        match self {
            DeviceUpdateError::UnexpectedResponse(_) => String::from_str("unexpected response"),
            DeviceUpdateError::UnknownError(m) => {
                let mut s = String::from_str("unknown error: ");
                s.append(m.as_str());
                s
            },
        }
    }
}

/// Why a device read failed.
#[derive(Debug)]
pub enum DeviceReadError {
    /// A well-formed response of the wrong shape for the read.
    UnexpectedResponse(Response),
    /// The server answered with an application-level error.
    ErrMakingRequest(String),
    /// A transport or decode failure; the round trip itself broke down.
    UnknownError(String),
}

impl DeviceReadError {
    /// The failure as text.
    pub fn as_string(&self) -> (r: String)
        ensures
            match self {
                DeviceReadError::UnexpectedResponse(_) => r@ == "unexpected response"@,
                DeviceReadError::ErrMakingRequest(m) => r@ == "err making request: "@ + m@,
                DeviceReadError::UnknownError(m) => r@ == "unknown error: "@ + m@,
            },
    {
        match self {
            DeviceReadError::UnexpectedResponse(_) => String::from_str("unexpected response"),
            DeviceReadError::ErrMakingRequest(m) => {
                let mut s = String::from_str("err making request: ");
                s.append(m.as_str());
                s
            },
            DeviceReadError::UnknownError(m) => {
                let mut s = String::from_str("unknown error: ");
                s.append(m.as_str());
                s
            },
        }
    }
}

/// The outcome of a device write: nothing, or the failure description.
pub struct DeviceUpdateResult {
    pub err: Option<String>,
}

impl DeviceUpdateResult {
    pub fn new(err: Option<String>) -> (r: DeviceUpdateResult)
        ensures
            r.err == err,
    {
        DeviceUpdateResult { err }
    }
}

} // verus!
