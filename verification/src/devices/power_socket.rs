//! The client-side mirror of a remote power socket: a local copy of the
//! socket's state, written only by confirmed actions and refreshes. The
//! transport runs outside; this module decides when a round trip is
//! needed and how its outcome changes the mirror.

use crate::devices::{
    spec_needs_update, CondModel, Device, DeviceCondition, DeviceReadError, DeviceStatus,
    DeviceUpdateResult, FetchOutcome, StatusModel,
};
use crate::numeral::{milli_string, spec_milli_string};
use crate::proto::{spec_decode_response, DeviceAction, DeviceRequest, Response, ResponseModel};
use vstd::prelude::*;

verus! {

/// The mirror of one power socket. `power` holds thousandths of a watt;
/// an empty `dsn` means a purely local device with no server behind it.
pub struct PowerSocket {
    name: String,
    dsn: String,
    power: i64,
    is_on: bool,
    condition: DeviceCondition,
    last_updated: Option<u64>,
}

/// The mathematical shape of a `PowerSocket` mirror.
pub struct PowerSocketModel {
    pub name: Seq<char>,
    pub dsn: Seq<char>,
    pub power: i64,
    pub is_on: bool,
    pub condition: CondModel,
    pub last_updated: Option<u64>,
}

impl View for PowerSocket {
    type V = PowerSocketModel;

    closed spec fn view(&self) -> PowerSocketModel {
        PowerSocketModel {
            name: self.name@,
            dsn: self.dsn@,
            power: self.power,
            is_on: self.is_on,
            condition: self.condition@,
            last_updated: self.last_updated,
        }
    }
}

/// Whether a read must go to the server: only a remote mirror goes
/// stale; a local one is its own source of truth.
pub open spec fn spec_fetch_needed(m: PowerSocketModel, now: u64) -> bool {
    m.dsn.len() > 0 && spec_needs_update(m.last_updated, now)
}

/// A local write: only the on/off flag moves.
pub open spec fn spec_set_local(m: PowerSocketModel, state: bool) -> PowerSocketModel {
    PowerSocketModel { is_on: state, ..m }
}

/// A completed refresh: the value, the timestamp, and a healthy
/// condition move together; nothing else does.
pub open spec fn spec_after_power_refresh(m: PowerSocketModel, v: i64, now: u64) -> PowerSocketModel {
    PowerSocketModel {
        power: v,
        last_updated: Option::Some(now),
        condition: CondModel::Good,
        ..m
    }
}

impl PowerSocket {
    /// A fresh mirror: off, no draw, never refreshed. A local device is
    /// healthy from the start; a remote one is unknown until refreshed.
    pub fn new(name: &str, dsn: &str) -> (r: Self)
        ensures
            r@ == (PowerSocketModel {
                name: name@,
                dsn: dsn@,
                power: 0,
                is_on: false,
                condition: if dsn@.len() == 0 {
                    CondModel::Good
                } else {
                    CondModel::Unknown
                },
                last_updated: Option::None,
            }),
    {
        let condition = if dsn.is_empty() {
            DeviceCondition::Good
        } else {
            DeviceCondition::Unknown
        };
        Self {
            name: name.to_owned(),
            dsn: dsn.to_owned(),
            power: 0,
            is_on: false,
            last_updated: None,
            condition,
        }
    }

    /// The server address this mirror is bound to; empty for a purely
    /// local device. Transports read it to place the round trip.
    pub fn dsn_str(&self) -> (r: &str)
        ensures
            r@ == self@.dsn,
    {
        self.dsn.as_str()
    }

    /// Begins a write of the on/off flag. On a local device the flag
    /// moves at once and nothing more is needed; on a remote device the
    /// mirror stays untouched and the action to send comes back, to be
    /// confirmed through `confirm_set_power`.
    pub fn set_power(&mut self, state: bool) -> (r: Option<DeviceRequest>)
        ensures
            old(self)@.dsn.len() == 0 ==> final(self)@ == spec_set_local(old(self)@, state) && r
                is None,
            old(self)@.dsn.len() > 0 ==> final(self)@ == old(self)@ && r == Option::Some(
                DeviceRequest::DeviceAction {
                    method: if state {
                        DeviceAction::TurnOn
                    } else {
                        DeviceAction::TurnOff
                    },
                },
            ),
    {
        if self.dsn.as_str().is_empty() {
            self.is_on = state;
            return None;
        }
        let method = if state {
            DeviceAction::TurnOn
        } else {
            DeviceAction::TurnOff
        };
        Some(DeviceRequest::DeviceAction { method })
    }

    /// Begins turning the socket on; see `set_power`.
    pub fn power_on(&mut self) -> (r: Option<DeviceRequest>)
        ensures
            old(self)@.dsn.len() == 0 ==> final(self)@ == spec_set_local(old(self)@, true) && r
                is None,
            old(self)@.dsn.len() > 0 ==> final(self)@ == old(self)@ && r == Option::Some(
                DeviceRequest::DeviceAction { method: DeviceAction::TurnOn },
            ),
    {
        self.set_power(true)
    }

    /// Begins turning the socket off; see `set_power`.
    pub fn power_off(&mut self) -> (r: Option<DeviceRequest>)
        ensures
            old(self)@.dsn.len() == 0 ==> final(self)@ == spec_set_local(old(self)@, false) && r
                is None,
            old(self)@.dsn.len() > 0 ==> final(self)@ == old(self)@ && r == Option::Some(
                DeviceRequest::DeviceAction { method: DeviceAction::TurnOff },
            ),
    {
        self.set_power(false)
    }

    /// Completes a remote write with what the transport brought back.
    /// Only a decoded `Ok` moves the mirror's flag: the mirror never
    /// reflects an action the server has not confirmed.
    pub fn confirm_set_power(&mut self, state: bool, outcome: FetchOutcome) -> (r:
        DeviceUpdateResult)
        ensures
            match outcome {
                FetchOutcome::TransportFailed(e) => final(self)@ == old(self)@ && (r.err matches
                Some(m) && m@ == e@),
                FetchOutcome::Reply(text) => match spec_decode_response(text@) {
                    Option::Some(ResponseModel::Accepted) => final(self)@ == spec_set_local(
                        old(self)@,
                        state,
                    ) && r.err is None,
                    Option::Some(_) => final(self)@ == old(self)@ && (r.err matches Some(m) && m@
                        == "unexpected response: "@ + text@),
                    Option::None => final(self)@ == old(self)@ && (r.err matches Some(m) && m@
                        == "err unmarshalling response: "@ + text@),
                },
            },
    {
        match outcome {
            FetchOutcome::TransportFailed(e) => DeviceUpdateResult::new(Some(e)),
            FetchOutcome::Reply(text) => {
                match Response::unmarshal(text.as_str()) {
                    Ok(Response::Accepted) => {
                        self.is_on = state;
                        DeviceUpdateResult::new(None)
                    },
                    Ok(_) => {
                        let mut m = String::from_str("unexpected response: ");
                        m.append(text.as_str());
                        DeviceUpdateResult::new(Some(m))
                    },
                    Err(_) => {
                        let mut m = String::from_str("err unmarshalling response: ");
                        m.append(text.as_str());
                        DeviceUpdateResult::new(Some(m))
                    },
                }
            },
        }
    }

    /// The request a read must send now: `GetPower` when the mirror is
    /// remote and stale, nothing when the cache still answers.
    pub fn power_read_request(&self, now: u64) -> (r: Option<DeviceRequest>)
        ensures
            r == if spec_fetch_needed(self@, now) {
                Option::Some(DeviceRequest::GetPower)
            } else {
                Option::None::<DeviceRequest>
            },
    {
        if !self.dsn.as_str().is_empty() && crate::devices::device_needs_update(self.last_updated, now) {
            Some(DeviceRequest::GetPower)
        } else {
            None
        }
    }

    /// Reads the power draw. `fetched` is the transport's outcome for
    /// the request `power_read_request` asked for, and must be present
    /// exactly when one was asked for. A fresh or local cache answers
    /// unchanged; a decoded value refreshes the mirror; every failure
    /// returns a typed error and records the condition, and never
    /// substitutes a stale value.
    pub fn get_power_consumption(&mut self, now: u64, fetched: Option<FetchOutcome>) -> (r: Result<
        i64,
        DeviceReadError,
    >)
        requires
            fetched.is_some() == spec_fetch_needed(old(self)@, now),
        ensures
            match fetched {
                Option::None => final(self)@ == old(self)@ && (r matches Ok(v) && v == old(
                    self,
                )@.power),
                Option::Some(FetchOutcome::TransportFailed(e)) => final(self)@ == old(self)@ && (
                r matches Err(DeviceReadError::UnknownError(m)) && m@ == e@),
                Option::Some(FetchOutcome::Reply(text)) => match spec_decode_response(text@) {
                    Option::Some(ResponseModel::Power(v)) => final(self)@
                        == spec_after_power_refresh(old(self)@, v, now) && (r matches Ok(w) && w
                        == v),
                    Option::Some(ResponseModel::Error(msg)) => final(self)@ == (PowerSocketModel {
                        condition: CondModel::Error(msg),
                        ..old(self)@
                    }) && (r matches Err(DeviceReadError::ErrMakingRequest(m)) && m@ == msg),
                    Option::Some(other) => final(self)@ == (PowerSocketModel {
                        condition: CondModel::Unknown,
                        ..old(self)@
                    }) && (r matches Err(DeviceReadError::UnexpectedResponse(resp)) && resp@
                        == other),
                    Option::None => final(self)@ == (PowerSocketModel {
                        condition: CondModel::Unknown,
                        ..old(self)@
                    }) && (r matches Err(DeviceReadError::UnknownError(m)) && m@
                        == "err unmarshalling response: "@ + text@),
                },
            },
    {
        match fetched {
            None => Ok(self.power),
            Some(FetchOutcome::TransportFailed(e)) => Err(DeviceReadError::UnknownError(e)),
            Some(FetchOutcome::Reply(text)) => {
                match Response::unmarshal(text.as_str()) {
                    Ok(Response::Power(v)) => {
                        self.power = v;
                        self.last_updated = Some(now);
                        self.condition = DeviceCondition::Good;
                        Ok(v)
                    },
                    Ok(Response::Error(msg)) => {
                        let m = msg.clone();
                        self.condition = DeviceCondition::Error(msg);
                        Err(DeviceReadError::ErrMakingRequest(m))
                    },
                    Ok(resp) => {
                        self.condition = DeviceCondition::Unknown;
                        Err(DeviceReadError::UnexpectedResponse(resp))
                    },
                    Err(_) => {
                        self.condition = DeviceCondition::Unknown;
                        let mut m = String::from_str("err unmarshalling response: ");
                        m.append(text.as_str());
                        Err(DeviceReadError::UnknownError(m))
                    },
                }
            },
        }
    }
}

/// The snapshot a power socket mirror reports: its stored fields, with
/// the power draw rendered into the status line.
pub open spec fn spec_socket_status(m: PowerSocketModel) -> StatusModel {
    StatusModel {
        device_type: "PSOC"@,
        name: m.name,
        condition: m.condition,
        status: "power: "@ + spec_milli_string(m.power),
        updated: m.last_updated,
    }
}

impl Device for PowerSocket {
    open spec fn status_model(&self) -> StatusModel {
        spec_socket_status(self@)
    }

    fn get_status(&self) -> (r: DeviceStatus) {
        let mut status = String::from_str("power: ");
        let rendered = milli_string(self.power);
        status.append(rendered.as_str());
        DeviceStatus {
            device_type: String::from_str("PSOC"),
            name: self.name.clone(),
            condition: self.condition.clone(),
            status,
            updated: self.last_updated,
        }
    }
}

/// Law: a device with an empty server address never performs a round
/// trip — no read asks for a request, before or after local writes —
/// and a read sees exactly the value the last local write left behind.
pub proof fn lemma_local_device_never_fetches(m: PowerSocketModel, state: bool, now: u64)
    requires
        m.dsn.len() == 0,
    ensures
        !spec_fetch_needed(m, now),
        !spec_fetch_needed(spec_set_local(m, state), now),
        spec_set_local(m, state).is_on == state,
        spec_set_local(m, state).power == m.power,
{
}

/// Law: after a successful refresh at time `t`, every read up to the
/// staleness window's edge asks for no round trip and sees the
/// refreshed value unchanged. Two reads inside the window therefore
/// return the identical cached value and cost at most the one round
/// trip of the refresh itself.
pub proof fn lemma_reads_within_window_cached(m: PowerSocketModel, v: i64, t: u64, now: u64)
    requires
        now <= t + crate::devices::UPDATE_INTERVAL_MS,
    ensures
        !spec_fetch_needed(spec_after_power_refresh(m, v, t), now),
        spec_after_power_refresh(m, v, t).power == v,
{
}

/// Law: refresh completions land one at a time (the mirror's lock
/// forces a sequence), and the mirror then holds exactly what the last
/// completion wrote: value and timestamp of the later response, with
/// everything before it overwritten.
pub proof fn lemma_refresh_last_wins(m: PowerSocketModel, v1: i64, t1: u64, v2: i64, t2: u64)
    ensures
        spec_after_power_refresh(spec_after_power_refresh(m, v1, t1), v2, t2)
            == spec_after_power_refresh(m, v2, t2),
{
}

} // verus!
