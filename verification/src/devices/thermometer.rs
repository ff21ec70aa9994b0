//! The client-side mirror of a remote thermometer: a local copy of the
//! last temperature, refreshed only when stale. The transport runs
//! outside; this module decides when a round trip is needed and how its
//! outcome changes the mirror.

use crate::devices::{
    spec_needs_update, CondModel, Device, DeviceCondition, DeviceReadError, DeviceStatus,
    FetchOutcome, StatusModel,
};
use crate::numeral::{milli_string, spec_milli_string};
use crate::proto::{spec_decode_response, DeviceRequest, Response, ResponseModel};
use vstd::prelude::*;

verus! {

/// The mirror of one thermometer. `temp` holds thousandths of a degree;
/// an empty `dsn` means a purely local device with no server behind it.
pub struct Thermometer {
    name: String,
    dsn: String,
    temp: i64,
    condition: DeviceCondition,
    last_updated: Option<u64>,
}

/// The mathematical shape of a `Thermometer` mirror.
pub struct ThermometerModel {
    pub name: Seq<char>,
    pub dsn: Seq<char>,
    pub temp: i64,
    pub condition: CondModel,
    pub last_updated: Option<u64>,
}

impl View for Thermometer {
    type V = ThermometerModel;

    closed spec fn view(&self) -> ThermometerModel {
        ThermometerModel {
            name: self.name@,
            dsn: self.dsn@,
            temp: self.temp,
            condition: self.condition@,
            last_updated: self.last_updated,
        }
    }
}

/// Whether a read must go to the server: only a remote mirror goes
/// stale; a local one is its own source of truth.
pub open spec fn spec_temp_fetch_needed(m: ThermometerModel, now: u64) -> bool {
    m.dsn.len() > 0 && spec_needs_update(m.last_updated, now)
}

/// A completed refresh: the value, the timestamp, and a healthy
/// condition move together; nothing else does.
pub open spec fn spec_after_temp_refresh(m: ThermometerModel, v: i64, now: u64) -> ThermometerModel {
    ThermometerModel {
        temp: v,
        last_updated: Option::Some(now),
        condition: CondModel::Good,
        ..m
    }
}

impl Thermometer {
    /// A fresh mirror: zero degrees, never refreshed. A local device is
    /// healthy from the start; a remote one is unknown until refreshed.
    pub fn new(name: &str, dsn: &str) -> (r: Self)
        ensures
            r@ == (ThermometerModel {
                name: name@,
                dsn: dsn@,
                temp: 0,
                condition: if dsn@.len() == 0 {
                    CondModel::Good
                } else {
                    CondModel::Unknown
                },
                last_updated: Option::None,
            }),
    {
        Self {
            name: name.to_owned(),
            dsn: dsn.to_owned(),
            temp: 0,
            condition: if dsn.is_empty() {
                DeviceCondition::Good
            } else {
                DeviceCondition::Unknown
            },
            last_updated: None,
        }
    }

    /// The server address this mirror is bound to; empty for a purely
    /// local device. Transports read it to place the round trip.
    pub fn dsn_str(&self) -> (r: &str)
        ensures
            r@ == self@.dsn,
    {
        self.dsn.as_str()
    }

    /// The request a read must send now: `GetTemperature` when the
    /// mirror is remote and stale, nothing when the cache still answers.
    pub fn temp_read_request(&self, now: u64) -> (r: Option<DeviceRequest>)
        ensures
            r == if spec_temp_fetch_needed(self@, now) {
                Option::Some(DeviceRequest::GetTemperature)
            } else {
                Option::None::<DeviceRequest>
            },
    {
        if !self.dsn.as_str().is_empty() && crate::devices::device_needs_update(
            self.last_updated,
            now,
        ) {
            Some(DeviceRequest::GetTemperature)
        } else {
            None
        }
    }

    /// Reads the temperature. `fetched` is the transport's outcome for
    /// the request `temp_read_request` asked for, and must be present
    /// exactly when one was asked for. A fresh or local cache answers
    /// unchanged; a decoded value refreshes the mirror; every failure
    /// returns a typed error and records the condition, and never
    /// substitutes a stale value.
    pub fn get_temp(&mut self, now: u64, fetched: Option<FetchOutcome>) -> (r: Result<
        i64,
        DeviceReadError,
    >)
        requires
            fetched.is_some() == spec_temp_fetch_needed(old(self)@, now),
        ensures
            match fetched {
                Option::None => final(self)@ == old(self)@ && (r matches Ok(v) && v == old(
                    self,
                )@.temp),
                Option::Some(FetchOutcome::TransportFailed(e)) => final(self)@ == old(self)@ && (
                r matches Err(DeviceReadError::UnknownError(m)) && m@ == e@),
                Option::Some(FetchOutcome::Reply(text)) => match spec_decode_response(text@) {
                    Option::Some(ResponseModel::Temperature(v)) => final(self)@
                        == spec_after_temp_refresh(old(self)@, v, now) && (r matches Ok(w) && w
                        == v),
                    Option::Some(ResponseModel::Error(msg)) => final(self)@ == (ThermometerModel {
                        condition: CondModel::Error(msg),
                        ..old(self)@
                    }) && (r matches Err(DeviceReadError::ErrMakingRequest(m)) && m@ == msg),
                    Option::Some(other) => final(self)@ == (ThermometerModel {
                        condition: CondModel::Unknown,
                        ..old(self)@
                    }) && (r matches Err(DeviceReadError::UnexpectedResponse(resp)) && resp@
                        == other),
                    Option::None => final(self)@ == (ThermometerModel {
                        condition: CondModel::Unknown,
                        ..old(self)@
                    }) && (r matches Err(DeviceReadError::UnknownError(m)) && m@
                        == "err unmarshalling response: "@ + text@),
                },
            },
    {
        match fetched {
            None => Ok(self.temp),
            Some(FetchOutcome::TransportFailed(e)) => Err(DeviceReadError::UnknownError(e)),
            Some(FetchOutcome::Reply(text)) => {
                match Response::unmarshal(text.as_str()) {
                    Ok(Response::Temperature(v)) => {
                        self.temp = v;
                        self.last_updated = Some(now);
                        self.condition = DeviceCondition::Good;
                        Ok(v)
                    },
                    Ok(Response::Error(msg)) => {
                        let m = msg.clone();
                        self.condition = DeviceCondition::Error(msg);
                        Err(DeviceReadError::ErrMakingRequest(m))
                    },
                    Ok(resp) => {
                        self.condition = DeviceCondition::Unknown;
                        Err(DeviceReadError::UnexpectedResponse(resp))
                    },
                    Err(_) => {
                        self.condition = DeviceCondition::Unknown;
                        let mut m = String::from_str("err unmarshalling response: ");
                        m.append(text.as_str());
                        Err(DeviceReadError::UnknownError(m))
                    },
                }
            },
        }
    }
}

/// The snapshot a thermometer mirror reports: its stored fields, with
/// the temperature rendered into the status line.
pub open spec fn spec_thermometer_status(m: ThermometerModel) -> StatusModel {
    StatusModel {
        device_type: "THRM"@,
        name: m.name,
        condition: m.condition,
        status: "temperature: "@ + spec_milli_string(m.temp),
        updated: m.last_updated,
    }
}

impl Device for Thermometer {
    open spec fn status_model(&self) -> StatusModel {
        spec_thermometer_status(self@)
    }

    fn get_status(&self) -> (r: DeviceStatus) {
        let mut status = String::from_str("temperature: ");
        let rendered = milli_string(self.temp);
        status.append(rendered.as_str());
        DeviceStatus {
            device_type: String::from_str("THRM"),
            name: self.name.clone(),
            condition: self.condition.clone(),
            status,
            updated: self.last_updated,
        }
    }
}

/// Law: a thermometer with an empty server address never performs a
/// round trip, whatever the time of the read.
pub proof fn lemma_local_thermometer_never_fetches(m: ThermometerModel, now: u64)
    requires
        m.dsn.len() == 0,
    ensures
        !spec_temp_fetch_needed(m, now),
{
}

/// Law: after a successful refresh at time `t`, every read up to the
/// staleness window's edge asks for no round trip and sees the
/// refreshed temperature unchanged.
pub proof fn lemma_temp_reads_within_window_cached(m: ThermometerModel, v: i64, t: u64, now: u64)
    requires
        now <= t + crate::devices::UPDATE_INTERVAL_MS,
    ensures
        !spec_temp_fetch_needed(spec_after_temp_refresh(m, v, t), now),
        spec_after_temp_refresh(m, v, t).temp == v,
{
}

/// Law: refresh completions land one at a time (the mirror's lock
/// forces a sequence), and the mirror then holds exactly what the last
/// completion wrote.
pub proof fn lemma_temp_refresh_last_wins(m: ThermometerModel, v1: i64, t1: u64, v2: i64, t2: u64)
    ensures
        spec_after_temp_refresh(spec_after_temp_refresh(m, v1, t1), v2, t2)
            == spec_after_temp_refresh(m, v2, t2),
{
}

} // verus!
