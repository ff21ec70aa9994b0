//! The device server's authoritative state and its request handling:
//! one request in, one response out, a possible state change, and a
//! flag that tells the serving loop to stop. The background drift tick
//! lives here too; only the listening sockets stay outside.

use crate::proto::{
    spec_decode_device_request, spec_device_request_wire, spec_response_wire, DeviceAction,
    DeviceRequest, Response, ResponseModel,
};
use vstd::prelude::*;

verus! {

/// Which device a server simulates; the kinds answer different reads.
#[derive(Clone, Copy, Debug, PartialEq, Eq, Structural)]
pub enum DeviceKind {
    PowerSocket,
    Thermometer,
}

/// The authoritative state of one device server. `value` holds the
/// power draw or the temperature, in thousandths of a unit.
#[derive(Clone, Copy, Debug, PartialEq, Eq, Structural)]
pub struct ServerState {
    pub is_on: bool,
    pub value: i64,
}

/// The dispatch table: what one request does to the state, what it
/// answers, and whether the server stops accepting work afterwards.
/// `Exit` stops either server kind after acknowledging; a read the kind
/// does not support is answered with an error naming the request.
pub open spec fn spec_dispatch(s: ServerState, kind: DeviceKind, req: DeviceRequest) -> (
    ServerState,
    ResponseModel,
    bool,
) {
    match req {
        DeviceRequest::Ping => (s, ResponseModel::Pong, false),
        DeviceRequest::Status => (s, ResponseModel::Status(s.is_on), false),
        DeviceRequest::DeviceAction { method: DeviceAction::TurnOn } => (
            ServerState { is_on: true, ..s },
            ResponseModel::Accepted,
            false,
        ),
        DeviceRequest::DeviceAction { method: DeviceAction::TurnOff } => (
            ServerState { is_on: false, ..s },
            ResponseModel::Accepted,
            false,
        ),
        DeviceRequest::GetPower => if kind == DeviceKind::PowerSocket {
            (s, ResponseModel::Power(s.value), false)
        } else {
            (s, ResponseModel::Error("bad request: "@ + spec_device_request_wire(req)), false)
        },
        DeviceRequest::GetTemperature => if kind == DeviceKind::Thermometer {
            (s, ResponseModel::Temperature(s.value), false)
        } else {
            (s, ResponseModel::Error("bad request: "@ + spec_device_request_wire(req)), false)
        },
        DeviceRequest::Exit => (s, ResponseModel::Accepted, true),
    }
}

/// The sum clamped into `i64` range: the drift never wraps around.
pub open spec fn spec_sat_add(a: i64, d: i64) -> i64 {
    if a + d > i64::MAX {
        i64::MAX
    } else if a + d < i64::MIN {
        i64::MIN
    } else {
        (a + d) as i64
    }
}

/// The half-open range a drift tick draws its delta from, in
/// thousandths: a power draw wanders both ways, a temperature creeps up.
pub open spec fn spec_drift_bounds(kind: DeviceKind) -> (i64, i64) {
    match kind {
        DeviceKind::PowerSocket => (-2000int as i64, 2000int as i64),
        DeviceKind::Thermometer => (5int as i64, 50int as i64),
    }
}

/// Relies on rand's `Rng::gen_range` over a `thread_rng`: a sample from
/// a non-empty half-open range lies in that range; the call panics only
/// on an empty range, which the precondition rules out.
#[verifier::external_body]
fn random_in(lo: i64, hi: i64) -> (r: i64)
    requires
        lo < hi,
    ensures
        lo <= r < hi,
{
    rand::Rng::gen_range(&mut rand::thread_rng(), lo..hi)
}

fn sat_add(a: i64, d: i64) -> (r: i64)
    ensures
        r == spec_sat_add(a, d),
{
    if d >= 0 {
        if a > i64::MAX - d {
            i64::MAX
        } else {
            a + d
        }
    } else {
        if a < i64::MIN - d {
            i64::MIN
        } else {
            a + d
        }
    }
}

impl ServerState {
    /// The state a server starts from: a power socket is off, a
    /// thermometer is running; both hold twenty units.
    pub fn new(kind: DeviceKind) -> (r: ServerState)
        ensures
            r == (ServerState {
                is_on: kind is Thermometer,
                value: 20_000,
            }),
    {
        match kind {
            DeviceKind::PowerSocket => ServerState { is_on: false, value: 20_000 },
            DeviceKind::Thermometer => ServerState { is_on: true, value: 20_000 },
        }
    }

    /// Answers one decoded request, exactly as the dispatch table says.
    pub fn handle_request(&mut self, kind: DeviceKind, req: &DeviceRequest) -> (r: (Response, bool))
        ensures
            ({
                let (s2, resp, exit) = spec_dispatch(*old(self), kind, *req);
                *final(self) == s2 && r.0@ == resp && r.1 == exit
            }),
    {
        match req {
            DeviceRequest::Ping => (Response::Pong, false),
            DeviceRequest::Status => (Response::Status(self.is_on), false),
            DeviceRequest::DeviceAction { method: DeviceAction::TurnOn } => {
                self.is_on = true;
                (Response::Accepted, false)
            },
            DeviceRequest::DeviceAction { method: DeviceAction::TurnOff } => {
                self.is_on = false;
                (Response::Accepted, false)
            },
            DeviceRequest::GetPower => {
                if matches!(kind, DeviceKind::PowerSocket) {
                    (Response::Power(self.value), false)
                } else {
                    (Self::bad_request(req), false)
                }
            },
            DeviceRequest::GetTemperature => {
                if matches!(kind, DeviceKind::Thermometer) {
                    (Response::Temperature(self.value), false)
                } else {
                    (Self::bad_request(req), false)
                }
            },
            DeviceRequest::Exit => (Response::Accepted, true),
        }
    }

    /// The error response for a request this kind does not serve; the
    /// message names the offending request.
    fn bad_request(req: &DeviceRequest) -> (r: Response)
        ensures
            r@ == ResponseModel::Error("bad request: "@ + spec_device_request_wire(*req)),
    {
        let mut m = String::from_str("bad request: ");
        let wire = req.marshal();
        m.append(wire.as_str());
        Response::Error(m)
    }

    /// Serves one wire message: decode, dispatch, encode. Malformed
    /// input never stops the server: it degrades to an encoded error
    /// response naming the text, with the state untouched.
    pub fn handle_text(&mut self, kind: DeviceKind, text: &str) -> (r: (String, bool))
        ensures
            match spec_decode_device_request(text@) {
                Option::Some(req) => ({
                    let (s2, resp, exit) = spec_dispatch(*old(self), kind, req);
                    *final(self) == s2 && r.0@ == spec_response_wire(resp) && r.1 == exit
                }),
                Option::None => *final(self) == *old(self) && r.0@ == spec_response_wire(
                    ResponseModel::Error("err unmarshalling device request: "@ + text@),
                ) && r.1 == false,
            },
    {
        match DeviceRequest::unmarshal(text) {
            Ok(req) => {
                let (resp, exit) = self.handle_request(kind, &req);
                (resp.marshal(), exit)
            },
            Err(_) => {
                let mut m = String::from_str("err unmarshalling device request: ");
                m.append(text);
                let reply = Response::Error(m).marshal();
                (reply, false)
            },
        }
    }

    /// One tick of the background drift generator: the value moves by a
    /// random bounded delta, clamped at the ends of the range; the
    /// on/off flag never moves.
    pub fn drift(&mut self, kind: DeviceKind)
        ensures
            final(self).is_on == old(self).is_on,
            exists|d: i64|
                spec_drift_bounds(kind).0 <= d < spec_drift_bounds(kind).1 && final(self).value
                    == spec_sat_add(old(self).value, d),
    {
        let d = match kind {
            DeviceKind::PowerSocket => random_in(-2000, 2000),
            DeviceKind::Thermometer => random_in(5, 50),
        };
        self.value = sat_add(self.value, d);
        proof {
            assert(spec_drift_bounds(kind).0 <= d < spec_drift_bounds(kind).1);
        }
    }
}

/// Law: a turn-on acknowledged and then a turn-off acknowledged leave
/// the switch off on both sides of the wire — the server's state after
/// the two dispatches, and the mirror after confirming both writes.
pub proof fn lemma_set_on_then_off(
    s: ServerState,
    kind: DeviceKind,
    m: crate::devices::power_socket::PowerSocketModel,
)
    ensures
        ({
            let on = DeviceRequest::DeviceAction { method: DeviceAction::TurnOn };
            let off = DeviceRequest::DeviceAction { method: DeviceAction::TurnOff };
            let (s1, r1, e1) = spec_dispatch(s, kind, on);
            let (s2, r2, e2) = spec_dispatch(s1, kind, off);
            r1 == ResponseModel::Accepted && r2 == ResponseModel::Accepted && s2.is_on == false
                && s2.value == s.value && !e1 && !e2
        }),
        crate::devices::power_socket::spec_set_local(
            crate::devices::power_socket::spec_set_local(m, true),
            false,
        ).is_on == false,
{
}

/// Law: a request the device kind does not serve is answered with an
/// error that names the request, the state stands, and the server keeps
/// serving.
pub proof fn lemma_unsupported_request_degrades(s: ServerState)
    ensures
        spec_dispatch(s, DeviceKind::Thermometer, DeviceRequest::GetPower) == (
            s,
            ResponseModel::Error(
                "bad request: "@ + spec_device_request_wire(DeviceRequest::GetPower),
            ),
            false,
        ),
        spec_dispatch(s, DeviceKind::PowerSocket, DeviceRequest::GetTemperature) == (
            s,
            ResponseModel::Error(
                "bad request: "@ + spec_device_request_wire(DeviceRequest::GetTemperature),
            ),
            false,
        ),
{
}

} // verus!
