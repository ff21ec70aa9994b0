//! The wire protocol shared by device servers and clients: tagged
//! request and response messages, their one-line textual encoding, and
//! a decoder that accepts exactly the encodings. Tags are stable
//! identifiers, so a message can cross a process boundary.

use crate::numeral::{i64_string, parse_i64, spec_i64_string, spec_parse_i64};
use crate::strutil::{spec_starts, str_eq, str_starts_with, str_tail};
use vstd::prelude::*;

verus! {

/// What a `DeviceAction` request asks the device to do.
#[derive(Clone, Copy, Debug, PartialEq, Eq, Structural)]
pub enum DeviceAction {
    TurnOn,
    TurnOff,
}

/// What a `HomeAction` request asks the home registry to do.
#[derive(Clone, Copy, Debug, PartialEq, Eq, Structural)]
pub enum HomeAction {
    AddRoom,
    RemoveRoom,
}

/// One request to a device server.
#[derive(Clone, Copy, Debug, PartialEq, Eq, Structural)]
pub enum DeviceRequest {
    Ping,
    Status,
    DeviceAction { method: DeviceAction },
    GetTemperature,
    GetPower,
    Exit,
}

/// One request to a home registry server.
#[derive(Clone, Debug)]
pub enum HomeRequest {
    Ping,
    Status,
    HomeAction { method: HomeAction, room_name: String },
}

/// One response from a device server. `Accepted` answers a completed
/// action (its wire tag is `Ok`); `Error` carries an application-level
/// failure (wire tag `Err`); the numeric payloads hold a fixed-point
/// value in thousandths of a unit.
#[derive(Clone, Debug)]
pub enum Response {
    Pong,
    Accepted,
    Error(String),
    Status(bool),
    Temperature(i64),
    Power(i64),
}

/// A malformed or unrecognized wire message. Distinct from a decoded
/// `Response::Error`: this means the text itself was not a message.
#[derive(Clone, Copy, Debug, PartialEq, Eq, Structural)]
pub struct DecodeError;

/// The mathematical shape of a `HomeRequest`: payload strings as
/// character sequences.
pub enum HomeRequestModel {
    Ping,
    Status,
    HomeAction { method: HomeAction, room_name: Seq<char> },
}

/// The mathematical shape of a `Response`.
pub enum ResponseModel {
    Pong,
    Accepted,
    Error(Seq<char>),
    Status(bool),
    Temperature(i64),
    Power(i64),
}

impl View for HomeRequest {
    type V = HomeRequestModel;

    open spec fn view(&self) -> HomeRequestModel {
        match self {
            HomeRequest::Ping => HomeRequestModel::Ping,
            HomeRequest::Status => HomeRequestModel::Status,
            HomeRequest::HomeAction { method, room_name } => HomeRequestModel::HomeAction {
                method: *method,
                room_name: room_name@,
            },
        }
    }
}

impl View for Response {
    type V = ResponseModel;

    open spec fn view(&self) -> ResponseModel {
        match self {
            Response::Pong => ResponseModel::Pong,
            Response::Accepted => ResponseModel::Accepted,
            Response::Error(m) => ResponseModel::Error(m@),
            Response::Status(b) => ResponseModel::Status(*b),
            Response::Temperature(v) => ResponseModel::Temperature(*v),
            Response::Power(v) => ResponseModel::Power(*v),
        }
    }
}

impl PartialEq for HomeRequest {
    fn eq(&self, other: &Self) -> (r: bool) {
        match (self, other) {
            (HomeRequest::Ping, HomeRequest::Ping) => true,
            (HomeRequest::Status, HomeRequest::Status) => true,
            (
                HomeRequest::HomeAction { method: m1, room_name: n1 },
                HomeRequest::HomeAction { method: m2, room_name: n2 },
            ) => *m1 == *m2 && *n1 == *n2,
            _ => false,
        }
    }
}

impl vstd::std_specs::cmp::PartialEqSpecImpl for HomeRequest {
    open spec fn obeys_eq_spec() -> bool {
        true
    }

    open spec fn eq_spec(&self, other: &Self) -> bool {
        self@ == other@
    }
}

impl PartialEq for Response {
    fn eq(&self, other: &Self) -> (r: bool) {
        match (self, other) {
            (Response::Pong, Response::Pong) => true,
            (Response::Accepted, Response::Accepted) => true,
            (Response::Error(a), Response::Error(b)) => *a == *b,
            (Response::Status(a), Response::Status(b)) => *a == *b,
            (Response::Temperature(a), Response::Temperature(b)) => *a == *b,
            (Response::Power(a), Response::Power(b)) => *a == *b,
            _ => false,
        }
    }
}

impl vstd::std_specs::cmp::PartialEqSpecImpl for Response {
    open spec fn obeys_eq_spec() -> bool {
        true
    }

    open spec fn eq_spec(&self, other: &Self) -> bool {
        self@ == other@
    }
}

/// The one-line encoding of a device request.
pub open spec fn spec_device_request_wire(r: DeviceRequest) -> Seq<char> {
    match r {
        DeviceRequest::Ping => "device_request=Ping"@,
        DeviceRequest::Status => "device_request=Status"@,
        DeviceRequest::DeviceAction { method: DeviceAction::TurnOn } => {
            "device_request=DeviceAction/TurnOn"@
        },
        DeviceRequest::DeviceAction { method: DeviceAction::TurnOff } => {
            "device_request=DeviceAction/TurnOff"@
        },
        DeviceRequest::GetTemperature => "device_request=GetTemperature"@,
        DeviceRequest::GetPower => "device_request=GetPower"@,
        DeviceRequest::Exit => "device_request=Exit"@,
    }
}

/// The one-line encoding of a home request; the room name rides after
/// the last tag and may hold any characters.
pub open spec fn spec_home_request_wire(m: HomeRequestModel) -> Seq<char> {
    match m {
        HomeRequestModel::Ping => "home_request=Ping"@,
        HomeRequestModel::Status => "home_request=Status"@,
        HomeRequestModel::HomeAction { method: HomeAction::AddRoom, room_name } => {
            "home_request=HomeAction/AddRoom/"@ + room_name
        },
        HomeRequestModel::HomeAction { method: HomeAction::RemoveRoom, room_name } => {
            "home_request=HomeAction/RemoveRoom/"@ + room_name
        },
    }
}

/// The one-line encoding of a response. The error message rides after
/// the last tag; numeric payloads are canonical decimal numerals.
pub open spec fn spec_response_wire(m: ResponseModel) -> Seq<char> {
    match m {
        ResponseModel::Pong => "response=Pong"@,
        ResponseModel::Accepted => "response=Ok"@,
        ResponseModel::Error(msg) => "response=Err/"@ + msg,
        ResponseModel::Status(b) => if b {
            "response=Status/true"@
        } else {
            "response=Status/false"@
        },
        ResponseModel::Temperature(v) => "response=Temperature/"@ + spec_i64_string(v),
        ResponseModel::Power(v) => "response=Power/"@ + spec_i64_string(v),
    }
}

/// What the decoder makes of a character sequence as a device request.
pub open spec fn spec_decode_device_request(s: Seq<char>) -> Option<DeviceRequest> {
    if s == spec_device_request_wire(DeviceRequest::Ping) {
        Option::Some(DeviceRequest::Ping)
    } else if s == spec_device_request_wire(DeviceRequest::Status) {
        Option::Some(DeviceRequest::Status)
    } else if s == spec_device_request_wire(
        DeviceRequest::DeviceAction { method: DeviceAction::TurnOn },
    ) {
        Option::Some(DeviceRequest::DeviceAction { method: DeviceAction::TurnOn })
    } else if s == spec_device_request_wire(
        DeviceRequest::DeviceAction { method: DeviceAction::TurnOff },
    ) {
        Option::Some(DeviceRequest::DeviceAction { method: DeviceAction::TurnOff })
    } else if s == spec_device_request_wire(DeviceRequest::GetTemperature) {
        Option::Some(DeviceRequest::GetTemperature)
    } else if s == spec_device_request_wire(DeviceRequest::GetPower) {
        Option::Some(DeviceRequest::GetPower)
    } else if s == spec_device_request_wire(DeviceRequest::Exit) {
        Option::Some(DeviceRequest::Exit)
    } else {
        Option::None
    }
}

/// What the decoder makes of a character sequence as a home request.
pub open spec fn spec_decode_home_request(s: Seq<char>) -> Option<HomeRequestModel> {
    if s == "home_request=Ping"@ {
        Option::Some(HomeRequestModel::Ping)
    } else if s == "home_request=Status"@ {
        Option::Some(HomeRequestModel::Status)
    } else if spec_starts(s, "home_request=HomeAction/AddRoom/"@) {
        Option::Some(
            HomeRequestModel::HomeAction {
                method: HomeAction::AddRoom,
                room_name: s.skip("home_request=HomeAction/AddRoom/"@.len() as int),
            },
        )
    } else if spec_starts(s, "home_request=HomeAction/RemoveRoom/"@) {
        Option::Some(
            HomeRequestModel::HomeAction {
                method: HomeAction::RemoveRoom,
                room_name: s.skip("home_request=HomeAction/RemoveRoom/"@.len() as int),
            },
        )
    } else {
        Option::None
    }
}

/// What the decoder makes of a character sequence as a response.
pub open spec fn spec_decode_response(s: Seq<char>) -> Option<ResponseModel> {
    if s == "response=Pong"@ {
        Option::Some(ResponseModel::Pong)
    } else if s == "response=Ok"@ {
        Option::Some(ResponseModel::Accepted)
    } else if s == "response=Status/true"@ {
        Option::Some(ResponseModel::Status(true))
    } else if s == "response=Status/false"@ {
        Option::Some(ResponseModel::Status(false))
    } else if spec_starts(s, "response=Err/"@) {
        Option::Some(ResponseModel::Error(s.skip("response=Err/"@.len() as int)))
    } else if spec_starts(s, "response=Temperature/"@) {
        match spec_parse_i64(s.skip("response=Temperature/"@.len() as int)) {
            Option::Some(v) => Option::Some(ResponseModel::Temperature(v)),
            Option::None => Option::None,
        }
    } else if spec_starts(s, "response=Power/"@) {
        match spec_parse_i64(s.skip("response=Power/"@.len() as int)) {
            Option::Some(v) => Option::Some(ResponseModel::Power(v)),
            Option::None => Option::None,
        }
    } else {
        Option::None
    }
}

impl DeviceRequest {
    /// Encodes the request for the wire. Encoding is total: every
    /// request has exactly one line of text.
    pub fn marshal(&self) -> (r: String)
        ensures
            r@ == spec_device_request_wire(*self),
    {
        match self {
            DeviceRequest::Ping => String::from_str("device_request=Ping"),
            DeviceRequest::Status => String::from_str("device_request=Status"),
            DeviceRequest::DeviceAction { method: DeviceAction::TurnOn } => String::from_str(
                "device_request=DeviceAction/TurnOn",
            ),
            DeviceRequest::DeviceAction { method: DeviceAction::TurnOff } => String::from_str(
                "device_request=DeviceAction/TurnOff",
            ),
            DeviceRequest::GetTemperature => String::from_str("device_request=GetTemperature"),
            DeviceRequest::GetPower => String::from_str("device_request=GetPower"),
            DeviceRequest::Exit => String::from_str("device_request=Exit"),
        }
    }

    /// Decodes one line of text; rejects everything that is not the
    /// encoding of a device request.
    pub fn unmarshal(s: &str) -> (r: Result<DeviceRequest, DecodeError>)
        ensures
            match r {
                Result::Ok(m) => spec_decode_device_request(s@) == Option::Some(m),
                Result::Err(_) => spec_decode_device_request(s@) is None,
            },
    {
        if str_eq(s, "device_request=Ping") {
            Ok(DeviceRequest::Ping)
        } else if str_eq(s, "device_request=Status") {
            Ok(DeviceRequest::Status)
        } else if str_eq(s, "device_request=DeviceAction/TurnOn") {
            Ok(DeviceRequest::DeviceAction { method: DeviceAction::TurnOn })
        } else if str_eq(s, "device_request=DeviceAction/TurnOff") {
            Ok(DeviceRequest::DeviceAction { method: DeviceAction::TurnOff })
        } else if str_eq(s, "device_request=GetTemperature") {
            Ok(DeviceRequest::GetTemperature)
        } else if str_eq(s, "device_request=GetPower") {
            Ok(DeviceRequest::GetPower)
        } else if str_eq(s, "device_request=Exit") {
            Ok(DeviceRequest::Exit)
        } else {
            Err(DecodeError)
        }
    }
}

impl HomeRequest {
    /// Encodes the request for the wire.
    pub fn marshal(&self) -> (r: String)
        ensures
            r@ == spec_home_request_wire(self@),
    {
        match self {
            HomeRequest::Ping => String::from_str("home_request=Ping"),
            HomeRequest::Status => String::from_str("home_request=Status"),
            HomeRequest::HomeAction { method, room_name } => {
                let mut s = match method {
                    HomeAction::AddRoom => String::from_str("home_request=HomeAction/AddRoom/"),
                    HomeAction::RemoveRoom => String::from_str(
                        "home_request=HomeAction/RemoveRoom/",
                    ),
                };
                s.append(room_name.as_str());
                s
            },
        }
    }

    /// Decodes one line of text; rejects everything that is not the
    /// encoding of a home request.
    pub fn unmarshal(s: &str) -> (r: Result<HomeRequest, DecodeError>)
        ensures
            match r {
                Result::Ok(m) => spec_decode_home_request(s@) == Option::Some(m@),
                Result::Err(_) => spec_decode_home_request(s@) is None,
            },
    {
        if str_eq(s, "home_request=Ping") {
            Ok(HomeRequest::Ping)
        } else if str_eq(s, "home_request=Status") {
            Ok(HomeRequest::Status)
        } else if str_starts_with(s, "home_request=HomeAction/AddRoom/") {
            let k = "home_request=HomeAction/AddRoom/".unicode_len();
            let room_name = str_tail(s, k);
            Ok(HomeRequest::HomeAction { method: HomeAction::AddRoom, room_name })
        } else if str_starts_with(s, "home_request=HomeAction/RemoveRoom/") {
            let k = "home_request=HomeAction/RemoveRoom/".unicode_len();
            let room_name = str_tail(s, k);
            Ok(HomeRequest::HomeAction { method: HomeAction::RemoveRoom, room_name })
        } else {
            Err(DecodeError)
        }
    }
}

impl Response {
    /// Encodes the response for the wire.
    pub fn marshal(&self) -> (r: String)
        ensures
            r@ == spec_response_wire(self@),
    {
        match self {
            Response::Pong => String::from_str("response=Pong"),
            Response::Accepted => String::from_str("response=Ok"),
            Response::Error(msg) => {
                let mut s = String::from_str("response=Err/");
                s.append(msg.as_str());
                s
            },
            Response::Status(b) => {
                if *b {
                    String::from_str("response=Status/true")
                } else {
                    String::from_str("response=Status/false")
                }
            },
            Response::Temperature(v) => {
                let mut s = String::from_str("response=Temperature/");
                let digits = i64_string(*v);
                s.append(digits.as_str());
                s
            },
            Response::Power(v) => {
                let mut s = String::from_str("response=Power/");
                let digits = i64_string(*v);
                s.append(digits.as_str());
                s
            },
        }
    }

    /// Decodes one line of text; rejects everything that is not the
    /// encoding of a response.
    pub fn unmarshal(s: &str) -> (r: Result<Response, DecodeError>)
        ensures
            match r {
                Result::Ok(m) => spec_decode_response(s@) == Option::Some(m@),
                Result::Err(_) => spec_decode_response(s@) is None,
            },
    {
        if str_eq(s, "response=Pong") {
            Ok(Response::Pong)
        } else if str_eq(s, "response=Ok") {
            Ok(Response::Accepted)
        } else if str_eq(s, "response=Status/true") {
            Ok(Response::Status(true))
        } else if str_eq(s, "response=Status/false") {
            Ok(Response::Status(false))
        } else if str_starts_with(s, "response=Err/") {
            let k = "response=Err/".unicode_len();
            let msg = str_tail(s, k);
            Ok(Response::Error(msg))
        } else if str_starts_with(s, "response=Temperature/") {
            let k = "response=Temperature/".unicode_len();
            let digits = str_tail(s, k);
            match parse_i64(digits.as_str()) {
                Some(v) => Ok(Response::Temperature(v)),
                None => Err(DecodeError),
            }
        } else if str_starts_with(s, "response=Power/") {
            let k = "response=Power/".unicode_len();
            let digits = str_tail(s, k);
            match parse_i64(digits.as_str()) {
                Some(v) => Ok(Response::Power(v)),
                None => Err(DecodeError),
            }
        } else {
            Err(DecodeError)
        }
    }
}

proof fn reveal_device_request_lits()
    ensures
        "device_request=Ping"@.len() == 19,
        "device_request=Status"@.len() == 21,
        "device_request=DeviceAction/TurnOn"@.len() == 34,
        "device_request=DeviceAction/TurnOff"@.len() == 35,
        "device_request=GetTemperature"@.len() == 29,
        "device_request=GetPower"@.len() == 23,
        "device_request=Exit"@.len() == 19,
        "device_request=Ping"@[15] == 'P',
        "device_request=Exit"@[15] == 'E',
{
    reveal_strlit("device_request=Ping");
    reveal_strlit("device_request=Status");
    reveal_strlit("device_request=DeviceAction/TurnOn");
    reveal_strlit("device_request=DeviceAction/TurnOff");
    reveal_strlit("device_request=GetTemperature");
    reveal_strlit("device_request=GetPower");
    reveal_strlit("device_request=Exit");
}

/// Law (round trip): decoding the encoding of any device request gives
/// the request back.
pub proof fn lemma_device_request_round_trip(m: DeviceRequest)
    ensures
        spec_decode_device_request(spec_device_request_wire(m)) == Option::Some(m),
{
    reveal_device_request_lits();
}

/// Law (round trip): decoding the encoding of any home request gives a
/// request of the same shape: same variant, same room name.
pub proof fn lemma_home_request_round_trip(m: HomeRequestModel)
    ensures
        spec_decode_home_request(spec_home_request_wire(m)) == Option::Some(m),
{
    reveal_strlit("home_request=Ping");
    reveal_strlit("home_request=Status");
    reveal_strlit("home_request=HomeAction/AddRoom/");
    reveal_strlit("home_request=HomeAction/RemoveRoom/");
    let ar = "home_request=HomeAction/AddRoom/"@;
    let rr = "home_request=HomeAction/RemoveRoom/"@;
    assert(ar.len() == 32);
    assert(rr.len() == 35);
    match m {
        HomeRequestModel::Ping => {},
        HomeRequestModel::Status => {},
        HomeRequestModel::HomeAction { method: HomeAction::AddRoom, room_name } => {
            let s = ar + room_name;
            assert(s.subrange(0, 32) =~= ar);
            assert(s.skip(32) =~= room_name);
        },
        HomeRequestModel::HomeAction { method: HomeAction::RemoveRoom, room_name } => {
            let s = rr + room_name;
            assert(s.subrange(0, 35) =~= rr);
            assert(s.skip(35) =~= room_name);
            // not an AddRoom message: the tags part ways at one position
            if spec_starts(s, ar) {
                assert(s.subrange(0, 32)[24] == s[24]);
                assert(s[24] == rr[24]);
                assert(false);
            }
        },
    }
}

/// Law (round trip): decoding the encoding of any response gives a
/// response of the same shape: same variant, same payload.
pub proof fn lemma_response_round_trip(m: ResponseModel)
    ensures
        spec_decode_response(spec_response_wire(m)) == Option::Some(m),
{
    reveal_strlit("response=Pong");
    reveal_strlit("response=Ok");
    reveal_strlit("response=Status/true");
    reveal_strlit("response=Status/false");
    reveal_strlit("response=Err/");
    reveal_strlit("response=Temperature/");
    reveal_strlit("response=Power/");
    let er = "response=Err/"@;
    let te = "response=Temperature/"@;
    let po = "response=Power/"@;
    assert(er.len() == 13);
    assert(te.len() == 21);
    assert(po.len() == 15);
    match m {
        ResponseModel::Pong => {},
        ResponseModel::Accepted => {},
        ResponseModel::Status(b) => {},
        ResponseModel::Error(msg) => {
            let s = er + msg;
            if s == "response=Pong"@ {
                assert(s[9] == er[9]);
                assert(false);
            }
            if s == "response=Status/false"@ {
                assert(s[9] == er[9]);
                assert(false);
            }
            if s == "response=Status/true"@ {
                assert(s[9] == er[9]);
                assert(false);
            }
            assert(s.subrange(0, 13) =~= er);
            assert(s.skip(13) =~= msg);
        },
        ResponseModel::Temperature(v) => {
            let d = spec_i64_string(v);
            crate::numeral::lemma_i64_numeral_round_trip(v);
            crate::numeral::lemma_i64_string_nonempty(v);
            let s = te + d;
            assert(s.len() >= 22);
            if spec_starts(s, er) {
                assert(s.subrange(0, 13)[9] == s[9]);
                assert(s[9] == te[9]);
                assert(false);
            }
            assert(s.subrange(0, 21) =~= te);
            assert(s.skip(21) =~= d);
        },
        ResponseModel::Power(v) => {
            let d = spec_i64_string(v);
            crate::numeral::lemma_i64_numeral_round_trip(v);
            crate::numeral::lemma_i64_string_nonempty(v);
            let s = po + d;
            assert(s.len() >= 16);
            if s == "response=Status/true"@ {
                assert(s[9] == po[9]);
                assert(false);
            }
            if s == "response=Status/false"@ {
                assert(s[9] == po[9]);
                assert(false);
            }
            if spec_starts(s, er) {
                assert(s.subrange(0, 13)[9] == s[9]);
                assert(s[9] == po[9]);
                assert(false);
            }
            if spec_starts(s, te) {
                assert(s.subrange(0, 21)[9] == s[9]);
                assert(s[9] == po[9]);
                assert(false);
            }
            assert(s.subrange(0, 15) =~= po);
            assert(s.skip(15) =~= d);
        },
    }
}

/// Law (wire distinctness): distinct responses never share an encoding,
/// so nothing is lost on the wire.
pub proof fn lemma_response_wire_injective(a: ResponseModel, b: ResponseModel)
    requires
        spec_response_wire(a) == spec_response_wire(b),
    ensures
        a == b,
{
    lemma_response_round_trip(a);
    lemma_response_round_trip(b);
}

} // verus!
