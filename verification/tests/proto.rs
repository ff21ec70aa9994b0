use smart_home::proto::{
    DecodeError, DeviceAction, DeviceRequest, HomeAction, HomeRequest, Response,
};

#[test]
fn test_marshal_home_requests() {
    let home_requests = vec![
        HomeRequest::Ping,
        HomeRequest::Status,
        HomeRequest::HomeAction {
            method: HomeAction::AddRoom,
            room_name: "test".to_string(),
        },
    ];
    for req in home_requests {
        let bs = req.marshal();
        println!("marshal result: {}", bs);

        let new_req = HomeRequest::unmarshal(&bs).unwrap();
        assert_eq!(req, new_req);
        println!("test marshal success")
    }
}

#[test]
fn test_marshal_device_requests() {
    let home_requests = vec![
        DeviceRequest::Ping,
        DeviceRequest::Status,
        DeviceRequest::DeviceAction {
            method: DeviceAction::TurnOn,
        },
        DeviceRequest::GetTemperature,
        DeviceRequest::GetPower,
        DeviceRequest::Exit,
    ];
    for req in home_requests {
        let bs = req.marshal();
        println!("marshal result: {}", bs);

        let new_req = DeviceRequest::unmarshal(&bs).unwrap();
        assert_eq!(req, new_req);
        println!("test marshal success")
    }
}

#[test]
fn test_marshal_responses() {
    let responses = vec![
        Response::Accepted,
        Response::Pong,
        Response::Status(true),
        Response::Power(1200),
        Response::Temperature(5000),
        Response::Error("something".to_string()),
    ];
    for req in responses {
        let bs = req.marshal();
        println!("marshal result: {}", bs);

        let new_req = Response::unmarshal(&bs).unwrap();
        assert_eq!(req, new_req);
        println!("test marshal success")
    }
}

#[test]
fn test_wire_text_is_stable() {
    assert_eq!(DeviceRequest::Ping.marshal(), "device_request=Ping");
    assert_eq!(
        DeviceRequest::DeviceAction {
            method: DeviceAction::TurnOff
        }
        .marshal(),
        "device_request=DeviceAction/TurnOff"
    );
    assert_eq!(Response::Accepted.marshal(), "response=Ok");
    assert_eq!(Response::Temperature(20000).marshal(), "response=Temperature/20000");
    assert_eq!(Response::Power(-500).marshal(), "response=Power/-500");
    assert_eq!(
        Response::Error("boom".to_string()).marshal(),
        "response=Err/boom"
    );
    assert_eq!(
        HomeRequest::HomeAction {
            method: HomeAction::RemoveRoom,
            room_name: "den".to_string()
        }
        .marshal(),
        "home_request=HomeAction/RemoveRoom/den"
    );
}

#[test]
fn test_round_trip_extreme_values() {
    for v in [0i64, 1, -1, i64::MAX, i64::MIN, 20000, -20000] {
        let t = Response::Temperature(v);
        assert_eq!(Response::unmarshal(&t.marshal()).unwrap(), t);
        let p = Response::Power(v);
        assert_eq!(Response::unmarshal(&p.marshal()).unwrap(), p);
    }
}

#[test]
fn test_round_trip_empty_and_odd_strings() {
    for msg in ["", "x", "with spaces", "slash/and=equals", "line\nbreak"] {
        let r = Response::Error(msg.to_string());
        assert_eq!(Response::unmarshal(&r.marshal()).unwrap(), r);
        let h = HomeRequest::HomeAction {
            method: HomeAction::AddRoom,
            room_name: msg.to_string(),
        };
        assert_eq!(HomeRequest::unmarshal(&h.marshal()).unwrap(), h);
    }
}

#[test]
fn test_unmarshal_rejects_malformed_text() {
    for bad in [
        "",
        "device_request=",
        "device_request=ping",
        "device_request=Ping ",
        "nonsense",
        "response=Pong",
    ] {
        assert_eq!(DeviceRequest::unmarshal(bad), Err(DecodeError));
    }
    for bad in [
        "",
        "response=",
        "response=pong",
        "device_request=Ping",
        "response=Status/maybe",
        "response=Temperature/",
        "response=Temperature/abc",
        "response=Temperature/007",
        "response=Temperature/-0",
        "response=Temperature/1.5",
        "response=Temperature/9223372036854775808",
        "response=Temperature/-9223372036854775809",
        "response=Temperature/20000000000000000000",
        "response=Power/--1",
    ] {
        assert!(Response::unmarshal(bad).is_err(), "accepted: {}", bad);
    }
}

#[test]
fn test_home_request_rejects_malformed_text() {
    for bad in [
        "",
        "home_request=",
        "home_request=HomeAction",
        "home_request=HomeAction/AddRoom",
        "device_request=Ping",
    ] {
        assert!(HomeRequest::unmarshal(bad).is_err(), "accepted: {}", bad);
    }
}

#[test]
fn test_unmarshal_numeric_edges() {
    assert_eq!(
        Response::unmarshal("response=Temperature/-9223372036854775808").unwrap(),
        Response::Temperature(i64::MIN)
    );
    assert_eq!(
        Response::unmarshal("response=Temperature/9223372036854775807").unwrap(),
        Response::Temperature(i64::MAX)
    );
    assert_eq!(
        Response::unmarshal("response=Power/0").unwrap(),
        Response::Power(0)
    );
}

#[test]
fn test_decode_error_is_not_an_error_response() {
    // a decoded application-level error is Ok(Response::Error(..)),
    // a malformed message is Err(DecodeError): the two never mix
    let app_err = Response::unmarshal("response=Err/oops");
    assert_eq!(app_err.unwrap(), Response::Error("oops".to_string()));
    let malformed = Response::unmarshal("responseErr/oops");
    assert!(malformed.is_err());
}
