use smart_home::devices::power_socket::PowerSocket;
use smart_home::devices::thermometer::Thermometer;
use smart_home::devices::{
    device_needs_update, Device, DeviceCondition, DeviceReadError, DeviceStatus,
    DeviceUpdateError, FetchOutcome,
};
use smart_home::proto::{DeviceAction, DeviceRequest, Response};

const NAME: &str = "test power socket";
const THERMOMETER_NAME: &str = "test thermometer";

fn new_power_socket() -> PowerSocket {
    PowerSocket::new(NAME, "")
}

fn new_thermometer() -> Thermometer {
    Thermometer::new(THERMOMETER_NAME, "")
}

#[test]
fn test_power_on() {
    let mut device = new_power_socket();
    if let Some(req) = device.power_on() {
        panic!("local device asked for a round trip: {:?}", req)
    }
}

#[test]
fn test_power_off() {
    let mut device = new_power_socket();
    if let Some(req) = device.power_off() {
        panic!("local device asked for a round trip: {:?}", req)
    }
}

#[test]
fn test_get_power_consumption() {
    let mut device = new_power_socket();
    assert_eq!(device.get_power_consumption(0, None).unwrap(), 0)
}

#[test]
fn power_socket_test_get_status() {
    let device = new_power_socket();

    let have = device.get_status();
    let mut want = DeviceStatus {
        device_type: "PSOC".to_string(),
        name: NAME.to_string(),
        condition: DeviceCondition::Good,
        status: format!("power: {}", 0),
        updated: None,
    };
    assert_eq!(have, want);

    want.status = "changed".to_string();
    assert_ne!(have, want)
}

#[test]
fn test_get_temp() {
    let mut device = new_thermometer();
    let temp = device.get_temp(0, None).unwrap();
    assert_eq!(temp, 0)
}

#[test]
fn thermometer_test_get_status() {
    let device = new_thermometer();

    let have = device.get_status();
    let mut want = DeviceStatus {
        device_type: "THRM".to_string(),
        name: THERMOMETER_NAME.to_string(),
        condition: DeviceCondition::Good,
        status: format!("temperature: {}", 0),
        updated: None,
    };
    assert_eq!(have, want);

    want.status = "changed".to_string();
    assert_ne!(have, want)
}

#[test]
fn test_device_needs_update_edges() {
    assert!(device_needs_update(None, 0));
    assert!(device_needs_update(None, u64::MAX));
    assert!(!device_needs_update(Some(1000), 1500));
    assert!(device_needs_update(Some(1000), 1501));
    assert!(!device_needs_update(Some(1000), 999));
    assert!(!device_needs_update(Some(1000), 1000));
}

#[test]
fn test_remote_read_asks_then_caches() {
    let mut device = PowerSocket::new("remote socket", "127.0.0.1:1234");
    // never refreshed: a read must fetch
    assert_eq!(device.power_read_request(1000), Some(DeviceRequest::GetPower));
    let got = device
        .get_power_consumption(
            1000,
            Some(FetchOutcome::Reply("response=Power/20000".to_string())),
        )
        .unwrap();
    assert_eq!(got, 20000);
    // within the staleness window: no round trip, identical value
    assert_eq!(device.power_read_request(1400), None);
    assert_eq!(device.get_power_consumption(1400, None).unwrap(), 20000);
    // past the window: stale again
    assert_eq!(device.power_read_request(1501), Some(DeviceRequest::GetPower));
    // a successful refresh marks the mirror healthy and timestamps it
    let status = device.get_status();
    assert_eq!(status.condition, DeviceCondition::Good);
    assert_eq!(status.updated, Some(1000));
    assert_eq!(status.status, "power: 20".to_string());
}

#[test]
fn test_two_refreshes_last_one_wins() {
    // two refresh completions land in sequence, as the mirror's lock
    // forces; the mirror then holds the later response and its timestamp
    let mut device = PowerSocket::new("remote socket", "127.0.0.1:1234");
    device
        .get_power_consumption(
            1000,
            Some(FetchOutcome::Reply("response=Power/20000".to_string())),
        )
        .unwrap();
    device
        .get_power_consumption(
            1600,
            Some(FetchOutcome::Reply("response=Power/21500".to_string())),
        )
        .unwrap();
    let status = device.get_status();
    assert_eq!(status.updated, Some(1600));
    assert_eq!(status.status, "power: 21.5");
}

#[test]
fn test_remote_read_error_response_recorded() {
    let mut device = PowerSocket::new("remote socket", "127.0.0.1:1234");
    let r = device.get_power_consumption(
        50,
        Some(FetchOutcome::Reply("response=Err/boom".to_string())),
    );
    match &r {
        Err(e) => assert_eq!(e.as_string(), "err making request: boom"),
        Ok(v) => panic!("read must fail, got {}", v),
    }
    assert!(matches!(r, Err(DeviceReadError::ErrMakingRequest(ref m)) if m == "boom"));
    let status = device.get_status();
    assert_eq!(status.condition, DeviceCondition::Error("boom".to_string()));
    // a failed refresh never stamps the mirror as refreshed
    assert_eq!(status.updated, None);
}

#[test]
fn test_remote_read_unexpected_response_recorded() {
    let mut device = Thermometer::new("remote thermometer", "127.0.0.1:1235");
    let r = device.get_temp(
        50,
        Some(FetchOutcome::Reply("response=Pong".to_string())),
    );
    match &r {
        Err(e) => assert_eq!(e.as_string(), "unexpected response"),
        Ok(v) => panic!("read must fail, got {}", v),
    }
    assert!(matches!(r, Err(DeviceReadError::UnexpectedResponse(Response::Pong))));
    let status = device.get_status();
    assert_eq!(status.condition, DeviceCondition::Unknown);
    assert_eq!(status.updated, None);
}

#[test]
fn test_remote_read_transport_failure() {
    let mut device = Thermometer::new("remote thermometer", "127.0.0.1:1235");
    let r = device.get_temp(
        50,
        Some(FetchOutcome::TransportFailed("connection refused".to_string())),
    );
    assert!(matches!(r, Err(DeviceReadError::UnknownError(ref m)) if m == "connection refused"));
    // the transport never delivered: the mirror's condition stands
    assert_eq!(device.get_status().condition, DeviceCondition::Unknown);
}

#[test]
fn test_remote_read_undecodable_reply() {
    let mut device = Thermometer::new("remote thermometer", "127.0.0.1:1235");
    let r = device.get_temp(
        50,
        Some(FetchOutcome::Reply("garbage".to_string())),
    );
    assert!(
        matches!(r, Err(DeviceReadError::UnknownError(ref m)) if m == "err unmarshalling response: garbage")
    );
    assert_eq!(device.get_status().condition, DeviceCondition::Unknown);
}

#[test]
fn test_remote_set_power_asks_and_confirms() {
    let mut device = PowerSocket::new("remote socket", "127.0.0.1:1234");
    let req = device.set_power(true);
    assert_eq!(
        req,
        Some(DeviceRequest::DeviceAction {
            method: DeviceAction::TurnOn
        })
    );
    let confirmed =
        device.confirm_set_power(true, FetchOutcome::Reply("response=Ok".to_string()));
    assert!(confirmed.err.is_none());
    // an unconfirmed action reports its failure
    let refused = device.confirm_set_power(
        false,
        FetchOutcome::Reply("response=Err/nope".to_string()),
    );
    assert_eq!(
        refused.err,
        Some("unexpected response: response=Err/nope".to_string())
    );
    let broken = device.confirm_set_power(
        false,
        FetchOutcome::TransportFailed("timed out".to_string()),
    );
    assert_eq!(broken.err, Some("timed out".to_string()));
}

#[test]
fn test_update_error_strings() {
    let e = DeviceUpdateError::UnexpectedResponse(Response::Pong);
    assert_eq!(e.as_string(), "unexpected response");
    let e = DeviceUpdateError::UnknownError("connection reset".to_string());
    assert_eq!(e.as_string(), "unknown error: connection reset");
}

#[test]
fn test_quick_unknown_and_strings() {
    let status = DeviceStatus::quick_unknown("cellar probe", "thrm");
    assert_eq!(
        status.as_string(),
        "[THRM]cellar probe\n\tcondition: UNKNOWN\n\tstatus: UNKNOWN\n"
    );
    assert_eq!(
        status.as_compact_string(12345),
        "[UNKNOWN]thrm-cellar probe*UNKNOWN UPD: NEVER"
    );
}

#[test]
fn test_as_compact_string_ages_the_refresh() {
    let status = DeviceStatus {
        device_type: "psoc".to_string(),
        name: "x".to_string(),
        condition: DeviceCondition::Good,
        status: "power: 20".to_string(),
        updated: Some(300),
    };
    assert_eq!(
        status.as_compact_string(1500),
        "[OK]psoc-x*power: 20 UPD: 1.2"
    );
    assert_eq!(
        status.as_compact_string(300),
        "[OK]psoc-x*power: 20 UPD: 0.0"
    );
}

#[test]
fn test_condition_error_renders_with_message() {
    let status = DeviceStatus {
        device_type: "psoc".to_string(),
        name: "x".to_string(),
        condition: DeviceCondition::Error("socket misbehaving".to_string()),
        status: "power: 0".to_string(),
        updated: None,
    };
    let text = status.as_string();
    assert!(text.contains("ERROR: socket misbehaving"));
}

#[test]
fn test_milli_values_render_as_decimals() {
    let mut device = PowerSocket::new("remote socket", "127.0.0.1:1234");
    device
        .get_power_consumption(
            10,
            Some(FetchOutcome::Reply("response=Power/20500".to_string())),
        )
        .unwrap();
    assert_eq!(device.get_status().status, "power: 20.5");

    let mut device = PowerSocket::new("remote socket", "127.0.0.1:1234");
    device
        .get_power_consumption(
            10,
            Some(FetchOutcome::Reply("response=Power/-500".to_string())),
        )
        .unwrap();
    assert_eq!(device.get_status().status, "power: -0.5");

    let mut device = PowerSocket::new("remote socket", "127.0.0.1:1234");
    device
        .get_power_consumption(
            10,
            Some(FetchOutcome::Reply("response=Power/55".to_string())),
        )
        .unwrap();
    assert_eq!(device.get_status().status, "power: 0.055");
}
