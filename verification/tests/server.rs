use smart_home::proto::{DeviceAction, DeviceRequest, Response};
use smart_home::server::{DeviceKind, ServerState};

#[test]
fn test_thermometer_scenario_read_switch_read() {
    // the server holds 20 degrees (thousandths: 20000)
    let mut state = ServerState::new(DeviceKind::Thermometer);
    assert_eq!(state.value, 20000);

    let (resp, exit) = state.handle_request(DeviceKind::Thermometer, &DeviceRequest::GetTemperature);
    assert_eq!(resp, Response::Temperature(20000));
    assert!(!exit);

    let (resp, exit) = state.handle_request(
        DeviceKind::Thermometer,
        &DeviceRequest::DeviceAction {
            method: DeviceAction::TurnOn,
        },
    );
    assert_eq!(resp, Response::Accepted);
    assert!(!exit);

    let (resp, _) = state.handle_request(DeviceKind::Thermometer, &DeviceRequest::Status);
    assert_eq!(resp, Response::Status(true));
}

#[test]
fn test_unsupported_request_gets_error_and_service_continues() {
    // a power read against a thermometer-only server
    let mut state = ServerState::new(DeviceKind::Thermometer);
    let (resp, exit) = state.handle_request(DeviceKind::Thermometer, &DeviceRequest::GetPower);
    assert_eq!(
        resp,
        Response::Error("bad request: device_request=GetPower".to_string())
    );
    assert!(!exit);

    // the server keeps serving afterwards
    let (resp, exit) = state.handle_request(DeviceKind::Thermometer, &DeviceRequest::Ping);
    assert_eq!(resp, Response::Pong);
    assert!(!exit);
}

#[test]
fn test_temperature_read_refused_by_power_socket() {
    let mut state = ServerState::new(DeviceKind::PowerSocket);
    let (resp, exit) = state.handle_request(DeviceKind::PowerSocket, &DeviceRequest::GetTemperature);
    assert_eq!(
        resp,
        Response::Error("bad request: device_request=GetTemperature".to_string())
    );
    assert!(!exit);
}

#[test]
fn test_set_on_then_off_leaves_server_off() {
    let mut state = ServerState::new(DeviceKind::PowerSocket);
    let (resp, _) = state.handle_request(
        DeviceKind::PowerSocket,
        &DeviceRequest::DeviceAction {
            method: DeviceAction::TurnOn,
        },
    );
    assert_eq!(resp, Response::Accepted);
    assert!(state.is_on);
    let (resp, _) = state.handle_request(
        DeviceKind::PowerSocket,
        &DeviceRequest::DeviceAction {
            method: DeviceAction::TurnOff,
        },
    );
    assert_eq!(resp, Response::Accepted);
    assert!(!state.is_on);

    let (resp, _) = state.handle_request(DeviceKind::PowerSocket, &DeviceRequest::Status);
    assert_eq!(resp, Response::Status(false));
}

#[test]
fn test_exit_acknowledges_then_stops() {
    let mut state = ServerState::new(DeviceKind::PowerSocket);
    let (resp, exit) = state.handle_request(DeviceKind::PowerSocket, &DeviceRequest::Exit);
    assert_eq!(resp, Response::Accepted);
    assert!(exit);
}

#[test]
fn test_handle_text_round_trip() {
    let mut state = ServerState::new(DeviceKind::PowerSocket);
    let (reply, exit) = state.handle_text(DeviceKind::PowerSocket, &DeviceRequest::Ping.marshal());
    assert_eq!(reply, "response=Pong");
    assert!(!exit);

    let (reply, _) =
        state.handle_text(DeviceKind::PowerSocket, &DeviceRequest::GetPower.marshal());
    assert_eq!(reply, "response=Power/20000");
}

#[test]
fn test_handle_text_malformed_never_stops_the_server() {
    let mut state = ServerState::new(DeviceKind::Thermometer);
    let before = state;
    let (reply, exit) = state.handle_text(DeviceKind::Thermometer, "{not a message}");
    assert_eq!(
        reply,
        "response=Err/err unmarshalling device request: {not a message}"
    );
    assert!(!exit);
    assert_eq!(state, before);

    // and the next well-formed request is served
    let (reply, exit) = state.handle_text(DeviceKind::Thermometer, "device_request=Ping");
    assert_eq!(reply, "response=Pong");
    assert!(!exit);
}

#[test]
fn test_drift_moves_power_within_bounds() {
    let mut state = ServerState::new(DeviceKind::PowerSocket);
    for _ in 0..100 {
        let before = state.value;
        state.drift(DeviceKind::PowerSocket);
        assert!(state.value >= before - 2000);
        assert!(state.value < before + 2000);
        assert!(!state.is_on);
    }
}

#[test]
fn test_drift_raises_temperature() {
    let mut state = ServerState::new(DeviceKind::Thermometer);
    for _ in 0..100 {
        let before = state.value;
        state.drift(DeviceKind::Thermometer);
        assert!(state.value > before);
        assert!(state.value < before + 50);
        assert!(state.is_on);
    }
}
