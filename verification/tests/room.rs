use smart_home::devices::power_socket::PowerSocket;
use smart_home::devices::thermometer::Thermometer;
use smart_home::room::{DeviceEntry, Room};

static POWER_SOCKET: &str = "poser_socket";
static THERMOMETER: &str = "thermometer";
static TEST_ROOM: &str = "test room";

fn new_room() -> Room {
    Room::new(TEST_ROOM)
}

fn new_power_socket() -> DeviceEntry {
    DeviceEntry::PowerSocket(PowerSocket::new("test socket", "127.0.0.1:1234"))
}

fn new_thermometer() -> DeviceEntry {
    DeviceEntry::Thermometer(Thermometer::new("test thermometer", "127.0.0.1:12345"))
}

#[test]
fn test_add_device() {
    let mut room = new_room();

    let add_power_socket_ok = room.add_device(POWER_SOCKET, new_power_socket());
    if let Err(err) = add_power_socket_ok {
        panic!("add_device failed: err {}", err.as_string())
    };

    let add_power_socket_err = room.add_device(POWER_SOCKET, new_power_socket());
    if add_power_socket_err.is_ok() {
        panic!("add_device must have an err at this point")
    };

    let add_thermometer_ok = room.add_device(THERMOMETER, new_thermometer());
    if let Err(err) = add_thermometer_ok {
        panic!("add_device failed: err {}", err.as_string())
    };

    let add_thermometer_err = room.add_device(THERMOMETER, new_thermometer());
    if add_thermometer_err.is_ok() {
        panic!("add_device must have an err at this point")
    };
}

#[test]
fn test_remove_device() {
    let mut room = new_room();
    room.add_device(THERMOMETER, new_thermometer()).unwrap();

    let remove_device_ok = room.remove_device(THERMOMETER);
    if let Err(err) = remove_device_ok {
        panic!("remove_device failed: err {}", err.as_string())
    }

    let remove_device_err = room.remove_device(THERMOMETER);
    if remove_device_err.is_ok() {
        panic!("remove_device must have an err at this point")
    };
}

#[test]
fn test_list_devices() {
    let mut room = new_room();
    room.add_device(THERMOMETER, new_thermometer()).unwrap();
    room.add_device(POWER_SOCKET, new_power_socket()).unwrap();

    let devices_list = room.list_devices();
    assert_eq!(devices_list.len(), 2)
}

#[test]
fn test_get_device() {
    let mut room = new_room();
    room.add_device(THERMOMETER, new_thermometer()).unwrap();

    let get_device_ok = room.get_device(THERMOMETER);
    match get_device_ok {
        Ok(_res) => println!("get_device OK"),
        Err(err) => panic!("get_device err: {}", err.as_string()),
    }

    let get_device_err = room.get_device(POWER_SOCKET);
    if let Ok(_res) = get_device_err {
        panic!("get_device must have an err at this point")
    }
}

#[test]
fn test_get_summary() {
    let blank_summary = format!("ROOM '{}' SUMMARY:\n\t* no devices *\n", TEST_ROOM);
    let mut room = new_room();
    assert_eq!(room.get_summary(), blank_summary);

    room.add_device(THERMOMETER, new_thermometer()).unwrap();
    assert_ne!(room.get_summary(), blank_summary);
}

#[test]
fn test_get_summary_lists_device_blocks() {
    let mut room = new_room();
    room.add_device(THERMOMETER, new_thermometer()).unwrap();
    let summary = room.get_summary();
    assert_eq!(
        summary,
        "ROOM 'test room' SUMMARY:\n\
         [THRM]test thermometer\n\tcondition: UNKNOWN\n\tstatus: temperature: 0\n\n\n"
    );
}

#[test]
fn test_room_error_messages() {
    let mut room = new_room();
    match room.get_device("nothing") {
        Ok(_) => panic!("get_device must have an err at this point"),
        Err(err) => assert_eq!(err.as_string(), "device 'nothing' does not exist"),
    }
    room.add_device(POWER_SOCKET, new_power_socket()).unwrap();
    let err = room.add_device(POWER_SOCKET, new_power_socket()).unwrap_err();
    assert_eq!(err.as_string(), "device 'poser_socket' does not exist");
    let err = room.remove_device(THERMOMETER).unwrap_err();
    assert_eq!(err.as_string(), "device 'thermometer' does not exist");
}
