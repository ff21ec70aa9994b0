use smart_home::home::Home;

static KITCHEN: &str = "kitchen";

fn new_home() -> Home {
    Home::new("test home")
}

#[test]
fn test_add_room() {
    let mut home = new_home();

    let add_room_ok = home.add_room(KITCHEN);
    if let Err(err) = add_room_ok {
        panic!("err {} should not be present", err.as_string())
    }

    let add_room_err = home.add_room(KITCHEN);
    if add_room_err.is_ok() {
        panic!("err should be present now, but it does not")
    }
}

#[test]
fn test_get_room() {
    let mut home = new_home();
    home.add_room(KITCHEN).unwrap();

    let get_kitchen_ok = home.get_room(KITCHEN);
    match get_kitchen_ok {
        Ok(res) => {
            if res.name != KITCHEN {
                panic!("get_room: result_name {} wrong", res.name)
            }
        }
        Err(err) => panic!("get_room test failed: err getting room: {}", err.as_string()),
    }
}

#[test]
fn test_remove_room() {
    let mut home = new_home();
    home.add_room(KITCHEN).unwrap();

    let remove_kitchen_ok = home.remove_room(KITCHEN);
    if let Err(err) = remove_kitchen_ok {
        panic!("remove_room failed: err {}", err.as_string())
    }
}

#[test]
fn test_list_rooms() {
    let mut home = new_home();
    let rooms_names = vec!["room_1", "room_2"];
    for room in rooms_names {
        home.add_room(room).unwrap();
    }

    let rooms = home.list_rooms();
    assert_eq!(2, rooms.len())
}

#[test]
fn test_collect_summary() {
    let blank_summary = format!("HOME '{}' SUMMARY:\n", "test home");
    let summary_with_kitchen = format!(
        "{}ROOM '{}' SUMMARY:\n\t* no devices *\n",
        blank_summary, KITCHEN
    );

    let mut home = new_home();
    let summary = home.collect_summary();
    assert_eq!(summary, blank_summary);

    home.add_room(KITCHEN).unwrap();
    let summary = home.collect_summary();
    assert_eq!(summary, summary_with_kitchen)
}

#[test]
fn test_remove_missing_room_fails() {
    let mut home = new_home();
    let removed = home.remove_room("attic");
    match removed {
        Ok(()) => panic!("remove_room must have an err at this point"),
        Err(err) => assert_eq!(err.as_string(), "home does not contain room 'attic'"),
    }
}

#[test]
fn test_get_missing_room_fails() {
    let mut home = new_home();
    let got = home.get_room("attic");
    match got {
        Ok(_) => panic!("get_room must have an err at this point"),
        Err(err) => assert_eq!(err.as_string(), "home does not contain room 'attic'"),
    }
}

#[test]
fn test_add_room_error_message() {
    let mut home = new_home();
    home.add_room(KITCHEN).unwrap();
    let err = home.add_room(KITCHEN).unwrap_err();
    assert_eq!(err.as_string(), "home already contains room 'kitchen'");
}
