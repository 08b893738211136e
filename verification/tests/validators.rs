use brewdrivers::controllers::Controller;
use brewdrivers::model::conditions::condition_validators::{
    conditions_have_correct_device_type, conditions_have_existing_device,
    conditions_have_no_whitespace, conditions_have_unique_ids,
};
use brewdrivers::model::conditions::{Condition, ConditionCollection, ConditionKind};
use brewdrivers::model::validators::{
    all_validators, check_port, command_retries_valid, controller_baudrate_is_valid, devices_have_unique_ids,
    id_has_no_whitespace, retry_delay_valid, serial_port_is_valid, timeout_valid,
};
use brewdrivers::model::{Connection, Device, ModelError, RTU};
use brewdrivers::state::{BinaryState, DeviceState};

// Just quickly sets up an RTU for testing purposes
fn rtu(name: &str, id: &str, devices: Vec<Device>) -> RTU {
    RTU { name: String::from(name), id: String::from(id), ip_addr: [0, 0, 0, 0], devices }
}

fn connection(port: &str, baudrate: usize, timeout: u64, controller: Controller, addr: u8) -> Connection {
    Connection {
        port: String::from(port),
        baudrate,
        timeout,
        addr,
        controller_addr: 254,
        controller,
    }
}

// Quickly builds a device for testing purposes
fn device(id: &str, name: &str, conn: Connection) -> Device {
    Device {
        id: String::from(id),
        name: String::from(name),
        command_retries: 1,
        retry_delay: 200,
        conn,
        state: DeviceState { relay_state: None, pv: None, sv: None },
    }
}

fn pump(id: &str, port: &str, baudrate: usize, timeout: u64, addr: u8) -> Device {
    device(id, "Pump", connection(port, baudrate, timeout, Controller::STR1, addr))
}

fn condition(id: &str, kind: ConditionKind, device_id: &str) -> Condition {
    Condition {
        name: String::from("My Condition"),
        id: String::from(id),
        kind,
        device_id: String::from(device_id),
        state: DeviceState { relay_state: Some(BinaryState::On), pv: None, sv: None },
        margin_above: 0,
        margin_below: 0,
    }
}

#[test]
fn test_devices_have_unique_ids() {
    let devices = vec![
        pump("pump", "/dev/ttyUSB0", 9600, 100, 0),
        device(
            "pump",
            "Other pump with same ID",
            connection("/dev/ttyUSB0", 9600, 100, Controller::STR1, 1),
        ),
        device(
            "pump2",
            "Other pump with different ID",
            connection("/dev/ttyUSB0", 9600, 100, Controller::STR1, 2),
        ),
    ];

    let mut rtu = rtu("Testing RTU", "testing-id", devices);

    assert!(devices_have_unique_ids(&rtu).is_err());
    rtu.devices.remove(1);
    assert!(devices_have_unique_ids(&rtu).is_ok());
}

#[test]
fn test_id_has_no_whitespace() {
    let devices = vec![pump("pump id with whitespace", "/dev/ttyUSB0", 9600, 100, 2)];

    let mut rtu = rtu("Testing RTU", "testing id with whitespace", devices);

    assert!(id_has_no_whitespace(&rtu).is_err());
    rtu.devices[0].id = String::from("something-without-whitespace");
    // Still an error because the RTU id has whitespace
    assert!(id_has_no_whitespace(&rtu).is_err());
    rtu.id = String::from("no-whitespace");
    assert!(id_has_no_whitespace(&rtu).is_ok());
}

#[test]
fn test_serial_port_is_valid() {
    // This port may or may not exist, but it's valid
    let devices = vec![pump("pump", "/dev/ttyUSB0", 9600, 100, 2)];

    let mut rtu = rtu("testing RTU", "test-id", devices);

    assert!(serial_port_is_valid(&rtu).is_ok());

    // This port definitely doesn't exist, but it's still valid
    rtu.devices.push(pump("pump", "/dev/peepee_poopoo", 9600, 100, 2));

    assert!(serial_port_is_valid(&rtu).is_ok());

    // This port is not valid (not in /dev)
    rtu.devices.push(pump("pump", "/etc/different", 9600, 100, 2));

    assert!(serial_port_is_valid(&rtu).is_err());
}

#[test]
fn test_baudrate() {
    let devices = vec![pump("pump", "/dev/ttyUSB0", 9600, 100, 2)];

    let mut rtu = rtu("testing RTU", "test-id", devices);

    assert!(controller_baudrate_is_valid(&rtu).is_ok());

    rtu.devices.push(pump("pump", "/dev/ttyUSB0", 9601, 100, 2));

    assert!(controller_baudrate_is_valid(&rtu).is_err());
}

#[test]
fn test_timeout_valid() {
    let devices = vec![pump("pump", "/dev/ttyUSB0", 9600, 100, 2)];

    let mut rtu = rtu("testing RTU", "test-id", devices);

    assert!(timeout_valid(&rtu).is_ok());

    // Timeout less than 20
    rtu.devices.push(pump("pump", "/dev/ttyUSB0", 9600, 15, 2));

    assert!(timeout_valid(&rtu).is_err());
}

#[test]
fn test_command_retries_valid() {
    let mut valid_device = pump("pump", "/dev/ttyUSB0", 9600, 15, 2);
    valid_device.command_retries = 0;

    let mut invalid_device = pump("pump", "/dev/ttyUSB0", 9600, 15, 2);
    invalid_device.command_retries = 6;

    let mut undeserializable_device = pump("pump", "/dev/ttyUSB0", 9600, 15, 2);
    undeserializable_device.command_retries = 6;

    let rtu1 = rtu("Valid RTU", "testing-id", vec![valid_device]);
    assert!(command_retries_valid(&rtu1).is_ok());

    let rtu2 = rtu("Invalid RTU", "testing-id", vec![invalid_device]);
    assert!(command_retries_valid(&rtu2).is_err());

    let rtu3 = rtu("Invalid RTU", "testing-id", vec![undeserializable_device]);
    assert!(command_retries_valid(&rtu3).is_err());
}

#[test]
fn test_retry_delay_valid() {
    let mut valid_device = pump("pump", "/dev/ttyUSB0", 9600, 15, 2);
    valid_device.retry_delay = 400;

    let mut invalid_device = pump("pump", "/dev/ttyUSB0", 9600, 15, 2);
    invalid_device.retry_delay = 5000;

    let rtu1 = rtu("Valid RTU", "testing-id", vec![valid_device]);
    assert!(retry_delay_valid(&rtu1).is_ok());

    let rtu2 = rtu("Invalid RTU", "testing-id", vec![invalid_device]);
    assert!(retry_delay_valid(&rtu2).is_err());
}

#[test]
fn test_condition_device_exists() {
    let devices = vec![device(
        "relay0",
        "Relay 0",
        connection("/dev/ttyUSB0", 9600, 100, Controller::STR1, 0),
    )];
    let rtu = rtu("Testing RTU", "testing-id", devices);

    let condition_def = condition("my-condition", ConditionKind::RelayStateIs, "relay0");
    assert!(conditions_have_existing_device(&vec![condition_def], &rtu).is_ok());

    let condition_def2 =
        condition("my-condition", ConditionKind::RelayStateIs, "some-id-that-does-not-exist");
    assert!(conditions_have_existing_device(&vec![condition_def2], &rtu).is_err());
}

#[test]
fn device_test_connection_port() {
    let conn = Connection {
        port: String::from("/dev/ttyUSB0"),
        baudrate: 19200,
        timeout: 200,
        controller: Controller::CN7500,
        addr: 0,
        controller_addr: 22,
    };

    assert_eq!("/dev/ttyUSB0", conn.port());
    assert_ne!(r#""/dev/ttyUSB0""#, conn.port());
}

#[test]
fn connection_timeout_is_in_milliseconds() {
    let conn = connection("/dev/ttyUSB0", 9600, 200, Controller::STR1, 0);
    assert_eq!(conn.timeout(), std::time::Duration::from_millis(200));
    assert_eq!(conn.baudrate(), &9600);
    assert_eq!(conn.addr(), 0);
    assert_eq!(conn.controller_addr(), 254);
    assert_eq!(conn.controller(), &Controller::STR1);
}

#[test]
fn validation_messages_name_the_failure() {
    let rtu = rtu("Testing RTU", "testing-id", vec![pump("pump", "/etc/ttyUSB0", 9600, 100, 0)]);
    match serial_port_is_valid(&rtu) {
        Err(ModelError::ValidationError { item_id, key, value, rule }) => {
            assert_eq!(item_id, "pump");
            assert_eq!(key, "port");
            assert_eq!(value, "/etc/ttyUSB0");
            assert_eq!(rule, "port path must be in /dev/*");
        }
        other => panic!("expected a validation error, got {:?}", other),
    }
    assert!(all_validators(&rtu).is_err());
    assert!(rtu.validate().is_err());
}

#[test]
fn rtu_validation_passes_on_a_valid_rtu() {
    let rtu = rtu(
        "Testing RTU",
        "testing-id",
        vec![pump("pump", "/dev/ttyUSB0", 9600, 100, 0), pump("valve", "/dev/ttyUSB0", 9600, 100, 1)],
    );
    assert!(all_validators(&rtu).is_ok());
    assert!(rtu.validate().is_ok());
}

#[test]
fn condition_validators_catch_each_fault() {
    let devices = vec![
        device("relay0", "Relay 0", connection("/dev/ttyUSB0", 9600, 100, Controller::STR1, 0)),
        device("omega1", "Omega", connection("/dev/ttyUSB0", 19200, 100, Controller::CN7500, 0)),
    ];
    let rtu = rtu("Testing RTU", "testing-id", devices);

    let good = vec![
        condition("relay-on", ConditionKind::RelayStateIs, "relay0"),
        condition("hot", ConditionKind::PVIsAtLeast, "omega1"),
    ];
    assert!(conditions_have_unique_ids(&good).is_ok());
    assert!(conditions_have_no_whitespace(&good).is_ok());
    assert!(conditions_have_existing_device(&good, &rtu).is_ok());
    assert!(conditions_have_correct_device_type(&good, &rtu).is_ok());
    assert!(ConditionCollection(good).validate(&rtu).is_ok());

    let repeated = vec![
        condition("same", ConditionKind::RelayStateIs, "relay0"),
        condition("same", ConditionKind::RelayStateIs, "relay0"),
    ];
    assert!(conditions_have_unique_ids(&repeated).is_err());

    let spaced = vec![condition("has space", ConditionKind::RelayStateIs, "relay0")];
    assert!(conditions_have_no_whitespace(&spaced).is_err());

    // A relay board has no process value
    let wrong_type = vec![condition("hot", ConditionKind::PVIsAtLeast, "relay0")];
    assert!(conditions_have_correct_device_type(&wrong_type, &rtu).is_err());
    assert!(ConditionCollection(wrong_type).validate(&rtu).is_err());
}

#[test]
fn check_port_reports_each_fault() {
    assert!(check_port("pump", "/dev/ttyUSB0", true).is_ok());
    match check_port("pump", "", false) {
        Err(ModelError::ValidationError { rule, .. }) => assert_eq!(rule, "serial port cannot be empty"),
        other => panic!("unexpected {:?}", other),
    }
    match check_port("pump", "/etc/x", false) {
        Err(ModelError::ValidationError { rule, value, .. }) => {
            assert_eq!(rule, "port path must be in /dev/*");
            assert_eq!(value, "/etc/x");
        }
        other => panic!("unexpected {:?}", other),
    }
}

#[test]
fn serial_port_prefix_is_by_component() {
    // "/devices" is not under "/dev": paths compare by components
    let rtu = rtu("Testing RTU", "testing-id", vec![pump("pump", "/devices/tty", 9600, 100, 0)]);
    assert!(serial_port_is_valid(&rtu).is_err());
}

#[test]
fn retry_delay_may_equal_the_timeout() {
    let mut equal = pump("pump", "/dev/ttyUSB0", 9600, 100, 0);
    equal.retry_delay = 100;
    assert!(retry_delay_valid(&rtu("Valid RTU", "testing-id", vec![equal])).is_ok());
    let mut below = pump("pump", "/dev/ttyUSB0", 9600, 100, 0);
    below.retry_delay = 99;
    match retry_delay_valid(&rtu("Invalid RTU", "testing-id", vec![below])) {
        Err(ModelError::ValidationError { key, value, rule, .. }) => {
            assert_eq!(key, "retry_delay");
            assert_eq!(value, "99");
            assert_eq!(rule, "retry delay for this device must be in the range [100, 2000] (units in ms)");
        }
        other => panic!("unexpected {:?}", other),
    }
    let mut too_long = pump("pump", "/dev/ttyUSB0", 9600, 100, 0);
    too_long.retry_delay = 2000;
    assert!(retry_delay_valid(&rtu("Invalid RTU", "testing-id", vec![too_long])).is_err());
}
