use brewdrivers::controllers::Controller;
use brewdrivers::error::BrewError;
use brewdrivers::model::conditions::{Condition, ConditionCollection, ConditionKind, Evaluation};
use brewdrivers::model::rtu::device::RetryStep;
use brewdrivers::model::rules::{find_id, Rule, RuleSet, RuleStep, StateSet};
use brewdrivers::model::validation::rule_validators::all as all_rule_validators;
use brewdrivers::model::validation::validate_all;
use brewdrivers::model::{Connection, Device, RTU};
use brewdrivers::state::{reading_at_least, reading_within, readings_equal, BinaryState, DeviceState};

fn empty_state() -> DeviceState {
    DeviceState { relay_state: None, pv: None, sv: None }
}

fn device(id: &str, controller: Controller, baudrate: usize) -> Device {
    Device {
        id: String::from(id),
        name: String::from(id),
        command_retries: 2,
        retry_delay: 200,
        conn: Connection {
            port: String::from("/dev/ttyUSB0"),
            baudrate,
            timeout: 100,
            addr: 0,
            controller_addr: 22,
            controller,
        },
        state: empty_state(),
    }
}

fn rtu(devices: Vec<Device>) -> RTU {
    RTU { name: String::from("Testing RTU"), id: String::from("testing-id"), ip_addr: [0, 0, 0, 0], devices }
}

fn condition(id: &str, kind: ConditionKind, device_id: &str, state: DeviceState) -> Condition {
    Condition {
        name: String::from("My Condition"),
        id: String::from(id),
        kind,
        device_id: String::from(device_id),
        state,
        margin_above: 1.0f64.to_bits(),
        margin_below: 2.0f64.to_bits(),
    }
}

fn relay_on() -> DeviceState {
    DeviceState { relay_state: Some(BinaryState::On), pv: None, sv: None }
}

fn rule(id: &str, condition_id: &str, sets: Vec<(&str, DeviceState)>) -> Rule {
    Rule {
        id: String::from(id),
        name: String::from(id),
        condition_id: String::from(condition_id),
        set: sets
            .into_iter()
            .map(|(device_id, target_state)| StateSet { device_id: String::from(device_id), target_state })
            .collect(),
    }
}

fn devices() -> Vec<Device> {
    vec![
        device("relay0", Controller::STR1, 9600),
        device("relay1", Controller::STR1, 9600),
        device("omega1", Controller::CN7500, 19200),
    ]
}

#[test]
fn test_binary_state() {
    // From string
    assert_eq!("On".parse::<BinaryState>().unwrap(), BinaryState::On);
    assert_eq!("Off".parse::<BinaryState>().unwrap(), BinaryState::Off);
    assert!("145".parse::<BinaryState>().is_err());

    // From yaml string
    assert_eq!(serde_yaml::from_str::<String>("On").unwrap().parse::<BinaryState>().unwrap(), BinaryState::On);
    assert_eq!(serde_yaml::from_str::<String>("Off").unwrap().parse::<BinaryState>().unwrap(), BinaryState::Off);

    // To yaml string
    assert_eq!(serde_yaml::to_string(&BinaryState::On.to_string()).unwrap().trim(), "On");
    assert_eq!(serde_yaml::to_string(&BinaryState::Off.to_string()).unwrap().trim(), "Off");
}

#[test]
fn binary_state_text_round_trips() {
    for state in [BinaryState::On, BinaryState::Off] {
        assert_eq!(state.to_string().parse::<BinaryState>().unwrap(), state);
    }
    for text in ["ON", "on", "OFF", "off"] {
        assert!(text.parse::<BinaryState>().is_ok());
    }
    assert_eq!(BinaryState::from(true), BinaryState::On);
    assert_eq!(BinaryState::from(false), BinaryState::Off);
    assert_eq!(BinaryState::default(), BinaryState::Off);
    assert_eq!(DeviceState::default(), empty_state());
}

#[test]
fn readings_compare_as_floats() {
    assert!(readings_equal(1.5f64.to_bits(), 1.5f64.to_bits()));
    assert!(!readings_equal(1.5f64.to_bits(), 2.5f64.to_bits()));
    assert!(readings_equal(0.0f64.to_bits(), (-0.0f64).to_bits()));
    assert!(!readings_equal(f64::NAN.to_bits(), f64::NAN.to_bits()));
    let a = DeviceState { relay_state: None, pv: Some(0.0f64.to_bits()), sv: None };
    let b = DeviceState { relay_state: None, pv: Some((-0.0f64).to_bits()), sv: None };
    assert!(a.equals(&b));
    let nan = DeviceState { relay_state: None, pv: Some(f64::NAN.to_bits()), sv: None };
    assert!(!nan.equals(&nan));
}

#[test]
fn reading_order_matches_f64() {
    let values = [
        f64::NEG_INFINITY, -1e300, -2.5, -1.0, -1e-310, -0.0, 0.0, 1e-310, 1.0, 2.5, 1e300,
        f64::INFINITY, f64::NAN,
    ];
    for a in values {
        for b in values {
            assert_eq!(reading_at_least(a.to_bits(), b.to_bits()), a >= b, "{} >= {}", a, b);
            assert_eq!(readings_equal(a.to_bits(), b.to_bits()), a == b, "{} == {}", a, b);
        }
    }
    assert!(reading_within(20.0f64.to_bits(), 18.0f64.to_bits(), 21.0f64.to_bits()));
    assert!(reading_within(18.0f64.to_bits(), 18.0f64.to_bits(), 21.0f64.to_bits()));
    assert!(!reading_within(21.5f64.to_bits(), 18.0f64.to_bits(), 21.0f64.to_bits()));
}

#[test]
fn state_set_is_applied_once() {
    let r = rule("rule", "cond", vec![("relay1", relay_on())]);
    let mut dev = device("relay1", Controller::STR1, 9600);
    assert!(r.apply_state_set(0, &mut dev));
    assert_eq!(dev.state, relay_on());
    assert!(!r.apply_state_set(0, &mut dev));
    assert_eq!(dev.state, relay_on());

    // A target holding a NaN reading never settles
    let nan_target = DeviceState { relay_state: None, pv: None, sv: Some(f64::NAN.to_bits()) };
    let r = rule("rule", "cond", vec![("omega1", nan_target)]);
    let mut omega = device("omega1", Controller::CN7500, 19200);
    assert!(r.apply_state_set(0, &mut omega));
    assert!(r.apply_state_set(0, &mut omega));
}

#[test]
fn rule_lookups_report_missing_items() {
    let ids: Vec<String> = vec![String::from("relay0"), String::from("relay1"), String::from("relay1")];
    assert_eq!(find_id(&ids, "relay1"), Some(1));
    assert_eq!(find_id(&ids, "omega1"), None);

    let r = rule("my-rule", "my-condition", vec![("relay1", relay_on()), ("pump", relay_on())]);
    match r.condition_not_found() {
        BrewError::RuleError(msg) => {
            assert_eq!(msg, "condition `my-condition` was not found in the condition definitions file")
        }
        other => panic!("unexpected {:?}", other),
    }

    let cond = condition("my-condition", ConditionKind::RelayStateIs, "relay0", relay_on());
    assert_eq!(r.dependant_device(&cond, &ids).unwrap(), 0);
    let lost = condition("my-condition", ConditionKind::RelayStateIs, "valve", relay_on());
    match r.dependant_device(&lost, &ids) {
        Err(BrewError::RuleError(msg)) => assert_eq!(
            msg,
            "device `valve` was not found in the collection, and it is needed to evaluate condition `my-condition`"
        ),
        other => panic!("unexpected {:?}", other),
    }

    assert_eq!(r.resultant_device(0, &ids).unwrap(), 1);
    match r.resultant_device(1, &ids) {
        Err(BrewError::RuleError(msg)) => assert_eq!(
            msg,
            "device `pump` was not found in the collection, and it is needed to set a new state because a rule (`my-rule`) was triggered"
        ),
        other => panic!("unexpected {:?}", other),
    }
}

#[test]
fn condition_evaluation_plans() {
    let mut relay = device("relay0", Controller::STR1, 9600);
    let cond = condition("relay-on", ConditionKind::RelayStateIs, "relay0", relay_on());
    // The device has no relay state yet
    match cond.evaluation(&relay) {
        Err(BrewError::ConditionError(msg)) => assert_eq!(
            msg,
            "when evaluating condition `relay-on`, missing target value `relay_state` which should be provided by device `relay0`"
        ),
        other => panic!("unexpected {:?}", other),
    }
    relay.state.relay_state = Some(BinaryState::On);
    assert_eq!(cond.evaluation(&relay).unwrap(), Evaluation::Decided(true));
    relay.state.relay_state = Some(BinaryState::Off);
    assert_eq!(cond.evaluation(&relay).unwrap(), Evaluation::Decided(false));

    let untargeted = condition("relay-on", ConditionKind::RelayStateIs, "relay0", empty_state());
    match untargeted.evaluation(&relay) {
        Err(BrewError::ConditionError(msg)) => {
            assert_eq!(msg, "condition `relay-on` is missing target value `relay_state`")
        }
        other => panic!("unexpected {:?}", other),
    }

    let mut omega = device("omega1", Controller::CN7500, 19200);
    omega.state.pv = Some(25.0f64.to_bits());
    omega.state.sv = Some(24.0f64.to_bits());
    let target = DeviceState { relay_state: None, pv: Some(20.0f64.to_bits()), sv: None };
    let at_least = condition("hot", ConditionKind::PVIsAtLeast, "omega1", target);
    assert_eq!(at_least.evaluation(&omega).unwrap(), Evaluation::Decided(true));
    omega.state.pv = Some(19.5f64.to_bits());
    assert_eq!(at_least.evaluation(&omega).unwrap(), Evaluation::Decided(false));
    omega.state.pv = Some(20.0f64.to_bits());
    assert_eq!(at_least.evaluation(&omega).unwrap(), Evaluation::Decided(true));
    omega.state.pv = Some(25.0f64.to_bits());
    let meets = condition("meets", ConditionKind::PVMeetsSV, "omega1", empty_state());
    assert_eq!(
        meets.evaluation(&omega).unwrap(),
        Evaluation::Around {
            actual: 25.0f64.to_bits(),
            target: 24.0f64.to_bits(),
            margin_below: 2.0f64.to_bits(),
            margin_above: 1.0f64.to_bits(),
        }
    );
}

#[test]
fn condition_collection_lookups() {
    let collection = ConditionCollection(vec![
        condition("a", ConditionKind::RelayStateIs, "relay0", relay_on()),
        condition("b", ConditionKind::RelayStateIs, "relay1", relay_on()),
        condition("c", ConditionKind::RelayStateIs, "relay0", relay_on()),
    ]);
    let for_relay0 = collection.filter_for_device("relay0");
    assert_eq!(for_relay0.0.len(), 2);
    assert_eq!(for_relay0.0[0].id, "a");
    assert_eq!(for_relay0.0[1].id, "c");
    let found = for_relay0.find_by_id("c").unwrap();
    assert_eq!(found.device_id, "relay0");
    assert_eq!(found.clone_condition().id, "c");
    let collection = ConditionCollection(vec![condition("a", ConditionKind::PVIsAround, "omega1", relay_on())]);
    assert!(collection.find_by_id("z").is_none());
    assert_eq!(ConditionKind::PVIsAround.name(), "PVIsAround");
}

#[test]
fn rtu_device_lookup_borrows_mutably() {
    let mut rtu = rtu(devices());
    {
        let dev = rtu.device("relay1").unwrap();
        dev.state.relay_state = Some(BinaryState::On);
    }
    assert_eq!(rtu.devices[1].state.relay_state, Some(BinaryState::On));
    assert!(rtu.device("nothing").is_none());
}

#[test]
fn retries_follow_the_configuration() {
    let dev = device("relay0", Controller::STR1, 9600);
    assert_eq!(dev.total_attempts(), 3);
    assert_eq!(dev.after_attempt(1, true), RetryStep::Finished);
    assert_eq!(dev.after_attempt(1, false), RetryStep::Retry { delay_ms: 200 });
    assert_eq!(dev.after_attempt(2, false), RetryStep::Retry { delay_ms: 200 });
    assert_eq!(dev.after_attempt(3, false), RetryStep::GiveUp);
    assert_eq!(dev.after_attempt(3, true), RetryStep::Finished);
}

#[test]
fn validate_all_collects_errors() {
    let mut rtu = rtu(devices());
    let conditions = ConditionCollection(vec![
        condition("relay-on", ConditionKind::RelayStateIs, "relay0", relay_on()),
    ]);
    let good = RuleSet(vec![rule("turn-on", "relay-on", vec![("relay1", relay_on())])]);
    assert!(validate_all(&mut rtu, &conditions, &good).is_ok());
    assert!(all_rule_validators(&good, &conditions, &mut rtu).is_ok());

    let bad = RuleSet(vec![
        rule("missing-condition", "nope", vec![("relay1", relay_on())]),
        rule("self-trigger", "relay-on", vec![("relay0", relay_on())]),
    ]);
    let errors = validate_all(&mut rtu, &conditions, &bad).unwrap_err();
    assert!(errors.len() >= 2);
    for e in &errors {
        assert!(matches!(e, BrewError::ValidationError(_)));
    }
    assert_eq!(rtu.devices.len(), 3);
}

#[test]
fn resultant_devices_stop_at_the_first_missing_device() {
    let ids: Vec<String> = vec![String::from("relay0"), String::from("relay1"), String::from("omega1")];
    let all_found = rule("r", "c", vec![("relay1", relay_on()), ("relay0", relay_on())]);
    let (indices, missing) = all_found.resultant_devices(&ids);
    assert_eq!(indices, vec![1, 0]);
    assert!(missing.is_none());

    let broken = rule("r", "c", vec![("omega1", relay_on()), ("pump", relay_on()), ("relay0", relay_on())]);
    let (indices, missing) = broken.resultant_devices(&ids);
    assert_eq!(indices, vec![2]);
    match missing {
        Some(BrewError::RuleError(msg)) => assert_eq!(
            msg,
            "device `pump` was not found in the collection, and it is needed to set a new state because a rule (`r`) was triggered"
        ),
        other => panic!("unexpected {:?}", other),
    }
}

#[test]
fn rule_step_follows_the_evaluation() {
    let r = rule("r", "c", vec![("relay1", relay_on())]);
    assert_eq!(r.after_evaluation(&Ok(true)), RuleStep::ApplySets);
    assert_eq!(r.after_evaluation(&Ok(false)), RuleStep::Finish);
    assert_eq!(r.after_evaluation(&Err(BrewError::ConditionError(String::from("x")))), RuleStep::Fail);
}

#[test]
fn around_condition_without_target_is_an_error() {
    let mut omega = device("omega1", Controller::CN7500, 19200);
    let around = condition("around", ConditionKind::PVIsAround, "omega1", empty_state());
    match around.evaluation(&omega) {
        Err(BrewError::ConditionError(msg)) => assert_eq!(
            msg,
            "when evaluating condition `around`, missing target value `pv` which should be provided by device `omega1`"
        ),
        other => panic!("unexpected {:?}", other),
    }
    omega.state.pv = Some(20.0f64.to_bits());
    match around.evaluation(&omega) {
        Err(BrewError::ConditionError(msg)) => {
            assert_eq!(msg, "condition `around` is missing target value `pv`")
        }
        other => panic!("unexpected {:?}", other),
    }
}
