use smart_home_agent::action::{
    characteristic_name, clamp_brightness, command_for, is_on_word, kitchen_actions, kitchen_lights,
    plan_actions, plan_step, set_brightness, turn_off, turn_on, typed_action, ActionKind,
    Characteristic, ControlRequest, PlannedAction,
};
use smart_home_agent::catalog::{device_list, is_controllable, status_of, Accessory, DeviceStatus, Reading};
use smart_home_agent::credentials::{
    credentials_from_store, decode_secret_field, explicit_credentials, Credentials, SecretFields,
};
use smart_home_agent::error::ErrorKind;
use smart_home_agent::planner::{system_prompt, PROMPT_HEAD, PROMPT_TAIL};
use smart_home_agent::resolve::{find_device, resolve_folded, Resolution};
use smart_home_agent::text::{contains_chars, same_chars};

fn device(id: &str, name: &str, kind: &str) -> Accessory {
    Accessory {
        id: id.to_string(),
        name: name.to_string(),
        kind: kind.to_string(),
        display_kind: None,
        state: Vec::new(),
    }
}

fn lights(names: &[&str]) -> Vec<Accessory> {
    names
        .iter()
        .enumerate()
        .map(|(i, n)| device(&format!("id{}", i), n, "Lightbulb"))
        .collect()
}

fn planned(device: &str, action: &str, brightness: Option<u8>) -> PlannedAction {
    PlannedAction { device: device.to_string(), action: action.to_string(), brightness }
}

fn chars(s: &str) -> Vec<char> {
    s.chars().collect()
}

#[test]
fn clamp_keeps_levels_up_to_one_hundred() {
    assert_eq!(clamp_brightness(150), 100);
    assert_eq!(clamp_brightness(50), 50);
    assert_eq!(clamp_brightness(0), 0);
    assert_eq!(clamp_brightness(100), 100);
    assert_eq!(clamp_brightness(255), 100);
}

#[test]
fn brightness_over_range_is_clamped_before_the_call() {
    let catalog = lights(&["Office Lamp", "Hall"]);
    let r = set_brightness(&catalog, "Office Lamp", 150).unwrap();
    assert_eq!(r, ControlRequest { device: 0, characteristic: Characteristic::Brightness, value: 100 });
}

#[test]
fn exact_match_beats_partial_matches() {
    let catalog = lights(&["Lamp Desk", "Lamp", "Floor Lamp"]);
    assert_eq!(find_device(&catalog, "LAMP"), Resolution::Found(1));
}

#[test]
fn single_partial_match_is_found() {
    let catalog = lights(&["Office Lamp", "Kitchen"]);
    assert_eq!(find_device(&catalog, "office"), Resolution::Found(0));
}

#[test]
fn query_case_is_ignored() {
    let catalog = lights(&["kitchen light"]);
    assert_eq!(find_device(&catalog, "KITCHEN"), Resolution::Found(0));
    assert_eq!(find_device(&catalog, "Kitchen Light"), Resolution::Found(0));
}

#[test]
fn several_partial_matches_are_ambiguous() {
    let catalog = lights(&["Kitchen Light 1", "Hall", "Kitchen Light 2"]);
    let r = find_device(&catalog, "kitchen");
    assert_eq!(r, Resolution::Ambiguous(vec![0, 2]));
    assert!(!r.is_found());
}

#[test]
fn no_match_is_not_found() {
    let catalog = lights(&["Office Lamp"]);
    assert_eq!(find_device(&catalog, "garage"), Resolution::NotFound);
    assert_eq!(find_device(&Vec::new(), "garage"), Resolution::NotFound);
}

#[test]
fn two_equal_names_are_ambiguous() {
    let catalog = lights(&["Lamp", "lamp"]);
    assert_eq!(find_device(&catalog, "Lamp"), Resolution::Ambiguous(vec![0, 1]));
}

#[test]
fn empty_query_matches_a_single_device() {
    let catalog = lights(&["Lamp"]);
    assert_eq!(find_device(&catalog, ""), Resolution::Found(0));
}

#[test]
fn resolve_on_folded_keys() {
    let keys = vec![chars("office lamp"), chars("lamp")];
    assert_eq!(resolve_folded(&keys, &chars("lamp")), Resolution::Found(1));
    assert_eq!(resolve_folded(&keys, &chars("office")), Resolution::Found(0));
    assert_eq!(resolve_folded(&keys, &chars("am")), Resolution::Ambiguous(vec![0, 1]));
    assert_eq!(resolve_folded(&keys, &chars("LAMP")), Resolution::NotFound);
}

#[test]
fn substring_and_equality_of_chars() {
    assert!(contains_chars(&chars("kitchen light"), &chars("en li")));
    assert!(contains_chars(&chars("abc"), &chars("")));
    assert!(!contains_chars(&chars("ab"), &chars("abc")));
    assert!(!contains_chars(&chars("abc"), &chars("ac")));
    assert!(same_chars(&chars("abc"), &chars("abc")));
    assert!(!same_chars(&chars("abc"), &chars("abd")));
}

#[test]
fn switching_writes_power_state() {
    let catalog = vec![device("a", "Fan", "Switch"), device("b", "Desk", "Outlet")];
    assert_eq!(
        turn_on(&catalog, "fan").unwrap(),
        ControlRequest { device: 0, characteristic: Characteristic::On, value: 1 }
    );
    assert_eq!(
        turn_off(&catalog, "desk").unwrap(),
        ControlRequest { device: 1, characteristic: Characteristic::On, value: 0 }
    );
    assert_eq!(command_for(ActionKind::TurnOn), (Characteristic::On, 1));
    assert_eq!(command_for(ActionKind::TurnOff), (Characteristic::On, 0));
    assert_eq!(command_for(ActionKind::SetBrightness(30)), (Characteristic::Brightness, 30));
}

#[test]
fn unresolved_device_names_the_query() {
    let catalog = lights(&["Office Lamp"]);
    let e = turn_on(&catalog, "garage").unwrap_err();
    assert_eq!(e.kind, ErrorKind::DeviceNotFound);
    assert_eq!(e.detail, "garage");
}

#[test]
fn unknown_kind_stops_the_run() {
    let catalog = lights(&["Office Lamp", "Hall"]);
    let raws = vec![
        planned("office lamp", "on", None),
        planned("hall", "dim", None),
        planned("hall", "off", None),
    ];
    let plan = plan_actions(&catalog, &raws);
    assert_eq!(plan.requests, vec![ControlRequest { device: 0, characteristic: Characteristic::On, value: 1 }]);
    let e = plan.failure.unwrap();
    assert_eq!(e.kind, ErrorKind::UnknownActionKind);
    assert_eq!(e.detail, "dim");
}

#[test]
fn brightness_without_level_is_missing_field() {
    let e = typed_action(&planned("hall", "brightness", None)).unwrap_err();
    assert_eq!(e.kind, ErrorKind::MissingRequiredField);
    let a = typed_action(&planned("hall", "brightness", Some(40))).unwrap();
    assert_eq!(a.kind, ActionKind::SetBrightness(40));
    assert_eq!(a.device, "hall");
}

#[test]
fn kitchen_order_as_two_actions() {
    let catalog = lights(&["Kitchen Light 1", "Kitchen Light 2"]);
    let raws = vec![planned("Kitchen Light 1", "on", None), planned("Kitchen Light 2", "on", None)];
    let plan = plan_actions(&catalog, &raws);
    assert_eq!(
        plan.requests,
        vec![
            ControlRequest { device: 0, characteristic: Characteristic::On, value: 1 },
            ControlRequest { device: 1, characteristic: Characteristic::On, value: 1 },
        ]
    );
    assert!(plan.failure.is_none());
}

#[test]
fn kitchen_order_as_one_ambiguous_action() {
    let catalog = lights(&["Kitchen Light 1", "Kitchen Light 2"]);
    let plan = plan_actions(&catalog, &vec![planned("kitchen", "on", None)]);
    assert!(plan.requests.is_empty());
    let e = plan.failure.unwrap();
    assert_eq!(e.kind, ErrorKind::DeviceNotFound);
    assert_eq!(e.detail, "kitchen");
}

#[test]
fn plan_step_clamps_planned_brightness() {
    let catalog = lights(&["Office Lamp"]);
    let r = plan_step(&catalog, &planned("office", "brightness", Some(200))).unwrap();
    assert_eq!(r.value, 100);
    assert_eq!(r.characteristic, Characteristic::Brightness);
}

#[test]
fn kitchen_lights_follow_the_state_word() {
    let catalog = lights(&["Kuechentisch Licht 1", "Kuechentisch Licht 2"]);
    let on = kitchen_lights(&catalog, "EIN");
    assert_eq!(on.requests.len(), 2);
    assert!(on.requests.iter().all(|r| r.value == 1 && r.characteristic == Characteristic::On));
    let off = kitchen_lights(&catalog, "aus");
    assert_eq!(off.requests[1], ControlRequest { device: 1, characteristic: Characteristic::On, value: 0 });
    let missing = kitchen_lights(&lights(&["Kuechentisch Licht 1"]), "on");
    assert_eq!(missing.requests.len(), 1);
    assert_eq!(missing.failure.unwrap().kind, ErrorKind::DeviceNotFound);
}

#[test]
fn state_words() {
    assert!(is_on_word(&chars("on")));
    assert!(is_on_word(&chars("ein")));
    assert!(is_on_word(&chars("1")));
    assert!(is_on_word(&chars("true")));
    assert!(!is_on_word(&chars("off")));
    let a = kitchen_actions("True");
    assert_eq!(a[0].device, "kuechentisch licht 1");
    assert_eq!(a[1].kind, ActionKind::TurnOn);
}

#[test]
fn controllable_names_are_joined() {
    let catalog = vec![
        device("a", "Ceiling", "Lightbulb"),
        device("b", "Sensor", "TemperatureSensor"),
        device("c", "Fan", "Switch"),
        device("d", "Plug", "Outlet"),
    ];
    assert_eq!(device_list(&catalog), "Ceiling, Fan, Plug");
    assert!(!is_controllable(&catalog[1]));
    assert_eq!(device_list(&Vec::new()), "");
}

#[test]
fn status_reads_first_values() {
    let mut a = device("a", "Lamp", "Lightbulb");
    a.state = vec![Reading::Unrecognized, Reading::Brightness(Some(40)), Reading::Power(true), Reading::Power(false)];
    assert_eq!(status_of(&a), DeviceStatus { power: Some(true), brightness: Some(40) });
    a.state = vec![Reading::Brightness(None)];
    assert_eq!(status_of(&a), DeviceStatus { power: None, brightness: None });
}

#[test]
fn characteristic_names() {
    assert_eq!(characteristic_name(Characteristic::On), "On");
    assert_eq!(characteristic_name(Characteristic::Brightness), "Brightness");
}

#[test]
fn prompt_holds_the_device_list() {
    let p = system_prompt("Lamp, Fan");
    assert_eq!(p, format!("{}Lamp, Fan{}", PROMPT_HEAD, PROMPT_TAIL));
    assert!(p.contains("Available devices: Lamp, Fan\n"));
}

#[test]
fn explicit_credentials_need_both_parts() {
    assert_eq!(
        explicit_credentials(Some("u".to_string()), Some("p".to_string())),
        Some(Credentials { username: "u".to_string(), password: "p".to_string() })
    );
    assert_eq!(explicit_credentials(Some("u".to_string()), None), None);
}

#[test]
fn failed_store_lookup_is_credential_failure() {
    let e = credentials_from_store(Err("kubectl command failed".to_string())).unwrap_err();
    assert_eq!(e.kind, ErrorKind::CredentialResolutionFailure);
    assert_eq!(e.detail, "kubectl command failed");
}

#[test]
fn store_fields_are_decoded() {
    let fields = SecretFields { username: Some("YWRtaW4=".to_string()), password: Some("c2VjcmV0".to_string()) };
    assert_eq!(
        credentials_from_store(Ok(fields)).unwrap(),
        Credentials { username: "admin".to_string(), password: "secret".to_string() }
    );
    let missing = SecretFields { username: Some("YWRtaW4=".to_string()), password: None };
    assert_eq!(credentials_from_store(Ok(missing)).unwrap_err().kind, ErrorKind::CredentialResolutionFailure);
}

#[test]
fn secret_field_decoding() {
    assert_eq!(decode_secret_field("aGk=").unwrap(), "hi");
    assert_eq!(decode_secret_field("!!!").unwrap_err().kind, ErrorKind::CredentialResolutionFailure);
    assert_eq!(decode_secret_field("/w==").unwrap_err().kind, ErrorKind::CredentialResolutionFailure);
}
