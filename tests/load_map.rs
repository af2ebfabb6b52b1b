use hems_core::composer::{
    target_soc_value, switch_value, BatteryEntityParams, CurtEntityParams, DhwEntityParams,
    EntityKind, HeatSourceEntityParams, HostEntityParams, SolarEntityParams, SunEntityParams,
    WeatherEntityParams,
};
use hems_core::error::ApiError;
use hems_core::hub::{service_domain, switch_service};
use hems_core::load_map::{entity_consumption, init_load_map, register_override, EntityRequest};
use hems_core::naming::{entity_name, house_name};
use hems_core::text::{decimal_text, same_text, signed_decimal_text};

fn request(id: &str, consumption: &str) -> EntityRequest {
    EntityRequest { entity_id: id.to_string(), consumption: consumption.to_string() }
}

#[test]
fn empty_table_has_no_override() {
    let map = init_load_map();
    assert!(map.get("switch.kettle").is_none());
}

#[test]
fn registered_override_is_reported_while_on() {
    let mut map = init_load_map();
    register_override(&mut map, request("switch.kettle", "2000"));
    let on = entity_consumption(&map, "switch.kettle", "on".to_string(), false).ok().unwrap();
    assert_eq!(on.entity_id, "switch.kettle");
    assert_eq!(on.consumption, "2000");
    let off = entity_consumption(&map, "switch.kettle", "off".to_string(), false).ok().unwrap();
    assert_eq!(off.consumption, "0");
}

#[test]
fn minus_one_registers_nothing() {
    let mut map = init_load_map();
    register_override(&mut map, request("switch.kettle", "-1"));
    assert!(map.get("switch.kettle").is_none());
}

#[test]
fn later_registration_wins() {
    let mut map = init_load_map();
    register_override(&mut map, request("a", "1"));
    register_override(&mut map, request("b", "2"));
    register_override(&mut map, request("a", "3"));
    assert_eq!(map.get("a").unwrap(), "3");
    assert_eq!(map.get("b").unwrap(), "2");
}

#[test]
fn entity_without_override_reports_numeric_state() {
    let map = init_load_map();
    let st = entity_consumption(&map, "sensor.power", "12.5".to_string(), true).ok().unwrap();
    assert_eq!(st.consumption, "12.5");
    assert!(matches!(
        entity_consumption(&map, "sensor.power", "on".to_string(), false),
        Err(ApiError::LoadMap(_))
    ));
}

#[test]
fn service_domains() {
    assert_eq!(service_domain("light.kitchen"), "light");
    assert_eq!(service_domain("a.b.c"), "a");
    assert_eq!(service_domain("plain"), "plain");
    assert_eq!(service_domain(""), "");
    assert_eq!(switch_service(true), "turn_on");
    assert_eq!(switch_service(false), "turn_off");
}

#[test]
fn entity_names() {
    assert_eq!(entity_name("SmartMeter", 12), "SmartMeter-House-12");
    assert_eq!(house_name(0), "House-0");
    assert_eq!(HostEntityParams::for_house(5).name, "House-5");
    assert_eq!(WeatherEntityParams::for_house(5).name, "Weather-House-5");
    assert_eq!(SunEntityParams::for_house(5).name, "Sun-House-5");
    assert_eq!(BatteryEntityParams::for_house(5).name, "Battery-House-5");
    assert_eq!(SolarEntityParams::for_house(5).name, "PV-House-5");
    assert_eq!(DhwEntityParams { name: "DomesticHotWater".to_string() }.in_house(2).name, "DomesticHotWater-House-2");
    assert_eq!(HeatSourceEntityParams { name: "HeatPump".to_string() }.in_house(2).name, "HeatPump-House-2");
    let curt = CurtEntityParams {
        name: "Load".to_string(),
        filename: "a.csv".to_string(),
        filename_reactive: "b.csv".to_string(),
        column: 2,
        time_base: 60,
    }
    .in_house(2);
    assert_eq!(curt.name, "Load-House-2");
    assert_eq!(curt.filename, "a.csv");
    assert_eq!(curt.column, 2);
    assert_eq!(curt.time_base, 60);
}

#[test]
fn entity_labels() {
    assert_eq!(EntityKind::Host.label(), "host");
    assert_eq!(EntityKind::TimeShifter.label(), "timeshiftable");
    assert_eq!(EntityKind::Solar.label(), "solar_panel");
    assert_eq!(EntityKind::HeatPump.label(), "heat_pump");
}

#[test]
fn setter_values() {
    assert_eq!(target_soc_value(Some(80)), "80");
    assert_eq!(target_soc_value(None), "None");
    assert_eq!(switch_value(true), "True");
    assert_eq!(switch_value(false), "False");
}

#[test]
fn decimal_texts() {
    assert_eq!(decimal_text(0), "0");
    assert_eq!(decimal_text(10), "10");
    assert_eq!(decimal_text(u64::MAX), "18446744073709551615");
    assert_eq!(signed_decimal_text(-7), "-7");
    assert_eq!(signed_decimal_text(i64::MIN), "-9223372036854775808");
    assert!(same_text("abc", "abc"));
    assert!(!same_text("abc", "abd"));
    assert!(!same_text("ab", "abc"));
}
