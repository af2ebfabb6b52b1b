//! The simulation composer's entities: their parameters as far as they are plain values,
//! their type names, and the values written into the backend's setters.

use vstd::prelude::*;

use crate::naming::{entity_name, host_name, house_entity_name, house_name};
use crate::text::{decimal, decimal_text};

verus! {

pub struct HostEntityParams {
    pub name: String,
}

pub struct WeatherEntityParams {
    pub name: String,
}

pub struct SunEntityParams {
    pub name: String,
}

pub struct BatteryEntityParams {
    pub name: String,
}

pub struct SolarEntityParams {
    pub name: String,
}

pub struct CurtEntityParams {
    pub name: String,
    pub filename: String,
    pub filename_reactive: String,
    pub column: u64,
    pub time_base: u64,
}

pub struct DhwEntityParams {
    pub name: String,
}

pub struct HeatSourceEntityParams {
    pub name: String,
}

impl HostEntityParams {
    /// The host entity of house `house_id`.
    pub fn for_house(house_id: u32) -> (r: Self)
        ensures
            r.name@ == host_name(house_id as nat),
    {
        HostEntityParams { name: house_name(house_id) }
    }
}

impl WeatherEntityParams {
    /// The weather entity of house `house_id`.
    pub fn for_house(house_id: u32) -> (r: Self)
        ensures
            r.name@ == house_entity_name("Weather"@, house_id as nat),
    {
        WeatherEntityParams { name: entity_name("Weather", house_id) }
    }
}

impl SunEntityParams {
    /// The sun entity of house `house_id`.
    pub fn for_house(house_id: u32) -> (r: Self)
        ensures
            r.name@ == house_entity_name("Sun"@, house_id as nat),
    {
        SunEntityParams { name: entity_name("Sun", house_id) }
    }
}

impl BatteryEntityParams {
    /// The battery entity of house `house_id`.
    pub fn for_house(house_id: u32) -> (r: Self)
        ensures
            r.name@ == house_entity_name("Battery"@, house_id as nat),
    {
        BatteryEntityParams { name: entity_name("Battery", house_id) }
    }
}

impl SolarEntityParams {
    /// The solar panel entity of house `house_id`.
    pub fn for_house(house_id: u32) -> (r: Self)
        ensures
            r.name@ == house_entity_name("PV"@, house_id as nat),
    {
        SolarEntityParams { name: entity_name("PV", house_id) }
    }
}

impl CurtEntityParams {
    /// These parameters for the entity of house `house_id`: the name gets the house suffix.
    pub fn in_house(self, house_id: u32) -> (r: Self)
        ensures
            r.name@ == house_entity_name(self.name@, house_id as nat),
            r.filename == self.filename,
            r.filename_reactive == self.filename_reactive,
            r.column == self.column,
            r.time_base == self.time_base,
    {
        CurtEntityParams {
            name: entity_name(self.name.as_str(), house_id),
            filename: self.filename,
            filename_reactive: self.filename_reactive,
            column: self.column,
            time_base: self.time_base,
        }
    }
}

impl DhwEntityParams {
    /// These parameters for the entity of house `house_id`: the name gets the house suffix.
    pub fn in_house(self, house_id: u32) -> (r: Self)
        ensures
            r.name@ == house_entity_name(self.name@, house_id as nat),
    {
        DhwEntityParams { name: entity_name(self.name.as_str(), house_id) }
    }
}

impl HeatSourceEntityParams {
    /// These parameters for the entity of house `house_id`: the name gets the house suffix.
    pub fn in_house(self, house_id: u32) -> (r: Self)
        ensures
            r.name@ == house_entity_name(self.name@, house_id as nat),
    {
        HeatSourceEntityParams { name: entity_name(self.name.as_str(), house_id) }
    }
}

/// The kinds of entity that the composer builds.
#[derive(PartialEq, Eq, Structural, Clone, Copy, Debug)]
pub enum EntityKind {
    Host,
    Weather,
    Sun,
    TimeShifter,
    Battery,
    Solar,
    Curt,
    Zone,
    Meter,
    Thermostat,
    Dhw,
    HeatSource,
    HeatPump,
}

/// The composer's type name of each kind.
pub open spec fn kind_label(k: EntityKind) -> Seq<char> {
    match k {
        EntityKind::Host => "host"@,
        EntityKind::Weather => "weather"@,
        EntityKind::Sun => "sun"@,
        EntityKind::TimeShifter => "timeshiftable"@,
        EntityKind::Battery => "battery"@,
        EntityKind::Solar => "solar_panel"@,
        EntityKind::Curt => "curt"@,
        EntityKind::Zone => "zone"@,
        EntityKind::Meter => "meter"@,
        EntityKind::Thermostat => "thermostat"@,
        EntityKind::Dhw => "dhw"@,
        EntityKind::HeatSource => "heat_source"@,
        EntityKind::HeatPump => "heat_pump"@,
    }
}

impl EntityKind {
    /// The composer's type name of this kind.
    pub fn label(&self) -> (r: &'static str)
        ensures
            r@ == kind_label(*self),
    {
        match self {
            EntityKind::Host => "host",
            EntityKind::Weather => "weather",
            EntityKind::Sun => "sun",
            EntityKind::TimeShifter => "timeshiftable",
            EntityKind::Battery => "battery",
            EntityKind::Solar => "solar_panel",
            EntityKind::Curt => "curt",
            EntityKind::Zone => "zone",
            EntityKind::Meter => "meter",
            EntityKind::Thermostat => "thermostat",
            EntityKind::Dhw => "dhw",
            EntityKind::HeatSource => "heat_source",
            EntityKind::HeatPump => "heat_pump",
        }
    }
}

/// The value written as a battery's target state of charge: its percentage, or `None`
/// to clear it.
pub fn target_soc_value(soc: Option<u32>) -> (r: String)
    ensures
        soc matches Some(p) ==> r@ == decimal(p as nat),
        soc is None ==> r@ == "None"@,
{
    match soc {
        Some(p) => decimal_text(p as u64),
        None => String::from_str("None"),
    }
}

/// The value written as an on/off switch.
pub fn switch_value(on: bool) -> (r: &'static str)
    ensures
        on ==> r@ == "True"@,
        !on ==> r@ == "False"@,
{
    if on {
        "True"
    } else {
        "False"
    }
}

} // verus!
