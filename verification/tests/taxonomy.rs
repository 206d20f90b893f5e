use embassy_ha::constants;
use embassy_ha::entity::{EntityCommonConfig, EntityConfig, EntityStorage};
use embassy_ha::entity_number::NumberConfig;
use embassy_ha::entity_sensor::{StateClass, TemperatureSensorConfig};
use embassy_ha::unit::{
    BatteryUnit, EnergyUnit, HumidityUnit, LightUnit, PressureUnit, TemperatureUnit,
};

#[test]
fn temperature_unit_tokens() {
    assert_eq!(TemperatureUnit::Celcius.as_str(), "C");
    assert_eq!(TemperatureUnit::Kelvin.as_str(), "k");
    assert_eq!(TemperatureUnit::Fahrenheit.as_str(), "F");
}

#[test]
fn temperature_unit_other_is_passed_through() {
    assert_eq!(TemperatureUnit::Other("mK").as_str(), "mK");
    assert_eq!(TemperatureUnit::Other("").as_str(), "");
    assert_eq!(TemperatureUnit::Other("°R").as_str(), "°R");
}

#[test]
fn state_class_tokens() {
    assert_eq!(StateClass::Measurement.as_str(), "measurement");
    assert_eq!(StateClass::Total.as_str(), "total");
    assert_eq!(StateClass::TotalIncreasing.as_str(), "total_increasing");
}

#[test]
fn state_class_defaults_to_measurement() {
    assert_eq!(StateClass::default(), StateClass::Measurement);
}

#[test]
fn units_compare_by_variant_and_text() {
    assert_eq!(TemperatureUnit::Celcius, TemperatureUnit::Celcius);
    assert_ne!(TemperatureUnit::Celcius, TemperatureUnit::Kelvin);
    assert_eq!(TemperatureUnit::Other("x"), TemperatureUnit::Other("x"));
    assert_ne!(TemperatureUnit::Other("x"), TemperatureUnit::Other("y"));
    assert_eq!(HumidityUnit::Percentage, HumidityUnit::Percentage);
    assert_ne!(HumidityUnit::Percentage, HumidityUnit::Other("g/m3"));
    assert_eq!(BatteryUnit::Percentage, BatteryUnit::Percentage);
    assert_eq!(LightUnit::Lux, LightUnit::Lux);
    assert_eq!(PressureUnit::HectoPascal, PressureUnit::HectoPascal);
    assert_eq!(EnergyUnit::KiloWattHour, EnergyUnit::KiloWattHour);
}

#[test]
fn constants_are_the_hub_tokens() {
    assert_eq!(constants::HA_DISCOVERY_PREFIX, "homeassistant");
    assert_eq!(constants::HA_DOMAIN_SENSOR, "sensor");
    assert_eq!(constants::HA_DOMAIN_NUMBER, "number");
    assert_eq!(constants::HA_DEVICE_CLASS_SENSOR_TEMPERATURE, "temperature");
}

#[test]
fn blank_config_has_only_the_id() {
    let config = EntityConfig::new("probe");
    assert_eq!(config.id, "probe");
    assert_eq!(config.name, "");
    assert_eq!(config.domain, "");
    assert_eq!(config.device_class, None);
    assert_eq!(config.measurement_unit, None);
    assert_eq!(config.state_class, None);
}

#[test]
fn common_config_fills_in_the_name_only() {
    let mut config = EntityConfig::new("probe");
    config.domain = "switch";
    config.state_class = Some("total");
    EntityCommonConfig { name: "Probe" }.populate(&mut config);
    assert_eq!(config.id, "probe");
    assert_eq!(config.name, "Probe");
    assert_eq!(config.domain, "switch");
    assert_eq!(config.state_class, Some("total"));
}

#[test]
fn temperature_sensor_config_populates_metadata() {
    let mut config = EntityConfig::new("probe");
    config.state_class = Some(StateClass::Measurement.as_str());
    let sensor = TemperatureSensorConfig {
        common: EntityCommonConfig { name: "Probe" },
        unit: TemperatureUnit::Fahrenheit,
    };
    sensor.populate(&mut config);
    assert_eq!(config.id, "probe");
    assert_eq!(config.name, "Probe");
    assert_eq!(config.domain, "sensor");
    assert_eq!(config.device_class, Some("temperature"));
    assert_eq!(config.measurement_unit, Some("F"));
    assert_eq!(config.state_class, Some("measurement"));
}

#[test]
fn temperature_sensor_config_overwrites_earlier_metadata() {
    let mut config = EntityConfig::new("probe");
    config.domain = "number";
    config.device_class = Some("humidity");
    config.measurement_unit = Some("%");
    let sensor = TemperatureSensorConfig {
        common: EntityCommonConfig { name: "Probe" },
        unit: TemperatureUnit::Other("mK"),
    };
    sensor.populate(&mut config);
    assert_eq!(config.domain, "sensor");
    assert_eq!(config.device_class, Some("temperature"));
    assert_eq!(config.measurement_unit, Some("mK"));
}

#[test]
fn number_config_populates_metadata() {
    let mut config = EntityConfig::new("dial");
    NumberConfig { common: EntityCommonConfig { name: "Dial" } }.populate(&mut config);
    assert_eq!(config.id, "dial");
    assert_eq!(config.name, "Dial");
    assert_eq!(config.domain, "number");
    assert_eq!(config.device_class, None);
    assert_eq!(config.measurement_unit, None);
}

#[test]
fn fresh_storage_is_empty() {
    let sensor = EntityStorage::numeric_sensor().as_numeric_sensor();
    assert_eq!(sensor.state, None);
    let number = EntityStorage::number().as_number();
    assert_eq!(number.state, None);
    assert_eq!(number.command, None);
    assert_eq!(number.waiter, None);
}

#[test]
fn replace_state_reports_change_by_bits() {
    let mut storage = EntityStorage::numeric_sensor();
    assert!(storage.replace_state(7, 100));
    assert!(!storage.replace_state(7, 101));
    let state = storage.as_numeric_sensor().state.unwrap();
    assert_eq!(state.value, 7);
    assert_eq!(state.timestamp, 101);
    assert!(storage.replace_state(8, 102));
    assert!(storage.replace_state(7, 103));
}

#[test]
fn replace_state_tells_zero_from_negative_zero() {
    let mut storage = EntityStorage::numeric_sensor();
    assert!(storage.replace_state(0.0f32.to_bits(), 1));
    assert!(storage.replace_state((-0.0f32).to_bits(), 2));
    assert!(!storage.replace_state((-0.0f32).to_bits(), 3));
}

#[test]
fn replace_state_keeps_a_numbers_command_and_waiter() {
    let mut storage = EntityStorage::number();
    assert!(storage.replace_state(3, 10));
    let number = storage.as_number();
    assert_eq!(number.state.unwrap().value, 3);
    assert_eq!(number.state.unwrap().timestamp, 10);
    assert_eq!(number.command, None);
    assert_eq!(number.waiter, None);
}

#[test]
fn current_value_reads_the_state_of_either_kind() {
    let mut sensor = EntityStorage::numeric_sensor();
    assert_eq!(sensor.current_value(), None);
    sensor.replace_state(12, 1);
    assert_eq!(sensor.current_value(), Some(12));
    let mut number = EntityStorage::number();
    assert_eq!(number.current_value(), None);
    number.replace_state(0, 1);
    assert_eq!(number.current_value(), Some(0));
}
