//! Tests of the deterministic weather window, the weather-table selection
//! and the unlock-bitmap addressing.

use kawari::common::{calculate_target, select_weather, value_to_flag_byte_index_value};
use kawari::gamedata::{GameData, ZoneWeatherRates};

#[test]
fn weather_target_is_pure() {
    let a = calculate_target(1700000000);
    let b = calculate_target(1700000000);
    assert_eq!(a, b);
}

#[test]
fn weather_target_exact_values() {
    assert_eq!(calculate_target(0), 56);
    assert_eq!(calculate_target(1000000), 96);
    assert_eq!(calculate_target(1700000000), 29);
}

#[test]
fn weather_selection_takes_first_exceeding_threshold() {
    let rates = vec![(7i32, 25i32), (2, 70), (9, 100)];
    assert_eq!(select_weather(&rates, 10), Some(7));
    assert_eq!(select_weather(&rates, 25), Some(2));
    assert_eq!(select_weather(&rates, 69), Some(2));
    assert_eq!(select_weather(&rates, 99), Some(9));
    assert_eq!(select_weather(&rates, 100), None);
    assert_eq!(select_weather(&Vec::new(), 0), None);
}

#[test]
fn zone_weather_is_deterministic() {
    let mut gd = GameData::default();
    gd.weather.push(ZoneWeatherRates { zone_id: 100, rates: vec![(3, 50), (4, 100)] });
    let first = gd.get_weather(100, 1700000000);
    let second = gd.get_weather(100, 1700000000);
    assert_eq!(first, second);
    assert!(first.is_some());
    assert_eq!(gd.get_weather(101, 1700000000), None);
}

#[test]
fn unlock_split_values() {
    assert_eq!(value_to_flag_byte_index_value(0), (1, 0));
    assert_eq!(value_to_flag_byte_index_value(1), (2, 0));
    assert_eq!(value_to_flag_byte_index_value(7), (128, 0));
    assert_eq!(value_to_flag_byte_index_value(9), (2, 1));
    assert_eq!(value_to_flag_byte_index_value(511), (128, 63));
}

#[test]
fn unlock_split_recombines_to_id() {
    for id in 0u32..512 {
        let (value, index) = value_to_flag_byte_index_value(id);
        let bit = value.trailing_zeros();
        assert_eq!(index as u32 * 8 + bit, id);
    }
}

#[test]
fn unlock_set_then_toggle_restores_bitmap() {
    let mut bitmap = vec![0u8; 64];
    let original = bitmap.clone();
    let (value, index) = value_to_flag_byte_index_value(42);
    bitmap[index as usize] |= value;
    assert_ne!(bitmap, original);
    bitmap[index as usize] ^= value;
    assert_eq!(bitmap, original);
}
