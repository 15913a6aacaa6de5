use lambda_telemetry::mapper::map_to_temperature;
use lambda_telemetry::model_iobroker::{IoBrokerValue, RawMapping};
use lambda_telemetry::model_temperature::TemperatureData;

fn reading(val: &str) -> IoBrokerValue {
    IoBrokerValue {
        val: val.to_string(),
        ack: true,
        ts: 0,
        q: 0,
        from: String::new(),
        user: String::new(),
        lc: 0,
    }
}

fn mapping(entries: &[(&str, &str)]) -> RawMapping {
    let mut m = RawMapping::new();
    for (k, v) in entries {
        m.insert(k.to_string(), reading(v));
    }
    m
}

#[test]
fn extraction_keeps_only_parsable_temperature_entries() {
    // One JSON entry with a numeric temperature, one empty value, one
    // non-JSON value: exactly the first survives, with the device tag taken
    // from the second underscore-separated segment of its key.
    let m = mapping(&[
        ("mqtt.0.adfhome.Temperatur_Bad", "{\"temperature\":21.5}"),
        ("mqtt.0.adfhome.Temperatur_Kueche", ""),
        ("x_y", "not json"),
    ]);
    let records = map_to_temperature(&m);
    assert_eq!(
        records,
        vec![TemperatureData { device: "Bad".to_string(), value: "21.5".to_string() }]
    );
}

#[test]
fn extraction_skips_null_missing_and_string_temperatures() {
    // A string-typed temperature renders with quotes and is not numeric
    // text; a null or absent member yields nothing.
    let m = mapping(&[
        ("a_one", "{\"temperature\":\"21.5\"}"),
        ("a_two", "{\"temperature\":null}"),
        ("a_three", "{\"humidity\":40}"),
        ("a_four", "17"),
    ]);
    assert_eq!(map_to_temperature(&m), vec![]);
}

#[test]
fn extraction_skips_keys_without_a_second_segment() {
    // A key with no underscore has no device tag: the entry is skipped, not
    // a crash.
    let m = mapping(&[("nounderscore", "{\"temperature\":19.0}")]);
    assert_eq!(map_to_temperature(&m), vec![]);
}

#[test]
fn extraction_takes_the_second_of_many_segments() {
    let m = mapping(&[("room_kitchen_sensor_a", "{\"temperature\":18.25}")]);
    assert_eq!(
        map_to_temperature(&m),
        vec![TemperatureData { device: "kitchen".to_string(), value: "18.25".to_string() }]
    );
}

#[test]
fn extraction_accepts_integer_temperatures() {
    let m = mapping(&[("dev_a", "{\"temperature\":21}")]);
    assert_eq!(
        map_to_temperature(&m),
        vec![TemperatureData { device: "a".to_string(), value: "21".to_string() }]
    );
}

#[test]
fn extraction_preserves_entry_order() {
    let m = mapping(&[
        ("dev_a", "{\"temperature\":1.5}"),
        ("skip_me", "nope"),
        ("dev_b", "{\"temperature\":2.5}"),
        ("dev_c", "{\"temperature\":3.5}"),
    ]);
    let records = map_to_temperature(&m);
    let devices: Vec<&str> = records.iter().map(|r| r.device.as_str()).collect();
    assert_eq!(devices, vec!["a", "b", "c"]);
    let values: Vec<&str> = records.iter().map(|r| r.value.as_str()).collect();
    assert_eq!(values, vec!["1.5", "2.5", "3.5"]);
}

#[test]
fn extraction_keeps_exponent_rendered_temperatures() {
    // A very large member renders in exponent form, which still parses as a
    // float and is kept.
    let m = mapping(&[("dev_hot", "{\"temperature\":1e300}")]);
    assert_eq!(
        map_to_temperature(&m),
        vec![TemperatureData { device: "hot".to_string(), value: "1e+300".to_string() }]
    );
}

#[test]
fn extraction_reads_temperature_from_larger_objects() {
    let m = mapping(&[(
        "mqtt.0.adfhome.Temperatur_Flur",
        "{\"battery\":97,\"temperature\":20.75,\"humidity\":41.5}",
    )]);
    assert_eq!(
        map_to_temperature(&m),
        vec![TemperatureData { device: "Flur".to_string(), value: "20.75".to_string() }]
    );
}
