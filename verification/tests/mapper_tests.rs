use lambda_telemetry::mapper::{
    get_enum, get_int_value, get_value, map_record, ConversionError, FieldKind, FieldSpec,
    FieldValue,
};
use lambda_telemetry::model_iobroker::{IoBrokerValue, RawMapping};
use lambda_telemetry::model_lambda::{
    map_lamda_data, AmbientStateEnum, BoilerStateEnum, BufferState, EManagerErrorStateEnum,
    EManagerStateEnum, HeatPumpOperatingStateEnum, HeatPumpRequestType, HeatPumpStateEnum,
    HeatingCircuitState, OrdinalEnum,
};

fn reading(val: &str) -> IoBrokerValue {
    IoBrokerValue {
        val: val.to_string(),
        ack: true,
        ts: 0,
        q: 0,
        from: String::new(),
        user: String::new(),
        lc: 0,
    }
}

fn mapping(entries: &[(&str, &str)]) -> RawMapping {
    let mut m = RawMapping::new();
    for (k, v) in entries {
        m.insert(k.to_string(), reading(v));
    }
    m
}

#[test]
fn get_value_returns_validated_text() {
    let m = mapping(&[("a.b", "21.5"), ("c.d", "-3.25"), ("e.f", "350")]);
    assert_eq!(get_value(&m, "a.b".to_string()), Ok("21.5".to_string()));
    assert_eq!(get_value(&m, "c.d".to_string()), Ok("-3.25".to_string()));
    assert_eq!(get_value(&m, "e.f".to_string()), Ok("350".to_string()));
}

#[test]
fn get_value_accepts_everything_the_float_parse_accepts() {
    // Exponent forms, bare fractions, trailing dots and the special words
    // all parse as floats, so they pass validation unchanged.
    for v in ["1e5", "2.5E-3", "5.", ".5", "+40.0", "inf", "NaN", "-Infinity"] {
        let m = mapping(&[("k", v)]);
        assert_eq!(
            get_value(&m, "k".to_string()),
            Ok(v.to_string()),
            "value {:?} should be accepted",
            v
        );
        assert_eq!(v.parse::<f64>().is_ok(), true, "{:?} must parse as a float", v);
    }
}

#[test]
fn get_value_missing_key_names_that_key() {
    let m = mapping(&[("present", "1")]);
    assert_eq!(
        get_value(&m, "absent.key".to_string()),
        Err(ConversionError::KeyNotFound("absent.key".to_string()))
    );
}

#[test]
fn get_value_rejects_non_numeric_text() {
    for bad in ["abc", "", ".", "5e", "e5", "2.3.4", "- 1", "+-2"] {
        let m = mapping(&[("k", bad)]);
        assert_eq!(
            get_value(&m, "k".to_string()),
            Err(ConversionError::InvalidData("k".to_string())),
            "value {:?} should be rejected",
            bad
        );
    }
}

#[test]
fn get_int_value_parses_exactly() {
    let m = mapping(&[
        ("a", "42"),
        ("b", "-7"),
        ("c", "2147483647"),
        ("d", "-2147483648"),
        ("e", "0"),
    ]);
    assert_eq!(get_int_value(&m, "a".to_string()), Ok(42));
    let plus = mapping(&[("p", "+7")]);
    assert_eq!(get_int_value(&plus, "p".to_string()), Ok(7));
    assert_eq!(get_int_value(&m, "b".to_string()), Ok(-7));
    assert_eq!(get_int_value(&m, "c".to_string()), Ok(i32::MAX));
    assert_eq!(get_int_value(&m, "d".to_string()), Ok(i32::MIN));
    assert_eq!(get_int_value(&m, "e".to_string()), Ok(0));
}

#[test]
fn get_int_value_rejects_out_of_range_and_fractions() {
    for bad in ["2147483648", "-2147483649", "3.5", "x", ""] {
        let m = mapping(&[("k", bad)]);
        assert_eq!(
            get_int_value(&m, "k".to_string()),
            Err(ConversionError::InvalidData("k".to_string())),
            "value {:?} should be rejected",
            bad
        );
    }
}

#[test]
fn ordinal_decoding_is_position_based() {
    // HeatPumpStateEnum declares Stopping as the twelfth entry: wire index
    // 11, not its historical register value.
    let m = mapping(&[("k", "11")]);
    assert_eq!(
        get_enum::<HeatPumpStateEnum>(&m, "k".to_string()),
        Ok(HeatPumpStateEnum::Stopping)
    );
    let m = mapping(&[("k", "0")]);
    assert_eq!(
        get_enum::<HeatPumpStateEnum>(&m, "k".to_string()),
        Ok(HeatPumpStateEnum::Init)
    );
}

#[test]
fn ordinal_bounds_are_enforced() {
    // AmbientStateEnum has four entries: 0..=3 decode, 4 and up do not,
    // nor does non-numeric text.
    let table = [
        AmbientStateEnum::Off,
        AmbientStateEnum::Automatic,
        AmbientStateEnum::Manual,
        AmbientStateEnum::Error,
    ];
    for (i, expected) in table.iter().enumerate() {
        let m = mapping(&[("k", &i.to_string())]);
        assert_eq!(get_enum::<AmbientStateEnum>(&m, "k".to_string()), Ok(*expected));
    }
    let plus = mapping(&[("k", "+1")]);
    assert_eq!(
        get_enum::<AmbientStateEnum>(&plus, "k".to_string()),
        Ok(AmbientStateEnum::Automatic)
    );
    for bad in ["4", "100", "x", "", "-1", "1.5", "++1"] {
        let m = mapping(&[("k", bad)]);
        assert_eq!(
            get_enum::<AmbientStateEnum>(&m, "k".to_string()),
            Err(ConversionError::InvalidData("k".to_string())),
            "index {:?} should be rejected",
            bad
        );
    }
}

#[test]
fn from_index_covers_the_declared_tables() {
    assert_eq!(HeatingCircuitState::from_index(20), Some(HeatingCircuitState::StbyFloordry));
    assert_eq!(HeatingCircuitState::from_index(21), None);
    assert_eq!(HeatPumpOperatingStateEnum::from_index(18), Some(HeatPumpOperatingStateEnum::FirmwareDownload));
    assert_eq!(HeatPumpOperatingStateEnum::from_index(19), None);
    assert_eq!(HeatPumpRequestType::from_index(4), Some(HeatPumpRequestType::DomesticHotWater));
    assert_eq!(HeatPumpRequestType::from_index(5), None);
    assert_eq!(BoilerStateEnum::from_index(12), Some(BoilerStateEnum::StbyFrost));
    assert_eq!(BufferState::from_index(9), Some(BufferState::StbyFrost));
    assert_eq!(EManagerStateEnum::from_index(4), Some(EManagerStateEnum::Offline));
}

#[test]
fn enum_names_follow_the_declared_tables() {
    assert_eq!(AmbientStateEnum::Off.name(), "Off");
    assert_eq!(EManagerErrorStateEnum::NoError.name(), "None");
    assert_eq!(HeatPumpStateEnum::Stopping.name(), "Stopping");
    assert_eq!(HeatingCircuitState::StbyFloordry.name(), "StbyFloordry");
}

#[test]
fn map_record_fails_fast_on_first_invalid_field() {
    // Field order decides which error surfaces: the invalid second field is
    // reported, the missing third field never is.
    let m = mapping(&[("one", "1.0"), ("two", "junk")]);
    let specs = vec![
        FieldSpec { key: "one".to_string(), kind: FieldKind::Numeric },
        FieldSpec { key: "two".to_string(), kind: FieldKind::Numeric },
        FieldSpec { key: "three".to_string(), kind: FieldKind::Numeric },
    ];
    assert_eq!(
        map_record(&m, &specs),
        Err(ConversionError::InvalidData("two".to_string()))
    );
}

#[test]
fn map_record_reports_first_missing_key() {
    let m = mapping(&[("one", "1.0")]);
    let specs = vec![
        FieldSpec { key: "one".to_string(), kind: FieldKind::Numeric },
        FieldSpec { key: "gone".to_string(), kind: FieldKind::Numeric },
        FieldSpec { key: "also.gone".to_string(), kind: FieldKind::Numeric },
    ];
    assert_eq!(
        map_record(&m, &specs),
        Err(ConversionError::KeyNotFound("gone".to_string()))
    );
}

#[test]
fn map_record_round_trips_all_kinds() {
    let m = mapping(&[("n", "2.5"), ("i", "-4"), ("t", "hello"), ("o", "1")]);
    let specs = vec![
        FieldSpec { key: "n".to_string(), kind: FieldKind::Numeric },
        FieldSpec { key: "i".to_string(), kind: FieldKind::Integer },
        FieldSpec { key: "t".to_string(), kind: FieldKind::Text },
        FieldSpec {
            key: "o".to_string(),
            kind: FieldKind::Ordinal(vec!["Off".to_string(), "On".to_string()]),
        },
    ];
    assert_eq!(
        map_record(&m, &specs),
        Ok(vec![
            FieldValue::Numeric("2.5".to_string()),
            FieldValue::Integer(-4),
            FieldValue::Text("hello".to_string()),
            FieldValue::Ordinal(1),
        ])
    );
}

fn full_lambda_mapping() -> RawMapping {
    let entries: &[(&str, &str)] = &[
        ("modbus.0.holdingRegisters.40002_Ambient_State", "1"),
        ("modbus.0.holdingRegisters.40005_Ambient_Calculated_Temp", "7.5"),
        ("modbus.0.holdingRegisters.40102_E_Manager_State", "1"),
        ("modbus.0.holdingRegisters.40104_E_Manager_Actual", "1.25"),
        ("modbus.0.holdingRegisters.40103_E-Manager_ExcessPower", "0.5"),
        ("modbus.0.holdingRegisters.40105_E_Manager_Setpoint", "2.0"),
        ("modbus.0.holdingRegisters.41001_HP1_Error_State", "0"),
        ("modbus.0.holdingRegisters.41002_HP1_Error", "0"),
        ("modbus.0.holdingRegisters.41003_HP1_State", "7"),
        ("modbus.0.holdingRegisters.41004_HP1_OperatingState", "1"),
        ("modbus.0.holdingRegisters.41005_HP1_T_Flow", "35.1"),
        ("modbus.0.holdingRegisters.41006_HP1_T_Return", "30.2"),
        ("modbus.0.holdingRegisters.41007_HP1_Vol_Sink", "1200"),
        ("modbus.0.holdingRegisters.41008_HP1_T_EQin", "6.1"),
        ("modbus.0.holdingRegisters.41010_HP1_Vol_Source", "2400"),
        ("modbus.0.holdingRegisters.41011_HP1_CompressorRating", "55.0"),
        ("modbus.0.holdingRegisters.41012_HP1_QpHeating", "5.6"),
        ("modbus.0.holdingRegisters.41013_HP1_FI_PowerConsumption", "1.3"),
        ("modbus.0.holdingRegisters.41014_HP1_COP", "4.3"),
        ("modbus.0.holdingRegisters.41016_HP1_RequestType", "2"),
        ("modbus.0.holdingRegisters.41017_HP1_RequestT_Flow", "36.0"),
        ("modbus.0.holdingRegisters.41018_HP1_RequestT_Return", "31.0"),
        ("modbus.0.holdingRegisters.41019_HP1_RequestT_Diff", "5.0"),
        ("modbus.0.holdingRegisters.41021_HP1_VdA_E", "1234.5"),
        ("modbus.0.holdingRegisters.41023_HP1_VdA_Q", "5432.1"),
        ("modbus.0.holdingRegisters.42002_Boiler1_OperatingState", "1"),
        ("modbus.0.holdingRegisters.42003_Boiler1_ActualHighTemp", "48.0"),
        ("modbus.0.holdingRegisters.42004_Boiler1_ActualLowTemp", "42.0"),
        ("modbus.0.holdingRegisters.42051_Boiler1_MaximumTemp", "60.0"),
        ("modbus.0.holdingRegisters.43002_Buffer1_OperatingState", "1"),
        ("modbus.0.holdingRegisters.43003_Buffer1_ActualHighTemp", "40.0"),
        ("modbus.0.holdingRegisters.43004_Buffer1_ActualLowTemp", "35.0"),
        ("modbus.0.holdingRegisters.43051_Buffer1_MaximumTemp", "50.0"),
        ("modbus.0.holdingRegisters.45002_Heating1_OperatingState", "0"),
        ("modbus.0.holdingRegisters.45102_Heating2_OperatingState", "1"),
        ("modbus.0.holdingRegisters.45003_Heating1_T_Flow", "33.3"),
        ("modbus.0.holdingRegisters.45103_Heating2_T_Flow", "28.8"),
    ];
    mapping(entries)
}

#[test]
fn map_lamda_data_builds_the_full_record() {
    let m = full_lambda_mapping();
    let d = map_lamda_data(&m).expect("every field resolves");
    assert_eq!(d.ambient_state, AmbientStateEnum::Automatic);
    assert_eq!(d.ambient_temperature_calculated, "7.5");
    assert_eq!(d.emanager_operating_state, EManagerStateEnum::Automatic);
    assert_eq!(d.heatpump_error_state, EManagerErrorStateEnum::NoError);
    assert_eq!(d.heatpump_error_number, 0);
    assert_eq!(d.heatpump_state, HeatPumpStateEnum::Regulation);
    assert_eq!(d.heatpump_operating_state, HeatPumpOperatingStateEnum::Ch);
    assert_eq!(d.heatpump_request_type, HeatPumpRequestType::CentralHeating);
    assert_eq!(d.heatpump_current_cop, "4.3");
    assert_eq!(d.boiler_state, BoilerStateEnum::Dhw);
    assert_eq!(d.buffer_state, BufferState::Heating);
    assert_eq!(d.heating_circuit_1_state, HeatingCircuitState::Heating);
    assert_eq!(d.heating_circuit_2_state, HeatingCircuitState::Eco);
    assert_eq!(d.heating_circuit_2_flow_temp, "28.8");
}

#[test]
fn map_lamda_data_reports_missing_key() {
    // Rebuild the full mapping without the COP register: exactly that key
    // must be reported.
    let missing = "modbus.0.holdingRegisters.41014_HP1_COP";
    let mut m = RawMapping::new();
    for (k, v) in full_entries() {
        if k != missing {
            m.insert(k, reading_owned(v));
        }
    }
    assert_eq!(
        map_lamda_data(&m),
        Err(ConversionError::KeyNotFound(missing.to_string()))
    );
}

fn reading_owned(val: String) -> IoBrokerValue {
    IoBrokerValue {
        val,
        ack: true,
        ts: 0,
        q: 0,
        from: String::new(),
        user: String::new(),
        lc: 0,
    }
}

fn full_entries() -> Vec<(String, String)> {
    let m = full_lambda_mapping();
    let mut out = Vec::new();
    for i in 0..m.len() {
        let (k, v) = m.entry_at(i).clone();
        out.push((k, v.val));
    }
    out
}

#[test]
fn map_lamda_data_fails_fast_in_declared_order() {
    // Corrupt both the heat-pump state (field nine) and a later buffer
    // register: the earlier field's error must surface.
    let mut m = RawMapping::new();
    for (k, v) in full_entries() {
        m.insert(k, reading_owned(v));
    }
    m.insert(
        "modbus.0.holdingRegisters.41003_HP1_State".to_string(),
        reading("junk"),
    );
    m.insert(
        "modbus.0.holdingRegisters.43002_Buffer1_OperatingState".to_string(),
        reading("99"),
    );
    assert_eq!(
        map_lamda_data(&m),
        Err(ConversionError::InvalidData(
            "modbus.0.holdingRegisters.41003_HP1_State".to_string()
        ))
    );
}

#[test]
fn raw_mapping_insert_replaces_in_place() {
    let mut m = RawMapping::new();
    m.insert("k".to_string(), reading("1"));
    m.insert("k".to_string(), reading("2"));
    assert_eq!(m.len(), 1);
    assert_eq!(m.get("k").unwrap().val, "2");
    assert!(m.get("other").is_none());
}
