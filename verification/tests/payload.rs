use d0bby::{parse_data, state_payload, Decimal, Device, Discovery, MeterValues};

fn decimal_of(value: f64) -> Decimal {
    let (positive, mantissa, exponent) = json::number::Number::from(value).as_parts();
    Decimal { positive, mantissa, exponent }
}

#[test]
fn state_payload_of_the_sample_reading() {
    let values = MeterValues { in_kwh: decimal_of(1337.0), out_kwh: decimal_of(42.0) };
    let payload = state_payload(&values);
    assert_eq!(payload, r#"{"state":"ON","in_kwh":1337.0,"out_kwh":42.0}"#);
    assert!(payload.contains(r#""in_kwh":1337.0"#));
    assert!(payload.contains(r#""out_kwh":42.0"#));
    assert!(payload.contains(r#""state":"ON""#));
}

#[test]
fn state_payload_reads_back_as_it_was_written() {
    let values = MeterValues { in_kwh: decimal_of(1337.0), out_kwh: decimal_of(42.0) };
    let parsed = json::parse(&state_payload(&values)).unwrap();
    assert!(parsed.is_object());
    assert_eq!(parsed.len(), 3);
    assert!(parsed["state"] == "ON");
    assert!(parsed["in_kwh"] == 1337.0);
    assert!(parsed["out_kwh"] == 42.0);
    let keys: Vec<&str> = parsed.entries().map(|(key, _)| key).collect();
    assert_eq!(keys, vec!["state", "in_kwh", "out_kwh"]);
    let values = MeterValues {
        in_kwh: Decimal { positive: true, mantissa: 1234567, exponent: -3 },
        out_kwh: Decimal { positive: false, mantissa: 25, exponent: -2 },
    };
    let parsed = json::parse(&state_payload(&values)).unwrap();
    assert!(parsed["in_kwh"] == 1234.567);
    assert!(parsed["out_kwh"] == -0.25);
}

#[test]
fn state_payload_keeps_the_digits_of_a_reading() {
    let values = MeterValues {
        in_kwh: Decimal { positive: true, mantissa: 13375, exponent: -1 },
        out_kwh: Decimal { positive: false, mantissa: 5, exponent: 3 },
    };
    assert_eq!(state_payload(&values), r#"{"state":"ON","in_kwh":1337.5,"out_kwh":-5000.0}"#);
    let values = MeterValues { in_kwh: decimal_of(0.25), out_kwh: Decimal::whole(0) };
    assert_eq!(state_payload(&values), r#"{"state":"ON","in_kwh":0.25,"out_kwh":0.0}"#);
}

#[test]
fn state_payload_of_extreme_numbers() {
    let values = MeterValues {
        in_kwh: Decimal { positive: true, mantissa: u64::MAX, exponent: i16::MIN },
        out_kwh: Decimal { positive: true, mantissa: u64::MAX, exponent: i16::MAX },
    };
    let expected = format!(
        "{{\"state\":\"ON\",\"in_kwh\":0.{}18446744073709551615,\"out_kwh\":18446744073709551615{}.0}}",
        "0".repeat(32768 - 20),
        "0".repeat(32767)
    );
    assert_eq!(state_payload(&values), expected);
}

#[test]
fn readings_are_written_with_a_digit_behind_the_point() {
    let text = |positive: bool, mantissa: u64, exponent: i16| {
        Decimal { positive, mantissa, exponent }.to_text()
    };
    assert_eq!(Decimal::whole(1337).to_text(), "1337.0");
    assert_eq!(Decimal::whole(42).to_text(), "42.0");
    assert_eq!(Decimal::whole(0).to_text(), "0.0");
    assert_eq!(Decimal::whole(7).to_text(), "7.0");
    assert_eq!(Decimal::whole(u64::MAX).to_text(), "18446744073709551615.0");
    assert_eq!(text(true, 5, -3), "0.005");
    assert_eq!(text(true, 120, -2), "1.20");
    assert_eq!(text(true, 120, -3), "0.120");
    assert_eq!(text(true, 120, -4), "0.0120");
    assert_eq!(text(true, 0, -2), "0.00");
    assert_eq!(text(true, 0, 5), "0.0");
    assert_eq!(text(false, 0, 0), "-0.0");
    assert_eq!(text(false, 13375, -1), "-1337.5");
    assert_eq!(text(true, 12, 2), "1200.0");
    assert_eq!(text(true, 1000, 0), "1000.0");
    assert_eq!(text(true, 10, -1), "1.0");
    assert_eq!(text(true, 9999999999, -10), "0.9999999999");
    assert_eq!(text(true, 10000000000, -10), "1.0000000000");
}

#[test]
fn readings_are_json_numbers() {
    let samples = [
        (true, 0u64, 0i16),
        (false, 1, 0),
        (true, 5, -3),
        (true, 5, 3),
        (false, 123456789, -4),
        (true, u64::MAX, -19),
        (true, u64::MAX, -20),
        (true, u64::MAX, -21),
        (true, 1, 300),
    ];
    for (positive, mantissa, exponent) in samples {
        let reading = Decimal { positive, mantissa, exponent };
        let parsed = json::parse(&reading.to_text()).unwrap();
        assert!(parsed.is_number(), "{}", reading.to_text());
        let expected = json::number::Number::from_parts(positive, mantissa, exponent);
        assert!(parsed.as_number().unwrap() == expected, "{}", reading.to_text());
    }
}

#[test]
fn whole_numbers_have_no_exponent() {
    assert_eq!(Decimal::whole(42), Decimal { positive: true, mantissa: 42, exponent: 0 });
}

#[test]
fn parse_data_gives_the_placeholder_reading() {
    let expected = MeterValues { in_kwh: Decimal::whole(1337), out_kwh: Decimal::whole(42) };
    assert_eq!(parse_data("1-0:1.8.0*255(001337.0000*kWh)"), Ok(expected));
    assert_eq!(parse_data(""), Ok(expected));
}

#[test]
fn device_descriptor() {
    let device = Device::new("main_electricity_meter");
    assert_eq!(device.identifiers, "d0bby_main_electricity_meter");
    assert_eq!(device.manufacturer, "Marcel Kummer");
    assert_eq!(device.model, "d0bby");
    assert_eq!(device.name, "d0bby");
}

#[test]
fn discovery_base() {
    let base = Discovery::new("meter", "d0bby/meter/state");
    assert_eq!(base.schema, "json");
    assert_eq!(base.state_topic, "d0bby/meter/state");
    assert_eq!(base.unit_of_measurement, "kWh");
    assert_eq!(base.device_class, "energy");
    assert_eq!(base.device.identifiers, "d0bby_meter");
}

#[test]
fn discovery_base_takes_availability_from_the_state_messages() {
    let base = Discovery::new("meter", "d0bby/meter/state");
    assert_eq!(base.availability_topic, "d0bby/meter/state");
    assert_eq!(base.availability_topic, base.state_topic);
    assert_eq!(base.availability_template, "{{ value_json.state }}");
    assert_eq!(base.payload_available, "ON");
    assert_eq!(base.payload_not_available, "OFF");
    let copy = base.copy();
    assert_eq!(copy.availability_topic, "d0bby/meter/state");
    assert_eq!(copy.availability_template, "{{ value_json.state }}");
    assert_eq!(copy.payload_available, "ON");
    assert_eq!(copy.payload_not_available, "OFF");
}

#[test]
fn state_payload_says_that_the_sensors_are_available() {
    let base = Discovery::new("meter", "d0bby/meter/state");
    let values = MeterValues { in_kwh: Decimal::whole(1), out_kwh: Decimal::whole(2) };
    let state = json::parse(&state_payload(&values)).unwrap();
    assert!(state["state"] == base.payload_available.as_str());
}

#[test]
fn variants_override_three_fields() {
    let base = Discovery::new("meter", "d0bby/meter/state");
    let input = base.input();
    let output = base.output();
    assert_eq!(input.unique_id, "d0bby_meter_in");
    assert_eq!(input.name, "Input");
    assert_eq!(input.value_template, "{{ value_json.in_kwh }}");
    assert_eq!(output.unique_id, "d0bby_meter_out");
    assert_eq!(output.name, "Output");
    assert_eq!(output.value_template, "{{ value_json.out_kwh }}");
    // The base is untouched, and both variants hold a copy of it.
    assert_eq!(base.schema, "json");
    assert_eq!(input.base.state_topic, base.state_topic);
    assert_eq!(output.base.state_topic, base.state_topic);
    assert_eq!(input.base.device.identifiers, output.base.device.identifiers);
}

#[test]
fn variants_differ_in_three_members_only() {
    let base = Discovery::new("meter", "d0bby/meter/state");
    let input = json::parse(&base.input().to_json()).unwrap();
    let output = json::parse(&base.output().to_json()).unwrap();
    assert_eq!(input.len(), 12);
    assert_eq!(output.len(), 12);
    let keys_in: Vec<String> = input.entries().map(|(key, _)| key.to_string()).collect();
    let keys_out: Vec<String> = output.entries().map(|(key, _)| key.to_string()).collect();
    assert_eq!(keys_in, keys_out);
    for (key, value) in input.entries() {
        let differs = key == "unique_id" || key == "name" || key == "value_template";
        assert_eq!(value.dump() != output[key].dump(), differs);
    }
}

#[test]
fn sensor_payload_text() {
    let base = Discovery::new("main_electricity_meter", "d0bby/main_electricity_meter/state");
    assert_eq!(
        base.input().to_json(),
        concat_all(&[
            r#"{"schema":"json","state_topic":"d0bby/main_electricity_meter/state","#,
            r#""availability_topic":"d0bby/main_electricity_meter/state","#,
            r#""availability_template":"{{ value_json.state }}","#,
            r#""payload_available":"ON","payload_not_available":"OFF","#,
            r#""unit_of_measurement":"kWh","device_class":"energy","#,
            r#""device":{"identifiers":"d0bby_main_electricity_meter","#,
            r#""manufacturer":"Marcel Kummer","model":"d0bby","name":"d0bby"},"#,
            r#""unique_id":"d0bby_main_electricity_meter_in","name":"Input","#,
            r#""value_template":"{{ value_json.in_kwh }}"}"#,
        ])
    );
    assert_eq!(
        base.output().to_json(),
        concat_all(&[
            r#"{"schema":"json","state_topic":"d0bby/main_electricity_meter/state","#,
            r#""availability_topic":"d0bby/main_electricity_meter/state","#,
            r#""availability_template":"{{ value_json.state }}","#,
            r#""payload_available":"ON","payload_not_available":"OFF","#,
            r#""unit_of_measurement":"kWh","device_class":"energy","#,
            r#""device":{"identifiers":"d0bby_main_electricity_meter","#,
            r#""manufacturer":"Marcel Kummer","model":"d0bby","name":"d0bby"},"#,
            r#""unique_id":"d0bby_main_electricity_meter_out","name":"Output","#,
            r#""value_template":"{{ value_json.out_kwh }}"}"#,
        ])
    );
}

fn concat_all(parts: &[&str]) -> String {
    let mut whole = String::new();
    for part in parts {
        whole.push_str(part);
    }
    whole
}

#[test]
fn sensor_payload_escapes_strings() {
    let base = Discovery::new("a\"b\\c\n", "t");
    let text = base.input().to_json();
    assert!(text.contains(r#""identifiers":"d0bby_a\"b\\c\n""#));
    assert!(text.contains(r#""unique_id":"d0bby_a\"b\\c\n_in""#));
    let parsed = json::parse(&text).unwrap();
    assert!(parsed["device"]["identifiers"] == "d0bby_a\"b\\c\n");
}

#[test]
fn variant_with_fields_of_the_caller() {
    let base = Discovery::new("meter", "topic");
    let sensor = base.variant("id", "Name", "{{ x }}");
    assert_eq!(sensor.unique_id, "id");
    assert_eq!(sensor.name, "Name");
    assert_eq!(sensor.value_template, "{{ x }}");
    let copy = base.copy();
    assert_eq!(copy.state_topic, "topic");
    assert_eq!(copy.device.copy().identifiers, "d0bby_meter");
}

/// The text of a JSON string, worked out character by character.
fn quoted(content: &str) -> String {
    let mut text = String::from("\"");
    for c in content.chars() {
        match c {
            '"' => text.push_str("\\\""),
            '\\' => text.push_str("\\\\"),
            '\u{8}' => text.push_str("\\b"),
            '\t' => text.push_str("\\t"),
            '\n' => text.push_str("\\n"),
            '\u{c}' => text.push_str("\\f"),
            '\r' => text.push_str("\\r"),
            c if (c as u32) < 0x20 => {
                let digits = ['0', '1', '2', '3', '4', '5', '6', '7', '8', '9', 'a', 'b', 'c', 'd', 'e', 'f'];
                text.push_str("\\u00");
                text.push(digits[(c as usize) / 16]);
                text.push(digits[(c as usize) % 16]);
            }
            c => text.push(c),
        }
    }
    text.push('"');
    text
}

#[test]
fn strings_are_written_with_the_escapes_of_json() {
    assert_eq!(quoted("a\"b"), r#""a\"b""#);
    assert_eq!(quoted("\u{1}\u{1f}\u{b}"), r#""\u0001\u001f\u000b""#);
    let mut samples: Vec<String> = Vec::new();
    for code in 0u32..0x100 {
        samples.push(char::from_u32(code).unwrap().to_string());
    }
    samples.push("plain".to_string());
    samples.push("\u{7f}\u{80}\u{20ac}\u{1f600}".to_string());
    samples.push("tab\there \"quoted\" back\\slash\r\n".to_string());
    samples.push("a string that is longer than thirty bytes, with a \u{0} in it".to_string());
    for sample in samples {
        let base = Discovery::new("meter", "topic");
        let sensor = base.variant(&sample, "n", "t");
        let text = sensor.to_json();
        let expected = format!("\"unique_id\":{},\"name\":\"n\"", quoted(&sample));
        assert!(text.contains(&expected), "{:?} in {}", sample, text);
    }
}

#[test]
fn objects_are_written_member_by_member() {
    let base = Discovery::new("m", "t");
    let device = format!(
        "{{{}:{},{}:{},{}:{},{}:{}}}",
        quoted("identifiers"),
        quoted("d0bby_m"),
        quoted("manufacturer"),
        quoted("Marcel Kummer"),
        quoted("model"),
        quoted("d0bby"),
        quoted("name"),
        quoted("d0bby")
    );
    let members = [
        ("schema", quoted("json")),
        ("state_topic", quoted("t")),
        ("availability_topic", quoted("t")),
        ("availability_template", quoted("{{ value_json.state }}")),
        ("payload_available", quoted("ON")),
        ("payload_not_available", quoted("OFF")),
        ("unit_of_measurement", quoted("kWh")),
        ("device_class", quoted("energy")),
        ("device", device),
        ("unique_id", quoted("d0bby_m_out")),
        ("name", quoted("Output")),
        ("value_template", quoted("{{ value_json.out_kwh }}")),
    ];
    let mut expected = String::from("{");
    for (position, (key, text)) in members.iter().enumerate() {
        if position > 0 {
            expected.push(',');
        }
        expected.push_str(&quoted(key));
        expected.push(':');
        expected.push_str(text);
    }
    expected.push('}');
    assert_eq!(base.output().to_json(), expected);
}
