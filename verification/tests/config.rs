use d0bby::digits::{check_numbers_fit, MAX_FRACTION_DIGITS};
use d0bby::{options_from_members, parse_args, read_config};

const SAMPLE: &str = r#"{
    "d0_device": "/path/to/d0_device",
    "broker_url": "tcp://localhost:1883",
    "identifier": "main_electricity_meter"
}"#;

#[test]
fn test_parse_args() {
    let config_file = "config.sample.json";
    let args = ["./d0bby".to_string(), config_file.to_string()].to_vec();
    let result = parse_args(args).and_then(|path| read_config(&path, Ok(SAMPLE.to_string())));
    assert!(result.is_ok());
    let options = result.unwrap();
    assert_eq!(options.device_name, "/path/to/d0_device");
    assert_eq!(options.broker_url, "tcp://localhost:1883");
    assert_eq!(options.instance_id, "main_electricity_meter");
}

#[test]
fn parse_args_returns_the_path_of_the_configuration() {
    let args = vec!["./d0bby".to_string(), "config.sample.json".to_string()];
    assert_eq!(parse_args(args), Ok("config.sample.json".to_string()));
}

#[test]
fn parse_args_wants_exactly_one_argument() {
    let none = vec!["./d0bby".to_string()];
    assert_eq!(parse_args(none), Err("Usage: ./d0bby /path/to/d0_device".to_string()));
    let two = vec!["prog".to_string(), "a.json".to_string(), "b.json".to_string()];
    assert_eq!(parse_args(two), Err("Usage: prog /path/to/d0_device".to_string()));
}

#[test]
fn read_config_reports_an_unreadable_file() {
    let result = read_config("missing.json", Err("No such file or directory (os error 2)".to_string()));
    assert_eq!(
        result.unwrap_err(),
        "Cannot read configuration: No such file or directory (os error 2)"
    );
}

#[test]
fn read_config_reports_text_that_is_not_json() {
    let result = read_config("broken.json", Ok("{ \"d0_device\": ".to_string()));
    assert_eq!(result.unwrap_err(), "Cannot parse configuration: Unexpected end of JSON");
    let result = read_config("broken.json", Ok("{ d0_device }".to_string()));
    assert_eq!(
        result.unwrap_err(),
        "Cannot parse configuration: Unexpected character: d at (1:3)"
    );
}

#[test]
fn read_config_reports_the_first_missing_key() {
    let result = read_config("config.sample.json", Ok("{}".to_string()));
    assert_eq!(
        result.unwrap_err(),
        "Cannot find key 'd0_device' in \"config.sample.json\""
    );
    let result = read_config("c.json", Ok(r#"{"d0_device": "/dev/ttyUSB0"}"#.to_string()));
    assert_eq!(result.unwrap_err(), "Cannot find key 'broker_url' in \"c.json\"");
    let result = read_config(
        "c.json",
        Ok(r#"{"broker_url": "tcp://b:1883", "d0_device": "/dev/ttyUSB0"}"#.to_string()),
    );
    assert_eq!(result.unwrap_err(), "Cannot find key 'identifier' in \"c.json\"");
}

#[test]
fn read_config_shows_the_path_as_debug_does() {
    let result = read_config("dir/my \"cfg\".json", Ok("[1, 2]".to_string()));
    assert_eq!(
        result.unwrap_err(),
        "Cannot find key 'd0_device' in \"dir/my \\\"cfg\\\".json\""
    );
}

#[test]
fn read_config_takes_values_as_they_display() {
    let text = r#"{"identifier": 7, "extra": [1], "broker_url": true, "d0_device": {"a": "b"}}"#;
    let options = read_config("c.json", Ok(text.to_string())).unwrap();
    assert_eq!(options.instance_id, "7");
    assert_eq!(options.broker_url, "true");
    assert_eq!(options.device_name, r#"{"a":"b"}"#);
}

#[test]
fn read_config_takes_the_last_value_of_a_repeated_key() {
    let text = r#"{"identifier": "a", "broker_url": "u", "d0_device": "d", "identifier": "b"}"#;
    let options = read_config("c.json", Ok(text.to_string())).unwrap();
    assert_eq!(options.instance_id, "b");
}

#[test]
fn options_from_members_takes_the_three_keys() {
    let entries = vec![
        ("identifier".to_string(), "meter".to_string()),
        ("d0_device".to_string(), "/dev/ttyUSB0".to_string()),
        ("other".to_string(), "x".to_string()),
        ("broker_url".to_string(), "tcp://broker:1883".to_string()),
    ];
    let options = options_from_members("c.json", &entries).unwrap();
    assert_eq!(options.device_name, "/dev/ttyUSB0");
    assert_eq!(options.broker_url, "tcp://broker:1883");
    assert_eq!(options.instance_id, "meter");
}

#[test]
fn options_from_members_reports_a_missing_key() {
    let entries = vec![
        ("d0_device".to_string(), "/dev/ttyUSB0".to_string()),
        ("identifier".to_string(), "meter".to_string()),
    ];
    let message = options_from_members("c.json", &entries).unwrap_err();
    assert_eq!(message, "Cannot find key 'broker_url' in \"c.json\"");
}

#[test]
fn read_config_reports_a_character_outside_ascii() {
    let result = read_config("c.json", Ok("\u{e9}".to_string()));
    assert_eq!(
        result.unwrap_err(),
        "Cannot parse configuration: Unexpected character: \u{e9} at (1:1)"
    );
    let result = read_config("c.json", Ok("{\"k\u{e9}y\": tr\u{fc}e}".to_string()));
    assert_eq!(
        result.unwrap_err(),
        "Cannot parse configuration: Unexpected character: \u{fc} at (1:11)"
    );
}

#[test]
fn read_config_keeps_text_outside_ascii() {
    let text = "{\"d0_device\": \"/dev/z\u{e4}hler\", \"broker_url\": \"u\", \"identifier\": \"k\u{fc}che\"}";
    let options = read_config("c.json", Ok(text.to_string())).unwrap();
    assert_eq!(options.device_name, "/dev/z\u{e4}hler");
    assert_eq!(options.instance_id, "k\u{fc}che");
}

#[test]
fn read_config_of_an_empty_text() {
    let result = read_config("c.json", Ok(String::new()));
    assert_eq!(result.unwrap_err(), "Cannot parse configuration: Unexpected end of JSON");
}

fn config_with_device(device: &str) -> String {
    format!("{{\"d0_device\": {}, \"broker_url\": \"u\", \"identifier\": \"i\"}}", device)
}

const UNCOUNTABLE: &str = "Cannot parse configuration: A fraction has more than 32768 digits";

#[test]
fn read_config_takes_a_fraction_of_as_many_digits_as_can_be_counted() {
    let number = format!("0.{}", "0".repeat(32768));
    let options = read_config("c.json", Ok(config_with_device(&number))).unwrap();
    assert_eq!(options.device_name, "0");
    let number = format!("-0.{}{}", "0".repeat(32749), "9".repeat(40));
    assert!(read_config("c.json", Ok(config_with_device(&number))).is_ok());
}

#[test]
fn read_config_turns_down_a_fraction_of_too_many_digits() {
    let number = format!("0.{}", "0".repeat(32769));
    let result = read_config("c.json", Ok(config_with_device(&number)));
    assert_eq!(result.unwrap_err(), UNCOUNTABLE);
    let number = format!("0.{}1", "0".repeat(32768));
    let result = read_config("c.json", Ok(config_with_device(&number)));
    assert_eq!(result.unwrap_err(), UNCOUNTABLE);
    let number = format!("-0.{}{}", "0".repeat(32750), "9".repeat(40));
    let result = read_config("c.json", Ok(config_with_device(&number)));
    assert_eq!(result.unwrap_err(), UNCOUNTABLE);
    let number = format!("[1, \"a\\\"b\", 0.{}]", "0".repeat(40000));
    let result = read_config("c.json", Ok(config_with_device(&number)));
    assert_eq!(result.unwrap_err(), UNCOUNTABLE);
}

#[test]
fn read_config_takes_long_runs_of_digits_elsewhere() {
    let text = format!("\"{}\"", "7".repeat(40000));
    let options = read_config("c.json", Ok(config_with_device(&text))).unwrap();
    assert_eq!(options.device_name, "7".repeat(40000));
    let text = format!("\"0.{}\"", "0".repeat(40000));
    let options = read_config("c.json", Ok(config_with_device(&text))).unwrap();
    assert_eq!(options.device_name, format!("0.{}", "0".repeat(40000)));
    let text = format!("\"a\\\"0.{}\"", "0".repeat(40000));
    let options = read_config("c.json", Ok(config_with_device(&text))).unwrap();
    assert_eq!(options.device_name, format!("a\"0.{}", "0".repeat(40000)));
    let number = format!("1.{}", "0".repeat(40000));
    let options = read_config("c.json", Ok(config_with_device(&number))).unwrap();
    assert_eq!(options.device_name, "1.0000000000000000000");
    let number = format!("10.{}", "0".repeat(40000));
    assert!(read_config("c.json", Ok(config_with_device(&number))).is_ok());
    let number = "9".repeat(32767);
    let options = read_config("c.json", Ok(config_with_device(&number))).unwrap();
    assert_eq!(options.device_name, "9.999999999999999999e32766");
}

#[test]
fn read_config_hands_on_the_error_of_a_long_number() {
    let number = "9".repeat(40000);
    let result = read_config("c.json", Ok(config_with_device(&number)));
    assert_eq!(result.unwrap_err(), "Cannot parse configuration: Exceeded depth limit");
    let text = format!("{{\"k\": \"{}", "5".repeat(40000));
    let result = read_config("c.json", Ok(text));
    assert_eq!(result.unwrap_err(), "Cannot parse configuration: Unexpected end of JSON");
    let text = format!("[\"{}\"]", "5".repeat(40000));
    let result = read_config("c.json", Ok(text));
    assert_eq!(result.unwrap_err(), "Cannot find key 'd0_device' in \"c.json\"");
}

#[test]
fn fractions_are_measured_outside_strings() {
    assert_eq!(MAX_FRACTION_DIGITS, 32768);
    assert!(check_numbers_fit(""));
    assert!(check_numbers_fit("no digits, \u{e4}\u{20ac}"));
    assert!(check_numbers_fit(&"1".repeat(100000)));
    assert!(check_numbers_fit(&format!("0.{}", "0".repeat(32768))));
    assert!(!check_numbers_fit(&format!("0.{}", "0".repeat(32769))));
    assert!(!check_numbers_fit(&format!("\u{e4} 0.{}", "0".repeat(32769))));
    assert!(check_numbers_fit(&format!("\"0.{}\"", "0".repeat(32769))));
    assert!(!check_numbers_fit(&format!("\"\"0.{}", "0".repeat(32769))));
    assert!(check_numbers_fit(&format!("\"\\\"0.{}", "0".repeat(32769))));
    assert!(check_numbers_fit(&format!("20.{}", "0".repeat(32769))));
    assert!(check_numbers_fit(&format!("3.{}", "0".repeat(32769))));
    assert!(check_numbers_fit(&format!(".{}", "0".repeat(32769))));
    assert!(check_numbers_fit(&format!("0.{}", "7".repeat(32769))));
    assert!(check_numbers_fit(&format!("0.{}x{}", "0".repeat(32768), "0".repeat(32768))));
}
