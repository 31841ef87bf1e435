use d0bby::Topics;

#[test]
fn topics_follow_the_identifier() {
    let topics = Topics::new("main_electricity_meter");
    assert_eq!(topics.state(), "d0bby/main_electricity_meter/state");
    assert_eq!(
        topics.discovery_in(),
        "homeassistant/sensor/d0bby/main_electricity_meter_in/config"
    );
    assert_eq!(
        topics.discovery_out(),
        "homeassistant/sensor/d0bby/main_electricity_meter_out/config"
    );
}

#[test]
fn topics_of_one_identifier_are_the_same_every_time() {
    let first = Topics::new("cellar");
    let second = Topics::new("cellar");
    assert_eq!(first.state(), second.state());
    assert_eq!(first.discovery_in(), second.discovery_in());
    assert_eq!(first.discovery_out(), second.discovery_out());
    assert_eq!(first.state(), "d0bby/cellar/state");
}

#[test]
fn topics_take_the_identifier_as_it_is() {
    let topics = Topics::new("");
    assert_eq!(topics.state(), "d0bby//state");
    assert_eq!(topics.discovery_in(), "homeassistant/sensor/d0bby/_in/config");
    let topics = Topics::new("a/b c");
    assert_eq!(topics.state(), "d0bby/a/b c/state");
    assert_eq!(topics.discovery_out(), "homeassistant/sensor/d0bby/a/b c_out/config");
}

#[test]
fn topics_keep_text_outside_ascii() {
    let topics = Topics::new("k\u{fc}che");
    assert_eq!(topics.state(), "d0bby/k\u{fc}che/state");
    assert_eq!(topics.discovery_in(), "homeassistant/sensor/d0bby/k\u{fc}che_in/config");
}
