use hdmicec::{HdmiCecProcess, PowerState};

#[test]
fn parsing_power_line() {
    assert_eq!(
        HdmiCecProcess::parse_power_state("power status: on"),
        Some("ON".to_string())
    );
    assert_eq!(
        HdmiCecProcess::parse_power_state("power status: standby"),
        Some("OFF".to_string())
    );
    assert_eq!(
        HdmiCecProcess::parse_power_state("power status: idk"),
        Some("UNKNOWN".to_string())
    );

    assert_eq!(HdmiCecProcess::parse_power_state("random junk"), None);
}

#[test]
fn status_words_other_than_on_and_standby_are_unknown() {
    for word in [
        "",
        "o",
        "On",
        "ON",
        "off",
        "on ",
        " on",
        "onn",
        "standby\r",
        "Standby",
        "in transition from standby to on",
        "unknown",
    ] {
        let line = format!("power status: {word}");
        assert_eq!(
            HdmiCecProcess::parse_power_state(&line),
            Some("UNKNOWN".to_string()),
            "{line:?}"
        );
        assert_eq!(PowerState::from_line(&line), Some(PowerState::Unknown));
    }
}

#[test]
fn lines_without_the_prefix_report_nothing() {
    for line in [
        "",
        "on",
        "standby",
        "power status",
        "power statu: on",
        "Power status: on",
        " power status: on",
        "TRAFFIC: power status: on",
        "power  status: on",
        "waiting for input",
    ] {
        assert_eq!(HdmiCecProcess::parse_power_state(line), None, "{line:?}");
        assert_eq!(PowerState::from_line(line), None, "{line:?}");
    }
}

#[test]
fn status_word_is_taken_by_position() {
    // The fourteenth character is skipped, whatever it is.
    assert_eq!(
        HdmiCecProcess::parse_power_state("power status:_on"),
        Some("ON".to_string())
    );
    assert_eq!(
        HdmiCecProcess::parse_power_state("power status:\tstandby"),
        Some("OFF".to_string())
    );
    // Without it the word starts one character late.
    assert_eq!(
        HdmiCecProcess::parse_power_state("power status:on"),
        Some("UNKNOWN".to_string())
    );
    assert_eq!(
        HdmiCecProcess::parse_power_state("power status:oon"),
        Some("ON".to_string())
    );
    // Two spaces leave one of them in the word.
    assert_eq!(
        HdmiCecProcess::parse_power_state("power status:  on"),
        Some("UNKNOWN".to_string())
    );
}

#[test]
fn bare_prefix_has_an_empty_status_word() {
    assert_eq!(
        HdmiCecProcess::parse_power_state("power status:"),
        Some("UNKNOWN".to_string())
    );
    assert_eq!(
        HdmiCecProcess::parse_power_state("power status: "),
        Some("UNKNOWN".to_string())
    );
}

#[test]
fn characters_are_counted_not_bytes() {
    assert_eq!(
        HdmiCecProcess::parse_power_state("power status:\u{e9}on"),
        Some("ON".to_string())
    );
    assert_eq!(
        HdmiCecProcess::parse_power_state("power status: \u{e9}teint"),
        Some("UNKNOWN".to_string())
    );
    assert_eq!(HdmiCecProcess::parse_power_state("\u{e9}tat: on"), None);
}

#[test]
fn parsing_twice_gives_the_same_result() {
    for line in [
        "power status: on",
        "power status: standby",
        "power status: idk",
        "random junk",
        "",
    ] {
        let first = HdmiCecProcess::parse_power_state(line);
        let second = HdmiCecProcess::parse_power_state(line);
        assert_eq!(first, second);
    }
}

#[test]
fn power_states_have_their_normalized_strings() {
    assert_eq!(PowerState::On.as_str(), "ON");
    assert_eq!(PowerState::Off.as_str(), "OFF");
    assert_eq!(PowerState::Unknown.as_str(), "UNKNOWN");
    assert_eq!(
        PowerState::from_line("power status: on"),
        Some(PowerState::On)
    );
    assert_eq!(
        PowerState::from_line("power status: standby"),
        Some(PowerState::Off)
    );
    assert_eq!(
        PowerState::from_line("power status: idk"),
        Some(PowerState::Unknown)
    );
}
