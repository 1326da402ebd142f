use overlay_core::parse_watchdog_override;

#[test]
fn words_that_enable() {
    for v in ["1", "true", "on", "TRUE", "On", "tRuE", "  on  ", "\ttrue\n", "\u{3000}ON\u{a0}"] {
        assert_eq!(parse_watchdog_override(v), Some(true), "{v:?}");
    }
}

#[test]
fn words_that_disable() {
    for v in ["0", "false", "off", "FALSE", "Off", " 0 ", "\r\noff\u{2009}"] {
        assert_eq!(parse_watchdog_override(v), Some(false), "{v:?}");
    }
}

#[test]
fn other_values_are_no_override() {
    for v in ["", "   ", "yes", "no", "2", "o n", "tru", "truee", "01", "\u{200b}on", "ÖN", "ｏｎ"] {
        assert_eq!(parse_watchdog_override(v), None, "{v:?}");
    }
}

#[test]
fn agrees_with_std_trim_and_lowercase() {
    let samples = [
        " On ", "\u{85}off\u{1680}", "\u{feff}on", "x", "ON\u{202f}", "\u{2028}1\u{2029}", "0\u{205f}",
    ];
    for v in samples {
        let t = v.trim().to_ascii_lowercase();
        let expected = match t.as_str() {
            "1" | "true" | "on" => Some(true),
            "0" | "false" | "off" => Some(false),
            _ => None,
        };
        assert_eq!(parse_watchdog_override(v), expected, "{v:?}");
    }
}
