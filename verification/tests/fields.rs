use carbon_footprint::field::{check_airport_code, Field};
use carbon_footprint::text::{join, parse_unsigned, same_text, trim};

#[test]
fn unsigned_numbers_are_read() {
    assert_eq!(parse_unsigned("0", 10), Some(0));
    assert_eq!(parse_unsigned("7", 10), Some(7));
    assert_eq!(parse_unsigned("10", 10), Some(10));
    assert_eq!(parse_unsigned("+10", 10), Some(10));
    assert_eq!(parse_unsigned("007", 10), Some(7));
    assert_eq!(parse_unsigned("4294967295", u32::MAX as u64), Some(4294967295));
    assert_eq!(parse_unsigned("18446744073709551615", u64::MAX), Some(u64::MAX));
    assert_eq!(
        parse_unsigned("000000000000000000000000000000000000042", u64::MAX),
        Some(42)
    );
}

#[test]
fn what_is_no_unsigned_number_is_refused() {
    assert_eq!(parse_unsigned("", 10), None);
    assert_eq!(parse_unsigned("+", 10), None);
    assert_eq!(parse_unsigned("-", 10), None);
    assert_eq!(parse_unsigned("-1", 10), None);
    assert_eq!(parse_unsigned("++1", 10), None);
    assert_eq!(parse_unsigned("1+", 10), None);
    assert_eq!(parse_unsigned(" 1", 10), None);
    assert_eq!(parse_unsigned("1 ", 10), None);
    assert_eq!(parse_unsigned("1_000", 10_000), None);
    assert_eq!(parse_unsigned("1.0", 10), None);
    assert_eq!(parse_unsigned("0x10", 100), None);
    assert_eq!(parse_unsigned("١٢", 100), None);
    assert_eq!(parse_unsigned("11", 10), None);
    assert_eq!(parse_unsigned("4294967296", u32::MAX as u64), None);
    assert_eq!(parse_unsigned("18446744073709551616", u64::MAX), None);
    assert_eq!(parse_unsigned("99999999999999999999999999", u64::MAX), None);
}

#[test]
fn unsigned_numbers_agree_with_std() {
    for text in ["0", "1", "+1", "-1", "", "+", "12a", "4294967295", "4294967296", "00012", "٣"] {
        let expected = text.parse::<u32>().ok().map(|n| n as u64);
        assert_eq!(parse_unsigned(text, u32::MAX as u64), expected);
    }
}

#[test]
fn texts_are_compared_by_their_characters() {
    assert!(same_text("km", "km"));
    assert!(same_text("", ""));
    assert!(!same_text("km", "mi"));
    assert!(!same_text("km", "km "));
}

#[test]
fn parts_are_joined_with_the_separator_between() {
    assert_eq!(join(&vec![], "; "), "");
    assert_eq!(join(&vec!["a".to_string()], "; "), "a");
    assert_eq!(join(&vec!["a".to_string(), "b".to_string()], "; "), "a; b");
    assert_eq!(
        join(&vec!["a".to_string(), String::new(), "c".to_string()], ", "),
        "a, , c"
    );
}

#[test]
fn airport_codes_are_three_capital_letters() {
    assert!(check_airport_code("LHR"));
    assert!(check_airport_code("AAA"));
    assert!(check_airport_code("ZZZ"));
    assert!(!check_airport_code(""));
    assert!(!check_airport_code("LH"));
    assert!(!check_airport_code("LHRX"));
    assert!(!check_airport_code("lhr"));
    assert!(!check_airport_code("LhR"));
    assert!(!check_airport_code("L1R"));
    assert!(!check_airport_code("L R"));
    assert!(!check_airport_code("ÉÉ"));
    assert!(!check_airport_code("ÀBC"));
    assert!(!check_airport_code("@[`"));
}

#[test]
fn invalid_airport_code_is_never_returned() {
    for line in ["lhr", "LH", "LHRX", "L1R", "", "   ", "L H R", "lHR\n", "JFK1"] {
        assert_eq!(Field::DepartureAirport.accept(line), None);
        assert_eq!(Field::DestinationAirport.accept(line), None);
    }
    assert_eq!(Field::DepartureAirport.accept("LHR"), Some("LHR".to_string()));
    assert_eq!(Field::DestinationAirport.accept("JFK"), Some("JFK".to_string()));
}

#[test]
fn lines_are_trimmed_before_they_are_judged() {
    assert_eq!(Field::DepartureAirport.accept("  LHR \r\n"), Some("LHR".to_string()));
    assert_eq!(Field::Passengers.accept("\t12\n"), Some("12".to_string()));
    assert_eq!(Field::CabinClass.accept(" premium "), Some("premium".to_string()));
    assert_eq!(Field::DepartureAirport.accept("\u{a0}LHR\u{2003}"), Some("LHR".to_string()));
}

#[test]
fn empty_lines_are_never_taken() {
    for field in [
        Field::Passengers,
        Field::LegCount,
        Field::DistanceUnit,
        Field::DepartureAirport,
        Field::DestinationAirport,
        Field::CabinClass,
    ] {
        assert_eq!(field.accept(""), None);
        assert_eq!(field.accept("  \n"), None);
        assert!(!field.takes(""));
    }
    assert!(Field::CabinClass.admits(""));
    assert!(Field::DistanceUnit.admits(""));
    assert!(!Field::Passengers.admits(""));
    assert!(!Field::DepartureAirport.admits(""));
}

#[test]
fn passengers_are_a_positive_number() {
    assert_eq!(Field::Passengers.accept("1"), Some("1".to_string()));
    assert_eq!(Field::Passengers.accept("4294967295"), Some("4294967295".to_string()));
    assert_eq!(Field::Passengers.accept("0"), None);
    assert_eq!(Field::Passengers.accept("000"), None);
    assert_eq!(Field::Passengers.accept("-3"), None);
    assert_eq!(Field::Passengers.accept("4294967296"), None);
    assert_eq!(Field::Passengers.accept("two"), None);
    assert_eq!(Field::Passengers.accept("1 2"), None);
}

#[test]
fn leg_count_may_be_zero() {
    assert_eq!(Field::LegCount.accept("0"), Some("0".to_string()));
    assert_eq!(Field::LegCount.accept("3"), Some("3".to_string()));
    assert_eq!(Field::LegCount.accept("-1"), None);
    assert_eq!(Field::LegCount.accept("3.5"), None);
    assert_eq!(Field::LegCount.accept("99999999999999999999999"), None);
}

#[test]
fn cabin_class_and_distance_unit_come_from_fixed_sets() {
    assert!(Field::CabinClass.admits("economy"));
    assert!(Field::CabinClass.admits("premium"));
    assert!(!Field::CabinClass.admits("business"));
    assert!(!Field::CabinClass.admits("Economy"));
    assert!(!Field::CabinClass.admits("first"));
    assert!(Field::DistanceUnit.admits("km"));
    assert!(Field::DistanceUnit.admits("mi"));
    assert!(!Field::DistanceUnit.admits("m"));
    assert!(!Field::DistanceUnit.admits("miles"));
    assert_eq!(Field::DistanceUnit.accept("km\n"), Some("km".to_string()));
    assert_eq!(Field::DistanceUnit.accept("KM"), None);
}

#[test]
fn every_field_has_its_prompt_and_error_message() {
    assert_eq!(Field::Passengers.prompt(), "Enter the number of passengers: ");
    assert_eq!(Field::LegCount.prompt(), "Enter the number of legs: ");
    assert_eq!(Field::DepartureAirport.prompt(), "Enter the departure airport IATA code: ");
    assert_eq!(Field::DestinationAirport.prompt(), "Enter the destination airport IATA code: ");
    assert_eq!(
        Field::CabinClass.prompt(),
        "Enter the cabin class (optional, defaults to 'economy'): "
    );
    assert_eq!(Field::DistanceUnit.prompt(), "Enter the distance unit ('km' or 'mi'): ");
    assert_eq!(Field::Passengers.error_message(), "Invalid input. Please enter a valid number.");
    assert_eq!(Field::LegCount.error_message(), "Invalid input. Please enter a valid number.");
    assert_eq!(
        Field::DepartureAirport.error_message(),
        "Invalid input. IATA codes should be exactly 3 uppercase letters."
    );
    assert_eq!(
        Field::DestinationAirport.error_message(),
        "Invalid input. IATA codes should be exactly 3 uppercase letters."
    );
    assert_eq!(
        Field::CabinClass.error_message(),
        "Invalid input. Cabin class can be 'economy' or 'premium'."
    );
    assert_eq!(
        Field::DistanceUnit.error_message(),
        "Invalid input. Distance unit can be 'km' or 'mi'."
    );
}

#[test]
fn leading_and_trailing_whitespace_is_removed() {
    assert_eq!(trim("  LHR  "), "LHR");
    assert_eq!(trim("LHR"), "LHR");
    assert_eq!(trim("\t a b \r\n"), "a b");
    assert_eq!(trim(""), "");
    assert_eq!(trim(" \n\t "), "");
    assert_eq!(trim("x "), "x");
    assert_eq!(trim(" x"), "x");
    assert_eq!(trim("\u{3000}é \u{85}ü\u{2028}"), "é \u{85}ü");
}

#[test]
fn trimming_agrees_with_std() {
    for text in [
        "",
        " ",
        "a",
        " a",
        "a ",
        " a b ",
        "\u{b}\u{c}x\u{1680}",
        "\u{200b}x\u{200b}",
        "\u{feff}x",
        "\u{a0}\u{2007}42\u{202f}\u{205f}",
        "日本 語\n",
        "\n\n\n",
    ] {
        assert_eq!(trim(text), text.trim());
    }
}
