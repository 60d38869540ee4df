use rust_dmx::port::{DmxPort, PortKind, PortState};
use rust_dmx::select::{chosen_index, parse_index, ParseFailure, Retry};
use rust_dmx::{available_ports, select_port, PortListing};

fn listing() -> PortListing {
    let devices = vec![
        "/dev/ttyUSB0".to_string(),
        "/dev/ttyUSB1".to_string(),
        "/dev/ttyUSB2".to_string(),
    ];
    available_ports(Ok(devices)).unwrap()
}

fn names(ports: &PortListing) -> Vec<String> {
    ports.iter().map(|port| port.name().to_string()).collect()
}

#[test]
fn plain_numbers_are_parsed() {
    assert_eq!(parse_index("0"), Ok(0));
    assert_eq!(parse_index("7"), Ok(7));
    assert_eq!(parse_index("42"), Ok(42));
    assert_eq!(parse_index("007"), Ok(7));
    assert_eq!(parse_index("1234567890"), Ok(1234567890));
}

#[test]
fn plus_sign_is_accepted() {
    assert_eq!(parse_index("+3"), Ok(3));
    assert_eq!(parse_index(" +12 "), Ok(12));
}

#[test]
fn white_space_around_the_number_is_ignored() {
    assert_eq!(parse_index("  5"), Ok(5));
    assert_eq!(parse_index("5\n"), Ok(5));
    assert_eq!(parse_index("\t 5 \r\n"), Ok(5));
    assert_eq!(parse_index("\u{3000}5\u{a0}\u{2003}"), Ok(5));
}

#[test]
fn nothing_to_parse_is_empty() {
    assert_eq!(parse_index(""), Err(ParseFailure::Empty));
    assert_eq!(parse_index("   "), Err(ParseFailure::Empty));
    assert_eq!(parse_index("\n"), Err(ParseFailure::Empty));
}

#[test]
fn other_characters_are_invalid_digits() {
    assert_eq!(parse_index("abc"), Err(ParseFailure::InvalidDigit));
    assert_eq!(parse_index("12a"), Err(ParseFailure::InvalidDigit));
    assert_eq!(parse_index("-1"), Err(ParseFailure::InvalidDigit));
    assert_eq!(parse_index("+"), Err(ParseFailure::InvalidDigit));
    assert_eq!(parse_index("-"), Err(ParseFailure::InvalidDigit));
    assert_eq!(parse_index("++1"), Err(ParseFailure::InvalidDigit));
    assert_eq!(parse_index("1 2"), Err(ParseFailure::InvalidDigit));
    assert_eq!(parse_index("1.5"), Err(ParseFailure::InvalidDigit));
    assert_eq!(parse_index("٣"), Err(ParseFailure::InvalidDigit));
    assert_eq!(parse_index("+ 1"), Err(ParseFailure::InvalidDigit));
}

#[test]
fn largest_index_is_parsed() {
    assert_eq!(parse_index(&usize::MAX.to_string()), Ok(usize::MAX));
    assert_eq!(
        parse_index(&format!("000{}", usize::MAX)),
        Ok(usize::MAX)
    );
}

#[test]
fn numbers_beyond_the_largest_are_too_large() {
    let beyond = format!("{}", usize::MAX as u128 + 1);
    assert_eq!(parse_index(&beyond), Err(ParseFailure::TooLarge));
    assert_eq!(
        parse_index("99999999999999999999999999"),
        Err(ParseFailure::TooLarge)
    );
    assert_eq!(
        parse_index(&format!("{}0", usize::MAX)),
        Err(ParseFailure::TooLarge)
    );
}

#[test]
fn first_fault_from_the_left_decides() {
    assert_eq!(
        parse_index("99999999999999999999999999x"),
        Err(ParseFailure::TooLarge)
    );
    assert_eq!(
        parse_index("x99999999999999999999999999"),
        Err(ParseFailure::InvalidDigit)
    );
    assert_eq!(
        parse_index(&format!("{}x", usize::MAX)),
        Err(ParseFailure::InvalidDigit)
    );
}

#[test]
fn parsing_agrees_with_the_standard_library() {
    let max = usize::MAX.to_string();
    let beyond = format!("{}1", usize::MAX);
    let inputs = [
        "", " ", "0", "1", "10", " 3 ", "+4", "+", "-", "-0", "+-1", "1+", "0x10", "1_000",
        "12 ", "\t9", "9\u{2028}", "\u{85}8\u{1680}", "\u{200b}1", "１", "18446744073709551615",
        "18446744073709551616", "4294967295", "4294967296", "00000000000000000000000000001",
        "1e3", "12345678901234567890123x", max.as_str(), beyond.as_str(),
    ];
    for input in inputs {
        let expected = match input.trim().parse::<usize>() {
            Ok(value) => Ok(value),
            Err(e) => Err(e.to_string()),
        };
        let actual = match parse_index(input) {
            Ok(value) => Ok(value),
            Err(failure) => Err(failure.description().to_string()),
        };
        assert_eq!(actual, expected, "input {:?}", input);
    }
}

#[test]
fn failures_are_described() {
    assert_eq!(
        ParseFailure::Empty.description(),
        "cannot parse integer from empty string"
    );
    assert_eq!(
        ParseFailure::InvalidDigit.description(),
        "invalid digit found in string"
    );
    assert_eq!(
        ParseFailure::TooLarge.description(),
        "number too large to fit in target type"
    );
}

#[test]
fn index_within_the_listing_is_chosen() {
    assert_eq!(chosen_index("0", 1), Ok(0));
    assert_eq!(chosen_index(" 2\n", 3), Ok(2));
}

#[test]
fn index_beyond_the_listing_is_refused() {
    assert_eq!(chosen_index("3", 3), Err(Retry::OutOfRange(3)));
    assert_eq!(chosen_index("0", 0), Err(Retry::OutOfRange(0)));
    assert_eq!(chosen_index("100", 4), Err(Retry::OutOfRange(4)));
}

#[test]
fn text_that_is_no_number_is_refused() {
    assert_eq!(
        chosen_index("one", 3),
        Err(Retry::NotAnInteger(ParseFailure::InvalidDigit))
    );
    assert_eq!(
        chosen_index("", 3),
        Err(Retry::NotAnInteger(ParseFailure::Empty))
    );
    assert_eq!(
        chosen_index("99999999999999999999999999", 3),
        Err(Retry::NotAnInteger(ParseFailure::TooLarge))
    );
}

#[test]
fn selected_adapter_asks_for_its_link() {
    let mut ports = listing();
    let (port, request) = select_port(&mut ports, "2\n").unwrap();
    assert_eq!(port.name(), "/dev/ttyUSB1");
    assert_eq!(port.kind(), PortKind::Enttec);
    assert_eq!(port.state(), PortState::Closed);
    assert_eq!(request.unwrap().path, "/dev/ttyUSB1");
}

#[test]
fn selected_offline_port_is_open() {
    let mut ports = listing();
    let (port, request) = select_port(&mut ports, "0").unwrap();
    assert_eq!(port.name(), "offline");
    assert_eq!(port.state(), PortState::Open);
    assert!(request.is_none());
}

#[test]
fn selecting_moves_the_last_port_into_the_gap() {
    let mut ports = listing();
    select_port(&mut ports, "1").unwrap();
    assert_eq!(names(&ports), vec!["offline", "/dev/ttyUSB2", "/dev/ttyUSB1"]);

    let mut ports = listing();
    select_port(&mut ports, "3").unwrap();
    assert_eq!(names(&ports), vec!["offline", "/dev/ttyUSB0", "/dev/ttyUSB1"]);
}

#[test]
fn refused_input_leaves_the_listing() {
    let mut ports = listing();
    assert_eq!(
        select_port(&mut ports, "4").err(),
        Some(Retry::OutOfRange(4))
    );
    assert_eq!(
        select_port(&mut ports, "first").err(),
        Some(Retry::NotAnInteger(ParseFailure::InvalidDigit))
    );
    assert_eq!(
        names(&ports),
        vec!["offline", "/dev/ttyUSB0", "/dev/ttyUSB1", "/dev/ttyUSB2"]
    );
    assert!(select_port(&mut ports, "3").is_ok());
}

#[test]
fn nothing_can_be_selected_from_an_empty_listing() {
    let mut ports: PortListing = Vec::new();
    assert_eq!(
        select_port(&mut ports, "0").err(),
        Some(Retry::OutOfRange(0))
    );
}
