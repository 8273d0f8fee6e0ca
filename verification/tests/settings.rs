use super_simple_upload::settings::{
    parse_port, port_from, PortError, DEFAULT_PORT, MAX_REQUEST_BYTES, STATUS_LINE,
};

#[test]
fn default_port_is_8080() {
    assert_eq!(DEFAULT_PORT, 8080);
    assert_eq!(port_from(None), Ok(8080));
}

#[test]
fn largest_request_is_one_gibibyte() {
    assert_eq!(MAX_REQUEST_BYTES, 1024 * 1024 * 1024);
}

#[test]
fn status_line_names_the_service() {
    assert_eq!(STATUS_LINE, "super-simple-upload running...");
}

#[test]
fn port_is_taken_from_its_text() {
    assert_eq!(port_from(Some("3000")), Ok(3000));
    assert_eq!(port_from(Some("8080")), Ok(8080));
    assert_eq!(parse_port("80"), Ok(80));
    assert_eq!(parse_port("0"), Ok(0));
    assert_eq!(parse_port("65535"), Ok(65535));
    assert_eq!(parse_port("+443"), Ok(443));
    assert_eq!(parse_port("00080"), Ok(80));
    assert_eq!(parse_port("0000000000000000000000080"), Ok(80));
}

#[test]
fn text_that_is_no_port_is_refused() {
    assert_eq!(port_from(Some("")), Err(PortError::Invalid));
    assert_eq!(parse_port(""), Err(PortError::Invalid));
    assert_eq!(parse_port("+"), Err(PortError::Invalid));
    assert_eq!(parse_port("-"), Err(PortError::Invalid));
    assert_eq!(parse_port("-1"), Err(PortError::Invalid));
    assert_eq!(parse_port("++1"), Err(PortError::Invalid));
    assert_eq!(parse_port("65536"), Err(PortError::Invalid));
    assert_eq!(parse_port("99999999999999999999"), Err(PortError::Invalid));
    assert_eq!(parse_port("4294967376"), Err(PortError::Invalid));
    assert_eq!(parse_port("80 "), Err(PortError::Invalid));
    assert_eq!(parse_port(" 80"), Err(PortError::Invalid));
    assert_eq!(parse_port("8o"), Err(PortError::Invalid));
    assert_eq!(parse_port("80.0"), Err(PortError::Invalid));
    assert_eq!(parse_port("0x50"), Err(PortError::Invalid));
    assert_eq!(parse_port("http"), Err(PortError::Invalid));
    assert_eq!(parse_port("\u{0663}"), Err(PortError::Invalid));
    assert_eq!(parse_port("70000x"), Err(PortError::Invalid));
}

#[test]
fn port_is_told_as_the_standard_parser_tells_it() {
    let texts = [
        "", "+", "-", "0", "1", "+1", "-1", "+0", "-0", "80", "8080", "08080", "65535", "65536",
        "+65535", "+65536", "655350", "100000", "4294967295", "4294967296", "4294967376", " 1",
        "1 ", "1\n", "1+", "++1", "+-1", "1.0", "1e3", "0x10", "\u{0661}", "12a", "a12", "1_000",
        "18446744073709551616",
    ];
    for text in texts {
        assert_eq!(parse_port(text).ok(), text.parse::<u16>().ok(), "for {:?}", text);
    }
    for n in 0..=70000u32 {
        let text = n.to_string();
        assert_eq!(parse_port(&text).ok(), text.parse::<u16>().ok());
    }
}
