use terminal_bridge::args::{agent_args, make_port_arg};
use terminal_bridge::numeric::{decimal_string, parse_u32};

#[test]
fn decimal_of_zero() {
    assert_eq!(decimal_string(0), "0");
}

#[test]
fn decimal_of_a_port() {
    assert_eq!(decimal_string(4242), "4242");
}

#[test]
fn decimal_of_the_largest_port() {
    assert_eq!(decimal_string(65535), "65535");
}

#[test]
fn parse_reads_a_decimal_pid() {
    assert_eq!(parse_u32("4242"), Some(4242));
}

#[test]
fn parse_reads_zero() {
    assert_eq!(parse_u32("0"), Some(0));
}

#[test]
fn parse_accepts_leading_zeros() {
    assert_eq!(parse_u32("007"), Some(7));
}

#[test]
fn parse_rejects_the_empty_string() {
    assert_eq!(parse_u32(""), None);
}

#[test]
fn parse_rejects_a_non_digit() {
    assert_eq!(parse_u32("12a4"), None);
    assert_eq!(parse_u32("/dev/pts/7"), None);
    assert_eq!(parse_u32("-3"), None);
    assert_eq!(parse_u32("+3"), None);
    assert_eq!(parse_u32(" 3"), None);
}

#[test]
fn parse_reads_the_largest_value() {
    assert_eq!(parse_u32("4294967295"), Some(u32::MAX));
}

#[test]
fn parse_rejects_just_past_the_largest_value() {
    assert_eq!(parse_u32("4294967296"), None);
}

#[test]
fn parse_rejects_far_past_the_largest_value() {
    assert_eq!(parse_u32("99999999999999999999"), None);
}

#[test]
fn parse_reads_back_what_the_formatter_wrote() {
    for port in [0u16, 1, 9, 10, 99, 100, 8080, 65535] {
        assert_eq!(parse_u32(&decimal_string(port)), Some(port as u32));
    }
}

#[test]
fn port_arg_has_the_flag_and_digits() {
    assert_eq!(make_port_arg(4242), "--port=4242");
    assert_eq!(make_port_arg(0), "--port=0");
}

#[test]
fn agent_args_shape() {
    let args = agent_args("/usr/local/bin/controller", 39999);
    assert_eq!(
        args,
        vec![
            String::from("/usr/local/bin/controller"),
            String::from("terminal-agent"),
            String::from("--port=39999"),
        ]
    );
}
