use terminal_bridge::terminal::{Platform, Terminal};

#[test]
fn device_identity_from_newline_line() {
    let t = Terminal::from_handshake_line(Platform::DeviceFile, "/dev/pts/7\n");
    assert_eq!(t.input_devname(), "/dev/pts/7");
    assert_eq!(t.output_devname(), "/dev/pts/7");
}

#[test]
fn device_identity_from_crlf_line() {
    let t = Terminal::from_handshake_line(Platform::DeviceFile, "/dev/pts/7\r\n");
    assert_eq!(t.input_devname(), "/dev/pts/7");
}

#[test]
fn device_identity_from_unterminated_line() {
    let t = Terminal::from_handshake_line(Platform::DeviceFile, "/dev/pts/7");
    assert_eq!(t.input_devname(), "/dev/pts/7");
}

#[test]
fn device_identity_from_padded_line() {
    let t = Terminal::from_handshake_line(Platform::DeviceFile, "/dev/ttys003 \t\r\n");
    assert_eq!(t.input_devname(), "/dev/ttys003");
}

#[test]
fn only_the_tail_is_trimmed() {
    let t = Terminal::from_handshake_line(Platform::DeviceFile, " x\n");
    assert_eq!(t.input_devname(), " x");
}

#[test]
fn trimmed_identity_has_no_trailing_terminator() {
    for line in ["9001\n", "9001\r\n", "9001\r", "9001"] {
        let t = Terminal::from_handshake_line(Platform::DeviceFile, line);
        let id = t.input_devname();
        assert!(!id.ends_with('\n'));
        assert!(!id.ends_with('\r'));
        assert_eq!(id, "9001");
    }
}

#[test]
fn device_devnames_equal_identity_unmodified() {
    let t = Terminal::from_handshake_line(Platform::DeviceFile, "/dev/pts/12\n");
    assert_eq!(t.input_devname(), t.output_devname());
    assert_eq!(t.input_devname(), "/dev/pts/12");
}

#[test]
fn console_devnames_are_fixed_symbolic_names() {
    let t = Terminal::from_handshake_line(Platform::ConsoleModel, "4242\n");
    assert_eq!(t.input_devname(), "CONIN$");
    assert_eq!(t.output_devname(), "CONOUT$");
}

#[test]
fn console_devnames_do_not_depend_on_identity() {
    let a = Terminal::from_handshake_line(Platform::ConsoleModel, "4242\n");
    let b = Terminal::from_handshake_line(Platform::ConsoleModel, "31337\r\n");
    assert_eq!(a.input_devname(), b.input_devname());
    assert_eq!(a.output_devname(), b.output_devname());
}

#[test]
fn console_pid_reads_the_identity() {
    let t = Terminal::from_handshake_line(Platform::ConsoleModel, "4242\r\n");
    assert_eq!(t.console_pid(), Some(4242));
}

#[test]
fn console_pid_rejects_a_device_path() {
    let t = Terminal::from_handshake_line(Platform::ConsoleModel, "/dev/pts/7\n");
    assert_eq!(t.console_pid(), None);
}

#[test]
fn attach_is_passthrough_on_device_file() {
    let t = Terminal::from_handshake_line(Platform::DeviceFile, "/dev/pts/7\n");
    let direct = (|| 40 + 2)();
    let through = t.attach(|| 40 + 2);
    assert_eq!(through, direct);
    assert_eq!(through, 42);
}

#[test]
fn attach_passes_a_captured_value_through() {
    let t = Terminal::from_handshake_line(Platform::DeviceFile, "tty\n");
    let payload = String::from("hello");
    let out = t.attach(move || payload);
    assert_eq!(out, "hello");
}
