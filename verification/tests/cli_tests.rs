use webmux::cli::{
    command_with_newline, usage, websocket_url, Args, ArgsError, InputBuffer, Key, KeyAction,
};

#[test]
fn test_args_default_host_and_port() {
    let args = Args::try_parse_from(&["webmux-cli", "--device", "test_device"]).unwrap();
    assert_eq!(args.host, "127.0.0.1");
    assert_eq!(args.port, 8080);
    assert_eq!(args.device, "test_device");
    assert_eq!(args.tls, false);
}

#[test]
fn test_args_custom_host() {
    let args =
        Args::try_parse_from(&["webmux-cli", "-H", "192.168.1.100", "-d", "sensor"]).unwrap();
    assert_eq!(args.host, "192.168.1.100");
    assert_eq!(args.port, 8080);
    assert_eq!(args.device, "sensor");
}

#[test]
fn test_args_custom_port() {
    let args = Args::try_parse_from(&["webmux-cli", "-p", "9000", "-d", "mcu"]).unwrap();
    assert_eq!(args.host, "127.0.0.1");
    assert_eq!(args.port, 9000);
    assert_eq!(args.device, "mcu");
}

#[test]
fn test_args_tls_enabled() {
    let args = Args::try_parse_from(&["webmux-cli", "-s", "-d", "plc"]).unwrap();
    assert_eq!(args.tls, true);
    assert_eq!(args.device, "plc");
}

#[test]
fn test_args_long_form() {
    let args = Args::try_parse_from(&[
        "webmux-cli",
        "--host",
        "example.com",
        "--port",
        "443",
        "--device",
        "industrial_plc",
        "--tls",
    ])
    .unwrap();
    assert_eq!(args.host, "example.com");
    assert_eq!(args.port, 443);
    assert_eq!(args.device, "industrial_plc");
    assert_eq!(args.tls, true);
}

#[test]
fn test_args_missing_device() {
    let result = Args::try_parse_from(&["webmux-cli"]);
    assert!(result.is_err());
}

#[test]
fn test_args_invalid_port() {
    let result = Args::try_parse_from(&["webmux-cli", "-p", "70000", "-d", "test"]);
    assert!(result.is_err());
}

#[test]
fn test_websocket_url_construction() {
    let protocol = "ws";
    let host = "127.0.0.1";
    let port = 8080;
    let device = "iot_sensor";
    let ws_url = websocket_url(protocol, host, port, device);
    assert_eq!(ws_url, "ws://127.0.0.1:8080/api/connections/iot_sensor/ws");
}

#[test]
fn test_websocket_url_construction_wss() {
    let protocol = "wss";
    let host = "example.com";
    let port = 443;
    let device = "embedded_mcu";
    let ws_url = websocket_url(protocol, host, port, device);
    assert_eq!(
        ws_url,
        "wss://example.com:443/api/connections/embedded_mcu/ws"
    );
}

fn typed(buffer: &mut InputBuffer, text: &str) {
    for c in text.chars() {
        match buffer.on_key(Key::Char(c)) {
            KeyAction::Echo(shown) => assert_eq!(shown, c),
            other => panic!("a character key gave {:?}", other),
        }
    }
}

fn sent(buffer: &mut InputBuffer) -> String {
    match buffer.on_key(Key::Enter) {
        KeyAction::Send(text) => text,
        other => panic!("enter gave {:?}", other),
    }
}

#[test]
fn test_input_buffer_behavior() {
    let mut buffer = InputBuffer::new();
    typed(&mut buffer, "TEST");
    assert!(matches!(buffer.on_key(Key::Backspace), KeyAction::Erase));
    let mut probe = InputBuffer::new();
    typed(&mut probe, "TES");
    assert_eq!(sent(&mut probe), "TES\r\n");

    typed(&mut buffer, "T");
    assert_eq!(sent(&mut buffer), "TEST\r\n");

    // Enter has emptied the line.
    assert_eq!(sent(&mut buffer), "\r\n");
    assert!(matches!(buffer.on_key(Key::Backspace), KeyAction::Nothing));
}

#[test]
fn test_command_with_newline() {
    let command = "STATUS";
    let command_with_newline = command_with_newline(command);
    assert_eq!(command_with_newline, "STATUS\r\n");
}

#[test]
fn args_url_follows_the_tls_switch() {
    let plain = Args::try_parse_from(&["webmux-cli", "-d", "a"]).unwrap();
    assert_eq!(plain.websocket_url(), "ws://127.0.0.1:8080/api/connections/a/ws");
    let secure = Args::try_parse_from(&["webmux-cli", "-d", "a", "-s", "-p", "0"]).unwrap();
    assert_eq!(secure.websocket_url(), "wss://127.0.0.1:0/api/connections/a/ws");
    let top = websocket_url("ws", "h", 65535, "d");
    assert_eq!(top, "ws://h:65535/api/connections/d/ws");
}

#[test]
fn args_each_fault_is_reported() {
    let parse = |args: &[&str]| Args::try_parse_from(args).unwrap_err();
    assert!(matches!(parse(&["cli", "--help", "-d", "x"]), ArgsError::Help));
    assert!(matches!(parse(&["cli", "-h"]), ArgsError::Help));
    assert!(matches!(parse(&["cli", "extra"]), ArgsError::Unknown(a) if a == "extra"));
    assert!(matches!(parse(&["cli", "--device=x"]), ArgsError::Unknown(a) if a == "--device=x"));
    assert!(matches!(parse(&["cli", "-d"]), ArgsError::MissingValue(a) if a == "-d"));
    assert!(matches!(parse(&["cli", "--host", "--tls"]), ArgsError::MissingValue(a) if a == "--host"));
    assert!(matches!(parse(&["cli", "-d", "a", "--device", "b"]), ArgsError::Repeated(a) if a == "--device"));
    assert!(matches!(parse(&["cli", "-s", "--tls"]), ArgsError::Repeated(a) if a == "--tls"));
    assert!(matches!(parse(&["cli", "-p", "65536"]), ArgsError::InvalidPort(a) if a == "65536"));
    assert!(matches!(parse(&["cli", "-p", "80a"]), ArgsError::InvalidPort(a) if a == "80a"));
    assert!(matches!(parse(&["cli", "-p", ""]), ArgsError::InvalidPort(a) if a.is_empty()));
    assert!(matches!(parse(&["cli", "-p", "1"]), ArgsError::MissingDevice));
    assert!(matches!(parse(&[]), ArgsError::MissingDevice));
    // The first fault from the left wins.
    assert!(matches!(parse(&["cli", "-p", "x", "what"]), ArgsError::InvalidPort(_)));
}

#[test]
fn args_port_numerals() {
    let port = |text: &str| Args::try_parse_from(&["cli", "-d", "x", "-p", text]).map(|a| a.port);
    assert_eq!(port("65535").unwrap(), 65535);
    assert_eq!(port("+80").unwrap(), 80);
    assert_eq!(port("00080").unwrap(), 80);
    assert_eq!(port("0").unwrap(), 0);
    assert!(port("+").is_err());
    assert!(port("8 0").is_err());
    assert!(port("99999999999999999999999999").is_err());
}

#[test]
fn keys_that_change_nothing() {
    let mut buffer = InputBuffer::new();
    typed(&mut buffer, "ab");
    assert!(matches!(buffer.on_key(Key::Other), KeyAction::Nothing));
    assert!(matches!(buffer.on_key(Key::Interrupt), KeyAction::Disconnect));
    assert_eq!(sent(&mut buffer), "ab\r\n");
}

#[test]
fn args_faults_in_words() {
    let text = |error: ArgsError| error.message();
    assert_eq!(text(ArgsError::Unknown("x".to_string())), "unexpected argument 'x' found");
    assert_eq!(
        text(ArgsError::MissingValue("--host".to_string())),
        "a value is required for '--host' but none was supplied"
    );
    assert_eq!(
        text(ArgsError::Repeated("-s".to_string())),
        "the argument '-s' cannot be used multiple times"
    );
    assert_eq!(
        text(ArgsError::InvalidPort("70000".to_string())),
        "invalid value '70000' for '--port <PORT>'"
    );
    assert_eq!(
        text(ArgsError::MissingDevice),
        "the following required arguments were not provided:\n  --device <DEVICE>"
    );
    assert_eq!(text(ArgsError::Help), usage());
    assert!(usage().starts_with("WebMux CLI - Connect to serial devices through WebMux server\n"));
    assert!(usage().contains("\n  -d, --device <DEVICE>  Serial device/connection name\n"));
    assert!(usage().ends_with("  -h, --help             Print help\n"));
}
