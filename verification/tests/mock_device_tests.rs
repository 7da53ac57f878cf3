use webmux::cli::{on_incoming, show_member, Incoming, Shown};
use webmux::mock_device::{
    cycle_status, mcu_telemetry, parse_options, DeviceType, Exchange, Options, Startup,
};
use webmux::text::{parse_decimal, push_decimal, same_text};

fn args(words: &[&str]) -> Vec<String> {
    words.iter().map(|w| w.to_string()).collect()
}

#[test]
fn device_names_in_any_case() {
    assert_eq!(DeviceType::from_str("iot"), Some(DeviceType::IoTSensor));
    assert_eq!(DeviceType::from_str("Sensor"), Some(DeviceType::IoTSensor));
    assert_eq!(DeviceType::from_str("MCU"), Some(DeviceType::EmbeddedMcu));
    assert_eq!(DeviceType::from_str("embedded"), Some(DeviceType::EmbeddedMcu));
    assert_eq!(DeviceType::from_str("pLc"), Some(DeviceType::IndustrialPlc));
    assert_eq!(DeviceType::from_str("INDUSTRIAL"), Some(DeviceType::IndustrialPlc));
    assert_eq!(DeviceType::from_str("robot"), None);
    assert_eq!(DeviceType::from_str(" iot"), None);
    assert_eq!(DeviceType::from_str(""), None);
}

#[test]
fn device_names_and_speeds() {
    assert_eq!(DeviceType::IoTSensor.name(), "IoT Sensor");
    assert_eq!(DeviceType::EmbeddedMcu.name(), "Embedded MCU");
    assert_eq!(DeviceType::IndustrialPlc.name(), "Industrial PLC");
    assert_eq!(DeviceType::IoTSensor.default_baud_rate(), 115200);
    assert_eq!(DeviceType::EmbeddedMcu.default_baud_rate(), 9600);
    assert_eq!(DeviceType::IndustrialPlc.default_baud_rate(), 19200);
}

#[test]
fn the_sensor_answers() {
    let d = DeviceType::IoTSensor;
    assert_eq!(d.process_command("STATUS"), "STATUS:OK\n");
    assert_eq!(d.process_command("  status?\r\n"), "STATUS:OK\n");
    assert_eq!(d.process_command("version"), "VERSION:1.0.0\n");
    assert_eq!(d.process_command("ID?"), "ID:IOT-SENSOR-001\n");
    assert_eq!(d.process_command("help"), "COMMANDS: STATUS, VERSION, ID, TEMP, HUMIDITY, HELP\n");
    assert_eq!(d.process_command("Temp"), "TEMP:23.45\n");
    assert_eq!(d.process_command("humidity?"), "HUMIDITY:58.2\n");
    assert_eq!(d.process_command("reset"), "ERROR:UNKNOWN_COMMAND:RESET\n");
    assert_eq!(d.process_command("status ?"), "ERROR:UNKNOWN_COMMAND:STATUS ?\n");
    assert_eq!(d.process_command(""), "ERROR:UNKNOWN_COMMAND:\n");
}

#[test]
fn the_microcontroller_answers() {
    let d = DeviceType::EmbeddedMcu;
    assert_eq!(d.process_command("status"), "OK\n");
    assert_eq!(d.process_command("VERSION?"), "MCU v2.1.0\n");
    assert_eq!(d.process_command("id"), "ARDUINO-MEGA-2560\n");
    assert_eq!(d.process_command("HELP"), "AVAILABLE: STATUS, VERSION, ID, READ, RESET, HELP\n");
    assert_eq!(d.process_command("read?"), "ADC0:512,ADC1:768,ADC2:256\n");
    assert_eq!(d.process_command("reset"), "RESETTING...\nOK\n");
    assert_eq!(d.process_command("reset?"), "ERR:RESET?\n");
    assert_eq!(d.process_command("temp"), "ERR:TEMP\n");
}

#[test]
fn the_controller_answers() {
    let d = DeviceType::IndustrialPlc;
    assert_eq!(d.process_command("status"), "PLC:RUNNING,MODE:AUTO\n");
    assert_eq!(d.process_command("version"), "PLC-5000 v3.2.1\n");
    assert_eq!(d.process_command("id?"), "PLC-5000-SN:98765\n");
    assert_eq!(
        d.process_command("help"),
        "COMMANDS: STATUS, VERSION, ID, PRESSURE, STOP, START, HELP\n"
    );
    assert_eq!(d.process_command("pressure"), "PRESSURE:105.3 PSI\n");
    assert_eq!(d.process_command("stop"), "SYSTEM:STOPPED\n");
    assert_eq!(d.process_command("start"), "SYSTEM:STARTED\n");
    assert_eq!(d.process_command("stop?"), "ERR:INVALID_CMD:STOP?\n");
    assert_eq!(d.process_command("\u{a0}go\u{3000}"), "ERR:INVALID_CMD:GO\n");
}

#[test]
fn answers_to_prepared_commands() {
    assert_eq!(DeviceType::EmbeddedMcu.answer_to("STATUS"), "OK\n");
    assert_eq!(DeviceType::EmbeddedMcu.answer_to("status"), "ERR:status\n");
}

#[test]
fn simulator_command_lines() {
    assert_eq!(parse_options(&args(&["mock_device"])), Startup::Usage);
    assert_eq!(parse_options(&args(&["mock_device", "/dev/ttyUSB0"])), Startup::Usage);
    assert_eq!(parse_options(&args(&["mock_device", "/dev/ttyUSB0", "iot", "-h"])), Startup::Usage);
    assert_eq!(parse_options(&args(&["mock_device", "--help", "iot"])), Startup::Usage);
    assert_eq!(
        parse_options(&args(&["mock_device", "COM3", "toaster"])),
        Startup::InvalidDevice("toaster".to_string())
    );
    assert_eq!(
        parse_options(&args(&["mock_device", "/dev/ttyUSB0", "iot"])),
        Startup::Run(Options {
            port_name: "/dev/ttyUSB0".to_string(),
            device_type: DeviceType::IoTSensor,
            baud_rate: 115200,
            telemetry_interval: 5,
            echo_mode: false,
            verbose: false,
        })
    );
    assert_eq!(
        parse_options(&args(&[
            "mock_device", "COM3", "mcu", "--telemetry", "2", "junk", "--echo", "--baud", "57600",
            "--verbose",
        ])),
        Startup::Run(Options {
            port_name: "COM3".to_string(),
            device_type: DeviceType::EmbeddedMcu,
            baud_rate: 57600,
            telemetry_interval: 2,
            echo_mode: true,
            verbose: true,
        })
    );
}

#[test]
fn simulator_option_values_that_are_no_numbers() {
    // A value that is no number keeps the setting, and is still used up.
    let startup = parse_options(&args(&["m", "p", "plc", "--baud", "--echo", "--telemetry", "x1"]));
    assert_eq!(
        startup,
        Startup::Run(Options {
            port_name: "p".to_string(),
            device_type: DeviceType::IndustrialPlc,
            baud_rate: 19200,
            telemetry_interval: 5,
            echo_mode: false,
            verbose: false,
        })
    );
    // An option at the very end has no value to take.
    let startup = parse_options(&args(&["m", "p", "plc", "--verbose", "--baud"]));
    assert!(matches!(startup, Startup::Run(o) if o.baud_rate == 19200 && o.verbose));
    let startup = parse_options(&args(&["m", "p", "plc", "--baud", "4294967296", "--baud", "+4294967295"]));
    assert!(matches!(startup, Startup::Run(o) if o.baud_rate == 4294967295));
    let startup = parse_options(&args(&["m", "p", "plc", "--telemetry", "18446744073709551615"]));
    assert!(matches!(startup, Startup::Run(o) if o.telemetry_interval == u64::MAX));
    let startup = parse_options(&args(&["m", "p", "plc", "--telemetry", "18446744073709551616"]));
    assert!(matches!(startup, Startup::Run(o) if o.telemetry_interval == 5));
}

#[test]
fn numerals_as_the_standard_library_reads_them() {
    for text in ["0", "7", "+7", "007", "65535", "65536", "", "+", "-1", "1 ", " 1", "1_0", "0x10",
        "4294967295", "4294967296", "99999999999999999999", "\u{663}"]
    {
        assert_eq!(parse_decimal(text, u32::MAX as u64), text.parse::<u32>().ok().map(u64::from));
        assert_eq!(parse_decimal(text, u64::MAX), text.parse::<u64>().ok());
        assert_eq!(parse_decimal(text, 65535), text.parse::<u16>().ok().map(u64::from));
    }
    assert_eq!(parse_decimal("10", 9), None);
    assert_eq!(parse_decimal("9", 9), Some(9));
    assert_eq!(parse_decimal("0", 0), Some(0));
}

#[test]
fn numbers_as_the_standard_library_writes_them() {
    for n in [0u64, 1, 9, 10, 11, 99, 100, 101, 1024, 65535, 4294967296, u64::MAX] {
        let mut out = String::from("n=");
        push_decimal(&mut out, n);
        assert_eq!(out, format!("n={}", n));
    }
}

#[test]
fn texts_are_compared_character_by_character() {
    assert!(same_text("", ""));
    assert!(same_text("caf\u{e9}", "caf\u{e9}"));
    assert!(!same_text("cafe", "caf\u{e9}"));
    assert!(!same_text("a", "ab"));
    assert!(!same_text("ab", "ac"));
}

#[test]
fn frames_from_the_server() {
    let text = |s: &str| Incoming::Text(s.to_string());
    assert_eq!(on_incoming(&text(r#"{"data":"hi\n","x":1}"#)), Shown::Print("hi\n".to_string()));
    assert_eq!(on_incoming(&text(r#"{"data":5}"#)), Shown::Nothing);
    assert_eq!(on_incoming(&text(r#"{"other":"x"}"#)), Shown::Nothing);
    assert_eq!(on_incoming(&text(r#"["data"]"#)), Shown::Nothing);
    assert_eq!(on_incoming(&text("data")), Shown::Nothing);
    assert_eq!(on_incoming(&text("Error: Connection not found: x")), Shown::Nothing);
    assert_eq!(on_incoming(&Incoming::Binary(b"OK\r\n".to_vec())), Shown::Print("OK\r\n".to_string()));
    assert_eq!(
        on_incoming(&Incoming::Binary(vec![b'a', 0xff, b'b'])),
        Shown::Print("a\u{fffd}b".to_string())
    );
    assert_eq!(on_incoming(&Incoming::Close), Shown::Closed);
    assert_eq!(on_incoming(&Incoming::Other), Shown::Nothing);
    assert_eq!(show_member(Some("x".to_string())), Shown::Print("x".to_string()));
    assert_eq!(show_member(None), Shown::Nothing);
}

#[test]
fn device_names_in_lower_case_only() {
    assert_eq!(DeviceType::from_lowercase("plc"), Some(DeviceType::IndustrialPlc));
    assert_eq!(DeviceType::from_lowercase("sensor"), Some(DeviceType::IoTSensor));
    assert_eq!(DeviceType::from_lowercase("embedded"), Some(DeviceType::EmbeddedMcu));
    assert_eq!(DeviceType::from_lowercase("PLC"), None);
}

#[test]
fn telemetry_parts() {
    let states: Vec<&str> = (0..12).map(cycle_status).collect();
    assert_eq!(
        states,
        ["OK", "OK", "OK", "OK", "OK", "OK", "OK", "OK", "WARN", "WARN", "OK", "OK"]
    );
    assert_eq!(cycle_status(u32::MAX), "OK");
    assert_eq!(cycle_status(4294967289), "WARN");
    assert_eq!(mcu_telemetry(512, 0), "ADC:512,COUNT:0\n");
    assert_eq!(mcu_telemetry(65535, 4294967295), "ADC:65535,COUNT:4294967295\n");
}

fn exchange(command: &str, response: &str) -> Exchange {
    Exchange { command: command.to_string(), response: response.to_string() }
}

#[test]
fn a_block_of_commands_is_answered_line_by_line() {
    let d = DeviceType::EmbeddedMcu;
    assert_eq!(
        d.answers(b"status\r\n\r\n  id \nread?"),
        vec![
            exchange("status", "OK\n"),
            exchange("id", "ARDUINO-MEGA-2560\n"),
            exchange("read?", "ADC0:512,ADC1:768,ADC2:256\n"),
        ]
    );
    assert_eq!(d.answers(b""), vec![]);
    assert_eq!(d.answers(b"\n\n \r\n"), vec![]);
    assert_eq!(d.answers(b"reset\n"), vec![exchange("reset", "RESETTING...\nOK\n")]);
    assert_eq!(d.answers(b"a\xffb"), vec![exchange("a\u{fffd}b", "ERR:A\u{fffd}B\n")]);
    assert_eq!(d.answers_to_text("x\ny"), vec![exchange("x", "ERR:X\n"), exchange("y", "ERR:Y\n")]);
}

#[test]
fn a_block_is_split_as_the_standard_library_splits_lines() {
    let d = DeviceType::IoTSensor;
    for text in ["status", "status\n", "\nstatus", "a\r\nb\rc\n\nd\r", "\r\n", " \n \n", "id\n\ttemp"] {
        let expected: Vec<Exchange> = text
            .lines()
            .filter(|line| !line.trim().is_empty())
            .map(|line| Exchange {
                command: line.trim().to_string(),
                response: d.process_command(line),
            })
            .collect();
        assert_eq!(d.answers_to_text(text), expected);
    }
}
