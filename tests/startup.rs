use midi_thru::startup::{
    get_input_port, get_output_port, parse_device_id, plan_startup, CommandLine, DeviceError,
    Direction, PortRequest, RunPlan, Startup, StartupError,
};

fn cl(help: bool, print: bool, monitor: bool, input: Option<&str>, output: Option<&str>) -> CommandLine {
    CommandLine {
        help,
        print,
        monitor,
        input: input.map(|s| s.to_string()),
        output: output.map(|s| s.to_string()),
    }
}

#[test]
fn parses_device_numbers() {
    assert_eq!(parse_device_id("0"), Some(0));
    assert_eq!(parse_device_id("12"), Some(12));
    assert_eq!(parse_device_id("+7"), Some(7));
    assert_eq!(parse_device_id("-3"), Some(-3));
    assert_eq!(parse_device_id("007"), Some(7));
    assert_eq!(parse_device_id("2147483647"), Some(i32::MAX));
    assert_eq!(parse_device_id("-2147483648"), Some(i32::MIN));
}

#[test]
fn rejects_bad_device_numbers() {
    for s in ["", "-", "+", "abc", "1x", " 1", "1 ", "--1", "+-1", "1.0", "2147483648", "-2147483649", "99999999999999999999"] {
        assert_eq!(parse_device_id(s), None, "{:?}", s);
        assert_eq!(parse_device_id(s), s.parse::<i32>().ok(), "{:?}", s);
    }
}

#[test]
fn help_comes_first() {
    assert_eq!(plan_startup(&cl(true, true, true, Some("x"), Some("y"))), Ok(Startup::Usage));
}

#[test]
fn bad_input_number_is_fatal() {
    assert_eq!(plan_startup(&cl(false, false, true, Some("one"), Some("2"))), Err(StartupError::InvalidInputId));
    assert_eq!(plan_startup(&cl(false, true, false, Some("99999999999"), None)), Err(StartupError::InvalidInputId));
}

#[test]
fn bad_output_number_is_fatal() {
    assert_eq!(plan_startup(&cl(false, false, false, Some("1"), Some("two"))), Err(StartupError::InvalidOutputId));
    assert_eq!(plan_startup(&cl(false, false, false, None, Some("-"))), Err(StartupError::InvalidOutputId));
}

#[test]
fn launch_plans() {
    assert_eq!(
        plan_startup(&cl(false, true, false, None, None)),
        Ok(Startup::Launch { list_devices: true, run: None })
    );
    assert_eq!(
        plan_startup(&cl(false, false, true, Some("3"), Some("5"))),
        Ok(Startup::Launch {
            list_devices: false,
            run: Some(RunPlan { input_device: 3, output_device: Some(5), monitor: true }),
        })
    );
    assert_eq!(
        plan_startup(&cl(false, false, false, Some("0"), None)),
        Ok(Startup::Launch {
            list_devices: false,
            run: Some(RunPlan { input_device: 0, output_device: None, monitor: false }),
        })
    );
}

#[test]
fn port_requests() {
    assert_eq!(
        get_input_port(1, 4),
        Ok(PortRequest { device_id: 1, direction: Direction::Input, buffer_size: 1024 })
    );
    assert_eq!(
        get_output_port(3, 4),
        Ok(PortRequest { device_id: 3, direction: Direction::Output, buffer_size: 1024 })
    );
    assert_eq!(get_input_port(4, 4), Err(DeviceError::InvalidDeviceId));
    assert_eq!(get_output_port(-1, 4), Err(DeviceError::InvalidDeviceId));
    assert_eq!(get_input_port(0, 0), Err(DeviceError::InvalidDeviceId));
}
