use std::time::Duration;
use yapu::cli::list;
use yapu::cli::Cli;
use yapu::cli::Command;
use yapu::cli::Device;
use yapu::cli::DeviceIdentify;
use yapu::cli::DeviceOptions;
use yapu::cli::DeviceSignal;
use yapu::cli::DiscoverOptions;
use yapu::cli::Format;
use yapu::cli::ProbeOptions;
use yapu::cli::ShellOptions;
use yapu::cli::Task;
use yapu::shell::Query;
use yapu::shell::Shell;
use yapu::shell::Step;
use yapu::Bootloader;
use yapu::Identify;
use yapu::Opcode;
use yapu::Probe;
use yapu::Programmer;
use yapu::Signal;

fn options() -> ProbeOptions {
    ProbeOptions {
        baudrate: 9_600,
        reset: DeviceSignal(Some(Signal::dtr(false))),
        boot: DeviceSignal(None),
        identify: DeviceIdentify::Get,
    }
}

#[test]
fn signals_are_named() {
    assert_eq!(DeviceSignal(None).to_string(), "none");
    assert_eq!(DeviceSignal(Some(Signal::rts(true))).to_string(), "rts");
    assert_eq!(DeviceSignal(Some(Signal::rts(false))).to_string(), "!rts");
    assert_eq!(DeviceSignal(Some(Signal::dtr(true))).to_string(), "dtr");
    assert_eq!(DeviceSignal(Some(Signal::dtr(false))).to_string(), "!dtr");
    assert_eq!(DeviceSignal::from(Signal::dtr(true)), DeviceSignal(Some(Signal::dtr(true))));
    for signal in [None, Some(Signal::rts(true)), Some(Signal::dtr(false))] {
        let named = DeviceSignal(signal);
        assert_eq!(DeviceSignal::parse(&named.to_string()), Ok(named));
    }
}

#[test]
fn texts_that_name_no_signal_are_refused() {
    for text in ["", "!", "RTS", "rts ", " rts", "cts", "!none", "none!", "rt", "rtss", "r!ts"] {
        let refused = DeviceSignal::parse(text).expect_err("no signal");
        assert_eq!(refused.text, text);
        assert_eq!(refused.to_string(), format!("incorrect signal format: {}", text));
        assert!(text.parse::<DeviceSignal>().is_err());
    }
}

#[test]
fn exclamation_marks_are_stripped_together() {
    assert_eq!(DeviceSignal::parse("!!rts"), Ok(DeviceSignal(Some(Signal::rts(false)))));
    assert_eq!(DeviceSignal::parse("!!!dtr"), Ok(DeviceSignal(Some(Signal::dtr(false)))));
}

#[test]
fn options_describe_a_probe() {
    let probe = options().build_probe();
    assert_eq!(probe.baudrate(), 9_600);
    assert_eq!(probe.signal_reset(), Some(Signal::dtr(false)));
    assert_eq!(probe.signal_boot(), None);
    assert_eq!(probe.identify(), Identify::Get);
    assert_eq!(probe.reset_for(), Duration::from_millis(10));
    assert_eq!(probe.max_attempts(), 8);
    assert_eq!(probe.timeout(), Duration::from_millis(100));
    assert_eq!(Identify::from(DeviceIdentify::Handshake), Identify::Handshake);
    assert_eq!(Identify::from(DeviceIdentify::Get), Identify::Get);
}

#[test]
fn formats_are_told_apart() {
    assert!(Format::Text.is_text() && !Format::Text.is_table() && !Format::Text.is_json());
    assert!(Format::Table.is_table() && !Format::Table.is_text() && !Format::Table.is_json());
    assert!(Format::Json.is_json() && !Format::Json.is_text() && !Format::Json.is_table());
    assert_eq!(Format::default(), Format::Text);
}

#[test]
fn command_line_says_what_to_do() {
    let discover = Command::Discover(DiscoverOptions { probe: options() });
    let cli = Cli { command: discover, format: Format::Text };
    assert_eq!(
        cli.execute(),
        Task::Discover { probe: options().build_probe(), format: Format::Text, announce: true }
    );
    let cli = Cli { command: discover, format: Format::Json };
    assert_eq!(
        cli.execute(),
        Task::Discover { probe: options().build_probe(), format: Format::Json, announce: false }
    );
    let cli = Cli { command: discover, format: Format::Table };
    assert!(matches!(cli.execute(), Task::Discover { announce: false, .. }));
    let shell = ShellOptions { no_prompt: true };
    let cli = Cli { command: Command::Shell(shell), format: Format::Text };
    assert_eq!(cli.execute(), Task::Shell(shell));
    let device = DeviceOptions { device: Some("/dev/ttyUSB0".to_string()) };
    assert_eq!(device.clone(), device);
}

#[test]
fn device_is_printed_in_two_lines() {
    let bootloader = Bootloader::decode(&[0x03, 0x31, 0x00, 0x01, 0x99]).unwrap();
    let device = Device::from_bootloader(Some("/dev/ttyUSB0"), &bootloader);
    assert_eq!(device.name.as_deref(), Some("/dev/ttyUSB0"));
    assert_eq!(device.version, "3.1");
    assert_eq!(device.opcodes, vec![Opcode::GET(), Opcode::GET_VERSION(), Opcode::from(0x99)]);
    assert_eq!(
        device.to_string(),
        "Name: /dev/ttyUSB0\tVersion: 3.1\nOpcodes: GET, GET_VERSION, UNKNOWN (99)\n"
    );
    let nameless = Device::from_bootloader(None, &Bootloader::decode(&[0x00, 0x22]).unwrap());
    assert_eq!(nameless.to_string(), "Name: N/A\tVersion: 2.2\nOpcodes: \n");
    assert_eq!(list(&[]), "");
    assert_eq!(list(&[Opcode::GO()]), "GO");
    assert_eq!(list(&[Opcode::GO(), Opcode::READ()]), "GO, READ");
}

#[test]
fn prompt_names_the_target() {
    let mut shell: Shell<()> = Shell::new(ShellOptions { no_prompt: false });
    assert_eq!(shell.prompt(None), "yapu> ");
    assert_eq!(shell.prompt(Some("ignored")), "yapu> ");
    shell.current = Some(Programmer::attach((), &Probe::new()));
    assert_eq!(shell.prompt(Some("/dev/ttyACM0")), "yapu (/dev/ttyACM0)> ");
    assert_eq!(shell.prompt(None), "N/A");
    shell.options = ShellOptions { no_prompt: true };
    assert_eq!(shell.prompt(Some("/dev/ttyACM0")), "");
    assert_eq!(shell.prompt(None), "");
}

#[test]
fn shell_asks_the_target_that_is_open() {
    let mut shell: Shell<()> = Shell::new(ShellOptions { no_prompt: false });
    assert_eq!(shell.probe, Probe::new());
    for command in [yapu::shell::Command::Get, yapu::shell::Command::Version, yapu::shell::Command::Id]
    {
        assert!(command.requires_device());
        assert_eq!(shell.execute(&command), Step::NeedsDevice);
    }
    shell.current = Some(Programmer::attach((), &Probe::new()));
    assert_eq!(shell.execute(&yapu::shell::Command::Get), Step::Ask(Query::Get));
    assert_eq!(shell.execute(&yapu::shell::Command::Version), Step::Ask(Query::Version));
    assert_eq!(shell.execute(&yapu::shell::Command::Id), Step::Ask(Query::Id));
    assert_eq!(shell.execute(&yapu::shell::Command::Clear), Step::Clear);
    assert_eq!(shell.execute(&yapu::shell::Command::Ports), Step::Unsupported);
    assert_eq!(shell.execute(&yapu::shell::Command::Discover), Step::Unsupported);
    let open = yapu::shell::Command::Open { device: "COM3".to_string() };
    assert!(!open.requires_device());
    assert_eq!(shell.execute(&open), Step::Open("COM3".to_string()));
    assert!(shell.current.is_some());
}

#[test]
fn shell_changes_the_probe() {
    let mut shell: Shell<()> = Shell::new(ShellOptions { no_prompt: false });
    let command = yapu::shell::Command::Probe {
        baudrate: Some(19_200),
        reset: Some(DeviceSignal(None)),
        boot: None,
        reset_for: Some(40),
        identify: Some(DeviceIdentify::Get),
    };
    assert!(!command.requires_device());
    assert_eq!(shell.execute(&command), Step::Configured);
    assert_eq!(shell.probe.baudrate(), 19_200);
    assert_eq!(shell.probe.signal_reset(), None);
    assert_eq!(shell.probe.signal_boot(), Some(Signal::dtr(false)));
    assert_eq!(shell.probe.reset_for(), Duration::from_millis(40));
    assert_eq!(shell.probe.identify(), Identify::Get);
    assert_eq!(shell.probe.max_attempts(), 8);

    let nothing = yapu::shell::Command::Probe {
        baudrate: None,
        reset: None,
        boot: Some(DeviceSignal(Some(Signal::rts(true)))),
        reset_for: None,
        identify: None,
    };
    assert_eq!(shell.execute(&nothing), Step::Configured);
    assert_eq!(shell.probe.baudrate(), 19_200);
    assert_eq!(shell.probe.signal_boot(), Some(Signal::rts(true)));
    assert_eq!(shell.probe.reset_for(), Duration::from_millis(40));

    let mut probe = Probe::new();
    yapu::shell::Command::Get.configure(&mut probe);
    assert_eq!(probe, Probe::new());
}
