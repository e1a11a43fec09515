use yapu::cli::DeviceSignal;
use yapu::cli::SignalFormatError;
use yapu::Signal;

#[test]
fn parsing_signals() -> Result<(), SignalFormatError> {
    let tests: &[(&'static str, Option<Signal>)] = &[
        ("none", None),
        ("rts", Some(Signal::rts(true))),
        ("!rts", Some(Signal::rts(false))),
        ("dtr", Some(Signal::dtr(true))),
        ("!dtr", Some(Signal::dtr(false))),
    ];
    for (s, signal) in tests.iter().copied() {
        assert_eq!(s.parse::<DeviceSignal>()?, DeviceSignal(signal));
    }
    Ok(())
}
