use air_relay::configure::{ConfigStep, ConfigWarning, FileFlags};
use air_relay::line::{
    set_custom_baudrate, set_opt, ControlMasks, RawMasks, Termios, Termios2, DEFAULT_BAUD_RATE,
    READ_MIN_BYTES, READ_TIMEOUT_TENTHS, TEMPLATE_CONTROL_FLAGS,
};

fn common_masks() -> RawMasks {
    RawMasks {
        clocal: 0x800,
        cread: 0x80,
        csize: 0x30,
        cs8: 0x30,
        parenb: 0x100,
        cstopb: 0x40,
        crtscts: 0x8000_0000,
        inpck: 0x10,
        cbaud: 0x100f,
        bother: 0x1000,
        vmin: 6,
        vtime: 5,
    }
}

fn other_masks() -> RawMasks {
    RawMasks {
        clocal: 0x8000,
        cread: 0x800,
        csize: 0x300,
        cs8: 0x300,
        parenb: 0x1000,
        cstopb: 0x400,
        crtscts: 0x8000_0000,
        inpck: 0x10,
        cbaud: 0xff,
        bother: 0x1f,
        vmin: 5,
        vtime: 7,
    }
}

#[test]
fn line_constants() {
    assert_eq!(TEMPLATE_CONTROL_FLAGS, 6304);
    assert_eq!(READ_MIN_BYTES, 0);
    assert_eq!(READ_TIMEOUT_TENTHS, 10);
    assert_eq!(DEFAULT_BAUD_RATE, 9600);
}

#[test]
fn masks_of_this_machine_are_consistent() {
    let masks = ControlMasks::platform().unwrap();
    assert!(masks.raw().is_consistent());
}

#[test]
fn overlapping_masks_are_refused() {
    assert!(ControlMasks::checked(common_masks()).is_some());
    assert!(ControlMasks::checked(other_masks()).is_some());

    let mut m = common_masks();
    m.cs8 = 0x40;
    assert!(ControlMasks::checked(m).is_none());
    let mut m = common_masks();
    m.parenb = 0x80;
    assert!(ControlMasks::checked(m).is_none());
    let mut m = common_masks();
    m.bother = 0x2000;
    assert!(ControlMasks::checked(m).is_none());
    let mut m = common_masks();
    m.vmin = 19;
    assert!(ControlMasks::checked(m).is_none());
    let mut m = common_masks();
    m.vtime = 6;
    assert!(ControlMasks::checked(m).is_none());
    let mut m = common_masks();
    m.crtscts = 0x800;
    assert!(ControlMasks::checked(m).is_none());
}

#[test]
fn template_is_programmed_for_eight_data_bits_no_parity_one_stop_bit() {
    let masks = ControlMasks::checked(common_masks()).unwrap();
    let mut tio = Termios::template();
    set_opt(&mut tio, &masks, false);
    assert_eq!(tio.cflag, 6320);
    assert_eq!(tio.cflag & 0x30, 0x30);
    assert_eq!(tio.cflag & 0x800, 0x800);
    assert_eq!(tio.cflag & 0x80, 0x80);
    assert_eq!(tio.cflag & 0x100, 0);
    assert_eq!(tio.cflag & 0x40, 0);
    assert_eq!(tio.cflag & 0x8000_0000, 0);
    assert_eq!(tio.iflag, 0);
    assert_eq!(tio.oflag, 0);
    assert_eq!(tio.lflag, 0);
    assert_eq!(tio.line, 0);
    assert_eq!(tio.ispeed, 0);
    assert_eq!(tio.ospeed, 0);
    let mut cc: [u8; 32] = [0; 32];
    cc[5] = 10;
    assert_eq!(tio.cc, cc);
}

#[test]
fn programming_clears_what_contradicts_and_keeps_the_rest() {
    let masks = ControlMasks::checked(common_masks()).unwrap();
    let mut tio = Termios {
        iflag: 0xffff_ffff,
        oflag: 7,
        cflag: 0xffff_ffff,
        lflag: 9,
        line: 3,
        cc: [0xee; 32],
        ispeed: 11,
        ospeed: 12,
    };
    set_opt(&mut tio, &masks, false);
    assert_eq!(tio.cflag, 0xffff_ffff & !0x100 & !0x40 & !0x8000_0000);
    assert_eq!(tio.iflag, 0xffff_ffef);
    assert_eq!(tio.oflag, 7);
    assert_eq!(tio.lflag, 9);
    assert_eq!(tio.line, 3);
    assert_eq!(tio.ispeed, 11);
    assert_eq!(tio.ospeed, 12);
    let mut cc: [u8; 32] = [0xee; 32];
    cc[6] = 0;
    cc[5] = 10;
    assert_eq!(tio.cc, cc);
}

#[test]
fn hardware_flow_control_is_set_only_when_asked_for() {
    let masks = ControlMasks::checked(common_masks()).unwrap();
    let mut off = Termios::template();
    set_opt(&mut off, &masks, false);
    let mut on = Termios::template();
    set_opt(&mut on, &masks, true);
    assert_eq!(off.cflag & 0x8000_0000, 0);
    assert_eq!(on.cflag & 0x8000_0000, 0x8000_0000);
    assert_eq!(on.cflag & 0x7fff_ffff, off.cflag);
}

#[test]
fn programming_with_other_masks() {
    let masks = ControlMasks::checked(other_masks()).unwrap();
    let mut tio = Termios::template();
    set_opt(&mut tio, &masks, false);
    assert_eq!(tio.cflag & 0x300, 0x300);
    assert_eq!(tio.cflag & 0x8000, 0x8000);
    assert_eq!(tio.cflag & 0x800, 0x800);
    assert_eq!(tio.cflag & 0x1000, 0);
    assert_eq!(tio.cflag & 0x400, 0);
    assert_eq!(tio.cc[5], 0);
    assert_eq!(tio.cc[7], 10);
}

#[test]
fn custom_baud_rate_replaces_the_selector_and_sets_both_speeds() {
    let masks = ControlMasks::checked(common_masks()).unwrap();
    let mut tio = Termios2::zeroed();
    tio.cflag = 0x0000_18bd;
    tio.iflag = 1;
    tio.oflag = 2;
    tio.lflag = 3;
    tio.line = 4;
    tio.cc = [5; 19];
    set_custom_baudrate(&mut tio, &masks, 9600);
    assert_eq!(tio.cflag, 0x0000_18b0);
    assert_eq!(tio.cflag & 0x100f, 0x1000);
    assert_eq!(tio.ispeed, 9600);
    assert_eq!(tio.ospeed, 9600);
    assert_eq!(tio.iflag, 1);
    assert_eq!(tio.oflag, 2);
    assert_eq!(tio.lflag, 3);
    assert_eq!(tio.line, 4);
    assert_eq!(tio.cc, [5; 19]);
}

#[test]
fn custom_baud_rate_takes_any_number() {
    let masks = ControlMasks::checked(common_masks()).unwrap();
    let rates: [u32; 4] = [0, 1, 250_000, u32::MAX];
    for rate in rates {
        let mut tio = Termios2::zeroed();
        set_custom_baudrate(&mut tio, &masks, rate);
        assert_eq!(tio.cflag, 0x1000);
        assert_eq!(tio.ispeed, rate);
        assert_eq!(tio.ospeed, rate);
    }
}

#[test]
fn open_flags_and_blocking_reads() {
    let flags = FileFlags { rdwr: 2, noctty: 0x100, ndelay: 0x800, nonblock: 0x800 };
    assert_eq!(flags.open_flags(), 0x902);
    assert_eq!(flags.clear_nonblocking(0x8802), 0x8002);
    assert_eq!(flags.clear_nonblocking(0x8002), 0x8002);
    assert_eq!(flags.clear_nonblocking(-1), -1 & !0x800);
    let here = FileFlags::platform();
    assert_eq!(here.clear_nonblocking(here.open_flags()) & here.nonblock, 0);
}

#[test]
fn configuration_takes_nine_steps_in_a_fixed_order() {
    let expected: [ConfigStep; 9] = [
        ConfigStep::QueryFlags,
        ConfigStep::SetFlags,
        ConfigStep::CheckTerminal,
        ConfigStep::FetchSettings,
        ConfigStep::FlushInput,
        ConfigStep::ApplySettings,
        ConfigStep::FetchSpeed,
        ConfigStep::ApplySpeed,
        ConfigStep::ConfirmSpeed,
    ];
    let mut step = ConfigStep::first();
    for want in expected {
        assert!(!step.is_done());
        assert_eq!(step, want);
        step = step.next();
    }
    assert!(step.is_done());
    assert_eq!(step, ConfigStep::Done);
    assert_eq!(step.next(), ConfigStep::Done);
}

#[test]
fn no_warning_when_every_step_succeeds() {
    assert_eq!(ConfigStep::QueryFlags.warning(0x8002), None);
    assert_eq!(ConfigStep::QueryFlags.warning(0), None);
    assert_eq!(ConfigStep::SetFlags.warning(0), None);
    assert_eq!(ConfigStep::CheckTerminal.warning(1), None);
    assert_eq!(ConfigStep::FetchSettings.warning(0), None);
    assert_eq!(ConfigStep::FlushInput.warning(0), None);
    assert_eq!(ConfigStep::ApplySettings.warning(0), None);
    assert_eq!(ConfigStep::FetchSpeed.warning(0), None);
    assert_eq!(ConfigStep::ApplySpeed.warning(0), None);
    assert_eq!(ConfigStep::ConfirmSpeed.warning(0), None);
    assert_eq!(ConfigStep::Done.warning(-1), None);
}

#[test]
fn every_failure_is_a_warning() {
    assert_eq!(ConfigStep::QueryFlags.warning(-1), Some(ConfigWarning::QueryFlags));
    assert_eq!(ConfigStep::SetFlags.warning(-1), Some(ConfigWarning::SetFlags));
    assert_eq!(ConfigStep::CheckTerminal.warning(0), Some(ConfigWarning::NotATerminal));
    assert_eq!(ConfigStep::FetchSettings.warning(-1), Some(ConfigWarning::FetchSettings));
    assert_eq!(ConfigStep::FetchSettings.warning(1), Some(ConfigWarning::FetchSettings));
    assert_eq!(ConfigStep::FlushInput.warning(-1), None);
    assert_eq!(ConfigStep::ApplySettings.warning(-1), Some(ConfigWarning::ApplySettings));
    assert_eq!(ConfigStep::FetchSpeed.warning(-1), Some(ConfigWarning::FetchSpeed));
    assert_eq!(ConfigStep::ApplySpeed.warning(-1), Some(ConfigWarning::ApplySpeed));
    assert_eq!(ConfigStep::ConfirmSpeed.warning(-1), Some(ConfigWarning::ConfirmSpeed));
}

#[test]
fn warning_messages() {
    assert_eq!(ConfigWarning::QueryFlags.message(), "error get.");
    assert_eq!(ConfigWarning::SetFlags.message(), "error set.");
    assert_eq!(ConfigWarning::NotATerminal.message(), "no tty.");
    assert_eq!(ConfigWarning::FetchSettings.message(), "error tcgetattr.");
    assert_eq!(ConfigWarning::ApplySettings.message(), "error tcsetattr.");
    assert_eq!(ConfigWarning::FetchSpeed.message(), "TCGETS2");
    assert_eq!(ConfigWarning::ApplySpeed.message(), "TCSETS2");
    assert_eq!(ConfigWarning::ConfirmSpeed.message(), "TCGETS2");
}
