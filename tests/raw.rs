use rawmode::{
    convert_to_result, derive_raw, get_terminal_attr, raw_terminal_attr, set_terminal_attr,
    GuardMode, IntoRawMode, IsMinusOne, MemoryTty, OsError, RawReader, Termios, TtyDevice,
    TtyModeGuard, TtyWithGuard,
};

const NOT_A_TERMINAL: i32 = 25;

/// Attributes of a terminal in its usual line-buffered, echoing state.
fn cooked() -> Termios {
    let mut cc = [0u8; 32];
    cc[0] = 3;
    cc[1] = 28;
    cc[5] = 7;
    cc[6] = 0;
    Termios {
        c_iflag: 0o2400,
        c_oflag: 0o5,
        c_cflag: 0o2277,
        c_lflag: 0o105073,
        c_line: 0,
        c_cc: cc,
        c_ispeed: 0o17,
        c_ospeed: 0o17,
    }
}

fn expected_raw() -> Termios {
    let mut t = cooked();
    t.c_iflag = 0;
    t.c_oflag = 0o4;
    t.c_cflag = 0o2277;
    t.c_lflag = 0o5060;
    t.c_cc[5] = 0;
    t.c_cc[6] = 1;
    t
}

#[test]
fn test_into_raw_mode() -> Result<(), OsError> {
    let mut stdin = MemoryTty::new(0, cooked()).guard_mode()?;
    stdin.set_raw_mode()?;
    let mut out = MemoryTty::new(1, cooked());

    out.write_all(b"this is a test, muahhahahah\r\n");

    drop(out);
    Ok(())
}

#[test]
fn raw_derivation_clears_exact_bits() {
    assert_eq!(derive_raw(&cooked()), expected_raw());
    let mut t = cooked();
    raw_terminal_attr(&mut t);
    assert_eq!(t, expected_raw());
}

#[test]
fn raw_derivation_sets_eight_bit_characters() {
    let mut t = cooked();
    t.c_cflag = 0o400 | 0o20; // parity on, 7-bit characters
    t.c_iflag = 0o177777;
    let r = derive_raw(&t);
    assert_eq!(r.c_cflag, 0o60);
    assert_eq!(r.c_iflag, 0o177777 & !(0o1 | 0o2 | 0o10 | 0o40 | 0o100 | 0o200 | 0o400 | 0o2000));
}

#[test]
fn raw_derivation_is_idempotent() {
    let once = derive_raw(&cooked());
    assert_eq!(derive_raw(&once), once);
    let mut all = cooked();
    all.c_iflag = u32::MAX;
    all.c_oflag = u32::MAX;
    all.c_cflag = u32::MAX;
    all.c_lflag = u32::MAX;
    let once = derive_raw(&all);
    assert_eq!(derive_raw(&once), once);
}

#[test]
fn convert_passes_other_values() {
    assert_eq!(convert_to_result(0i32), Ok(0));
    assert_eq!(convert_to_result(5i64), Ok(5));
    assert_eq!(convert_to_result(-2i8), Ok(-2));
    assert!(convert_to_result(-1i16).is_err());
    assert!(convert_to_result(-1isize).is_err());
    assert!((-1i32).is_minus_one());
    assert!(!(1i32).is_minus_one());
}

#[test]
fn attribute_access_reads_and_writes() {
    let mut dev = MemoryTty::new(3, cooked());
    assert_eq!(get_terminal_attr(&dev), Ok(cooked()));
    assert_eq!(set_terminal_attr(&mut dev, &expected_raw()), Ok(()));
    assert_eq!(dev.ios, Some(expected_raw()));
    let mut closed = MemoryTty::not_a_terminal(4);
    assert_eq!(get_terminal_attr(&closed), Err(OsError::from_raw_os_error(NOT_A_TERMINAL)));
    assert!(set_terminal_attr(&mut closed, &cooked()).is_err());
    assert_eq!(closed.ios, None);
}

#[test]
fn guard_switch_and_restore_scenario() {
    let mut dev = MemoryTty::new(0, cooked());
    let mut guard = TtyModeGuard::new(&dev).unwrap();
    assert_eq!(guard.fd(), 0);
    assert_eq!(dev.ios, Some(cooked()));
    guard.set_raw_mode(&mut dev).unwrap();
    assert_eq!(dev.ios, Some(expected_raw()));
    assert_ne!(dev.ios, Some(cooked()));
    guard.restore(&mut dev);
    assert_eq!(dev.ios, Some(cooked()));
}

#[test]
fn restore_after_any_switches() {
    let mut dev = MemoryTty::new(0, cooked());
    let mut guard = TtyModeGuard::new(&dev).unwrap();
    guard.set_raw_mode(&mut dev).unwrap();
    guard.modify_mode(&mut dev, |mut t: Termios| { t.c_lflag = 0; t }).unwrap();
    guard.set_raw_mode(&mut dev).unwrap();
    guard.set_raw_mode(&mut dev).unwrap();
    guard.restore(&mut dev);
    assert_eq!(dev.ios, Some(cooked()));
    assert_eq!(guard.original_attrs(), cooked());
}

#[test]
fn transforms_start_from_the_original() {
    let mut dev = MemoryTty::new(0, cooked());
    let mut guard = TtyModeGuard::new(&dev).unwrap();
    let f = |mut t: Termios| {
        t.c_ispeed = t.c_ispeed + 1;
        t
    };
    let g = |mut t: Termios| {
        t.c_ispeed = t.c_ispeed + 10;
        t
    };
    guard.modify_mode(&mut dev, f).unwrap();
    guard.modify_mode(&mut dev, g).unwrap();
    assert_eq!(dev.ios.unwrap().c_ispeed, 0o17 + 10);
}

#[test]
fn guard_over_non_terminal_fails_without_write() {
    let dev = MemoryTty::not_a_terminal(9);
    let r = TtyModeGuard::new(&dev);
    assert_eq!(r.err(), Some(OsError::from_raw_os_error(NOT_A_TERMINAL)));
    assert_eq!(dev.ios, None);
    let r = TtyWithGuard::new(MemoryTty::not_a_terminal(9));
    assert!(r.is_err());
    assert!(MemoryTty::not_a_terminal(9).guard_mode().is_err());
}

#[test]
fn into_raw_mode_on_non_terminal_fails() {
    let r = MemoryTty::not_a_terminal(2).into_raw_mode();
    assert_eq!(r.err(), Some(OsError::from_raw_os_error(NOT_A_TERMINAL)));
}

#[test]
fn into_raw_mode_switches_at_once() {
    let mut w = MemoryTty::new(0, cooked()).into_raw_mode().unwrap();
    assert_eq!(w.ios, Some(expected_raw()));
    w.restore();
    assert_eq!(w.get_ref().ios, Some(cooked()));
    w.release();
}

#[test]
fn guard_mode_does_not_switch() {
    let w = MemoryTty::new(0, cooked()).guard_mode().unwrap();
    assert_eq!(w.ios, Some(cooked()));
}

#[test]
fn wrapper_forwards_to_resource() {
    let mut direct = MemoryTty::new(1, cooked());
    direct.write_all(b"abc");
    let mut w = MemoryTty::new(1, cooked()).guard_mode().unwrap();
    w.write_all(b"abc");
    assert_eq!(w.output, direct.output);
    assert_eq!(w.as_raw_fd(), direct.as_raw_fd());
    assert_eq!(w.read_attributes(), direct.read_attributes());
    let reader = RawReader(w);
    assert_eq!(reader.0.output, b"abc".to_vec());
}

#[test]
fn wrapper_modify_mode_uses_original() {
    let mut w = MemoryTty::new(0, cooked()).guard_mode().unwrap();
    w.set_raw_mode().unwrap();
    w.modify_mode(|mut t: Termios| {
        t.c_oflag = 0;
        t
    })
    .unwrap();
    let mut want = cooked();
    want.c_oflag = 0;
    assert_eq!(w.ios, Some(want));
}

#[test]
fn memory_tty_write_appends() {
    let mut t = MemoryTty::new(1, cooked());
    t.write_all(b"ab");
    t.write_all(b"");
    t.write_all(b"c");
    assert_eq!(t.output, b"abc".to_vec());
    assert_eq!(t.ios, Some(cooked()));
}
