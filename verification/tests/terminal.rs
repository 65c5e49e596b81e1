use laska::terminal::{LocalModeBits, TerminalAttributes, TerminalModeGuard, CONTROL_CHARS};

const BITS: LocalModeBits = LocalModeBits { canonical: 0x2, echo: 0x8 };

fn cooked() -> TerminalAttributes {
    let mut control_chars = [0u8; CONTROL_CHARS];
    control_chars[0] = 3;
    control_chars[6] = 1;
    TerminalAttributes {
        input_flags: 0x6d02,
        output_flags: 0x5,
        control_flags: 0x4bf,
        local_flags: 0x8a3b,
        line_discipline: 0,
        control_chars,
        input_speed: 15,
        output_speed: 15,
    }
}

#[test]
fn raw_mode_clears_canonical_and_echo_only() {
    let raw = cooked().make_raw(BITS);
    assert_eq!(raw.local_flags, 0x8a31);
    assert_eq!(raw, TerminalAttributes { local_flags: 0x8a31, ..cooked() });
    assert_eq!(raw.make_raw(BITS), raw);
}

#[test]
fn raw_mode_with_other_bit_numbers() {
    let bits = LocalModeBits { canonical: 0x100, echo: 0x8 };
    let attributes = TerminalAttributes { local_flags: 0x5cb, ..cooked() };
    assert_eq!(attributes.make_raw(bits).local_flags, 0x4c3);
}

#[test]
fn acquire_applies_raw_mode() {
    let (guard, apply) = TerminalModeGuard::acquire(Some(cooked()), BITS);
    assert!(guard.is_active());
    assert_eq!(apply, Some(cooked().make_raw(BITS)));
}

#[test]
fn release_restores_what_was_found() {
    let (guard, _) = TerminalModeGuard::acquire(Some(cooked()), BITS);
    assert_eq!(guard.release(), Some(cooked()));
}

#[test]
fn release_restores_after_any_number_of_writes() {
    let (mut guard, _) = TerminalModeGuard::acquire(Some(cooked()), BITS);
    for _ in 0..5 {
        assert_eq!(guard.suspend(), Some(cooked()));
        assert_eq!(guard.resume(), Some(cooked().make_raw(BITS)));
    }
    assert_eq!(guard.suspend(), Some(cooked()));
    assert_eq!(guard.release(), Some(cooked()));
}

#[test]
fn suspend_and_resume_apply_only_on_a_change() {
    let (mut guard, _) = TerminalModeGuard::acquire(Some(cooked()), BITS);
    assert_eq!(guard.resume(), None);
    assert_eq!(guard.suspend(), Some(cooked()));
    assert_eq!(guard.suspend(), None);
    assert_eq!(guard.resume(), Some(cooked().make_raw(BITS)));
    assert_eq!(guard.resume(), None);
}

#[test]
fn guard_over_no_terminal_does_nothing() {
    let (mut guard, apply) = TerminalModeGuard::acquire(None, BITS);
    assert!(!guard.is_active());
    assert_eq!(apply, None);
    assert_eq!(guard.suspend(), None);
    assert_eq!(guard.resume(), None);
    assert_eq!(guard.release(), None);
}
