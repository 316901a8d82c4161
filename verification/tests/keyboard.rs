use awrit_native::keyboard::{
    keyboard_query_bytes, query_keyboard_enhancement_flags, supports_keyboard_enhancement,
    KeyboardEnhancementFlags, KeyboardQueryAction, KeyboardQueryEvent, KeyboardQueryFailure,
    ReplyPoll,
};

fn flags(bits: u8) -> KeyboardEnhancementFlags {
    KeyboardEnhancementFlags::from_bits_truncate(bits)
}

#[test]
fn flags_keep_known_bits() {
    assert_eq!(flags(0xFF).bits(), 0x0F);
    assert_eq!(flags(1).union(flags(8)).bits(), 9);
}

#[test]
fn query_bytes() {
    assert_eq!(keyboard_query_bytes(false), b"\x1B[?u\x1B[c".to_vec());
    assert_eq!(
        keyboard_query_bytes(true),
        b"\x1BPtmux;\x1B\x1B[?u\x1B\x1B[c\x1B\\".to_vec()
    );
}

#[test]
fn query_in_raw_mode_finds_flags() {
    let (mut q, a) = query_keyboard_enhancement_flags(true);
    assert_eq!(a, KeyboardQueryAction::WriteQueryToTty);
    assert_eq!(q.step(KeyboardQueryEvent::TtyWritten(true)), KeyboardQueryAction::Poll);
    assert_eq!(q.step(KeyboardQueryEvent::Polled(ReplyPoll::Failed)), KeyboardQueryAction::Poll);
    assert_eq!(q.step(KeyboardQueryEvent::Polled(ReplyPoll::Ready)), KeyboardQueryAction::Read);
    assert_eq!(
        q.step(KeyboardQueryEvent::ReplyRead(Some(flags(3)))),
        KeyboardQueryAction::DrainDeviceAttributes
    );
    assert_eq!(
        q.step(KeyboardQueryEvent::Drained),
        KeyboardQueryAction::Finish(Ok(Some(flags(3))))
    );
    assert!(!q.holds_raw_mode);
}

#[test]
fn query_outside_raw_mode_switches_it_back_off() {
    let (mut q, a) = query_keyboard_enhancement_flags(false);
    assert_eq!(a, KeyboardQueryAction::EnableRawMode);
    assert_eq!(q.step(KeyboardQueryEvent::RawModeEnabled(true)), KeyboardQueryAction::WriteQueryToTty);
    assert!(q.holds_raw_mode);
    assert_eq!(q.step(KeyboardQueryEvent::TtyWritten(false)), KeyboardQueryAction::WriteQueryToStdout);
    assert_eq!(q.step(KeyboardQueryEvent::StdoutWritten(true)), KeyboardQueryAction::Poll);
    assert_eq!(q.step(KeyboardQueryEvent::Polled(ReplyPoll::Ready)), KeyboardQueryAction::Read);
    assert_eq!(q.step(KeyboardQueryEvent::ReplyRead(None)), KeyboardQueryAction::DisableRawMode);
    assert_eq!(q.step(KeyboardQueryEvent::RawModeDisabled(true)), KeyboardQueryAction::Finish(Ok(None)));
    assert!(!q.holds_raw_mode);
}

#[test]
fn query_failures() {
    let (mut q, _) = query_keyboard_enhancement_flags(false);
    assert_eq!(
        q.step(KeyboardQueryEvent::RawModeEnabled(false)),
        KeyboardQueryAction::Finish(Err(KeyboardQueryFailure::EnableRawMode))
    );

    let (mut q, _) = query_keyboard_enhancement_flags(true);
    q.step(KeyboardQueryEvent::TtyWritten(false));
    assert_eq!(
        q.step(KeyboardQueryEvent::StdoutWritten(false)),
        KeyboardQueryAction::Finish(Err(KeyboardQueryFailure::WriteQuery))
    );

    let (mut q, _) = query_keyboard_enhancement_flags(true);
    q.step(KeyboardQueryEvent::TtyWritten(true));
    assert_eq!(
        q.step(KeyboardQueryEvent::Polled(ReplyPoll::TimedOut)),
        KeyboardQueryAction::Finish(Err(KeyboardQueryFailure::TimedOut))
    );

    let (mut q, _) = query_keyboard_enhancement_flags(false);
    q.step(KeyboardQueryEvent::RawModeEnabled(true));
    q.step(KeyboardQueryEvent::TtyWritten(true));
    assert_eq!(
        q.step(KeyboardQueryEvent::Polled(ReplyPoll::TimedOut)),
        KeyboardQueryAction::DisableRawMode
    );
    assert_eq!(
        q.step(KeyboardQueryEvent::RawModeDisabled(false)),
        KeyboardQueryAction::Finish(Err(KeyboardQueryFailure::DisableRawMode))
    );
    // A finished query stays finished.
    assert_eq!(
        q.step(KeyboardQueryEvent::Drained),
        KeyboardQueryAction::Finish(Err(KeyboardQueryFailure::DisableRawMode))
    );
}

#[test]
fn unexpected_event_repeats_pending_action() {
    let (mut q, _) = query_keyboard_enhancement_flags(true);
    assert_eq!(q.step(KeyboardQueryEvent::Drained), KeyboardQueryAction::WriteQueryToTty);
}

#[test]
fn supports_keyboard() {
    assert_eq!(supports_keyboard_enhancement::<()>(Ok(Some(flags(1)))), Ok(true));
    assert_eq!(supports_keyboard_enhancement::<()>(Ok(None)), Ok(false));
    assert_eq!(supports_keyboard_enhancement::<u8>(Err(7)), Err(7));
}
