use awrit_native::tmux::{
    tmux_escape, tmux_passthrough, InvalidUtf8, MaybeTmux, TmuxBeginPassthrough,
    TmuxEndPassthrough, TmuxMode, TmuxSetExtendedKeysMode, TmuxWriter,
};

#[test]
fn escape_doubles_every_esc() {
    assert_eq!(tmux_escape("\x1B[1m"), "\x1B\x1B[1m");
    assert_eq!(tmux_escape("a\x1Bb\x1B\x1Bc"), "a\x1B\x1Bb\x1B\x1B\x1B\x1Bc");
}

#[test]
fn escape_leaves_other_text_alone() {
    assert_eq!(tmux_escape(""), "");
    assert_eq!(tmux_escape("hello, wörld ✓"), "hello, wörld ✓");
}

#[test]
fn escape_is_recoverable() {
    let input = "\x1B_Ga=T;AAAA\x1B\\x\x1B";
    let escaped = tmux_escape(input);
    let recovered = escaped.replace("\x1B\x1B", "\x1B");
    assert_eq!(recovered, input);
}

#[test]
fn passthrough_frames_and_escapes() {
    let out = tmux_passthrough(b"\x1B[?u\x1B[c").unwrap();
    assert_eq!(out, b"\x1BPtmux;\x1B\x1B[?u\x1B\x1B[c\x1B\\".to_vec());
}

#[test]
fn passthrough_of_empty_buffer() {
    assert_eq!(tmux_passthrough(b"").unwrap(), b"\x1BPtmux;\x1B\\".to_vec());
}

#[test]
fn passthrough_keeps_multibyte_characters() {
    let s = "é\x1B€";
    let out = tmux_passthrough(s.as_bytes()).unwrap();
    let expected = String::from("\x1BPtmux;é\x1B\x1B€\x1B\\");
    assert_eq!(out, expected.into_bytes());
}

#[test]
fn passthrough_rejects_invalid_utf8() {
    assert_eq!(tmux_passthrough(&[0x1B, 0xFF, 0x41]), Err(InvalidUtf8));
    assert_eq!(tmux_passthrough(&[0xC0, 0x80]), Err(InvalidUtf8));
    assert_eq!(tmux_passthrough(&[0xED, 0xA0, 0x80]), Err(InvalidUtf8));
}

#[test]
fn maybe_tmux_selects_writer() {
    let inside = MaybeTmux::new(true);
    assert_eq!(inside.write, TmuxWriter::Tmux);
    assert_eq!(inside.write("\x1B[c"), b"\x1BPtmux;\x1B\x1B[c\x1B\\".to_vec());
    let outside = MaybeTmux::new(false);
    assert_eq!(outside.write, TmuxWriter::Direct);
    assert_eq!(outside.write("\x1B[c"), Vec::<u8>::new());
}

#[test]
fn passthrough_commands() {
    let mut s = String::from("x");
    TmuxBeginPassthrough.write_ansi(&mut s);
    TmuxEndPassthrough.write_ansi(&mut s);
    assert_eq!(s, "x\x1BPtmux;\x1B\\");
}

#[test]
fn extended_keys_modes() {
    let mut s = String::new();
    TmuxSetExtendedKeysMode(TmuxMode::Standard).write_ansi(&mut s);
    TmuxSetExtendedKeysMode(TmuxMode::Mode1).write_ansi(&mut s);
    TmuxSetExtendedKeysMode(TmuxMode::Mode2).write_ansi(&mut s);
    assert_eq!(s, "\x1B[>4;0m\x1B[>4;1m\x1B[>4;2m");
}

#[test]
fn escaped_esc_runs_are_even() {
    let out = tmux_escape("a\x1B\x1B\x1Bb\x1Bc\x1B");
    let mut run = 0;
    for ch in out.chars().chain(std::iter::once('.')) {
        if ch == '\x1B' {
            run += 1;
        } else {
            assert_eq!(run % 2, 0);
            run = 0;
        }
    }
}
