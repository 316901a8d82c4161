use awrit_native::keyboard::KeyboardEnhancementFlags;
use awrit_native::kitty::KittyGraphicsSupport;
use awrit_native::size;
use awrit_native::term::{
    commands_ansi, get_window_size, passthrough_tmux, supported_features, term_disable_features,
    term_enable_input_commands, term_enable_tmux_commands, write_maybe_tmux, SupportedFeatures,
    TerminalCommand, WindowSize,
};
use awrit_native::tmux::{tmux_passthrough, TmuxMode};

#[test]
fn features() {
    let g = KittyGraphicsSupport { images: true, load_frame: false, composite_frame: false };
    assert_eq!(
        supported_features(true, g),
        SupportedFeatures { keyboard: true, images: true, load_frame: false, composite_frame: false }
    );
}

#[test]
fn window_size() {
    let w = size::WindowSize::from_winsize(24, 80, 640, 480);
    assert_eq!(get_window_size(w), WindowSize { cols: 80, rows: 24, width: 640, height: 480 });
}

#[test]
fn enable_plan() {
    assert_eq!(
        term_enable_tmux_commands(true),
        vec![TerminalCommand::SetTmuxExtendedKeysMode(TmuxMode::Mode1)]
    );
    assert!(term_enable_tmux_commands(false).is_empty());
    let cmds = term_enable_input_commands(true);
    assert_eq!(
        commands_ansi(&cmds),
        "\x1B[>15u\x1B[?2004h\x1B[?1004h\x1B[?1000h\x1B[?1002h\x1B[?1003h\x1B[?1015h\x1B[?1006h"
    );
    assert_eq!(term_enable_input_commands(false).len(), 3);
}

#[test]
fn disable_plan() {
    let f = SupportedFeatures { keyboard: true, images: false, load_frame: false, composite_frame: false };
    let batches = term_disable_features(&f, true);
    assert_eq!(batches.len(), 3);
    assert_eq!(
        commands_ansi(&batches[0]),
        "\x1B[?2004l\x1B[?1004l\x1B[?1006l\x1B[?1015l\x1B[?1003l\x1B[?1002l\x1B[?1000l"
    );
    assert_eq!(commands_ansi(&batches[1]), "\x1B[<1u");
    assert_eq!(commands_ansi(&batches[2]), "\x1B[>4;0m");
    let f2 = SupportedFeatures { keyboard: false, ..f };
    assert_eq!(term_disable_features(&f2, false).len(), 1);
}

#[test]
fn disable_undoes_enable() {
    for keyboard in [false, true] {
        for tmux in [false, true] {
            let mut enabled = term_enable_tmux_commands(tmux);
            enabled.extend(term_enable_input_commands(keyboard));
            let f = SupportedFeatures { keyboard, images: false, load_frame: false, composite_frame: false };
            let disabled: Vec<TerminalCommand> =
                term_disable_features(&f, tmux).into_iter().flatten().collect();
            assert_eq!(enabled.len(), disabled.len());
        }
    }
}

#[test]
fn push_flags_in_decimal() {
    let mut s = String::new();
    TerminalCommand::PushKeyboardEnhancementFlags(KeyboardEnhancementFlags { bits: 255 }).write_ansi(&mut s);
    TerminalCommand::PushKeyboardEnhancementFlags(KeyboardEnhancementFlags { bits: 0 }).write_ansi(&mut s);
    TerminalCommand::PushKeyboardEnhancementFlags(KeyboardEnhancementFlags { bits: 42 }).write_ansi(&mut s);
    assert_eq!(s, "\x1B[>255u\x1B[>0u\x1B[>42u");
}

#[test]
fn passthrough_and_maybe_tmux() {
    let s = "\x1B]0;title\x07";
    assert_eq!(passthrough_tmux(s), "\x1BPtmux;\x1B\x1B]0;title\x07\x1B\\");
    assert_eq!(
        passthrough_tmux(s).into_bytes(),
        tmux_passthrough(s.as_bytes()).unwrap()
    );
    assert_eq!(write_maybe_tmux(s, false), s);
    assert_eq!(write_maybe_tmux(s, true), passthrough_tmux(s));
}
