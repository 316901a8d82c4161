//! The terminal features that awrit switches on at start and off at exit,
//! and the sequences it writes around tmux.
use vstd::prelude::*;
use vstd::utf8::*;
use crate::keyboard::{
    KeyboardEnhancementFlags, DISAMBIGUATE_ESCAPE_CODES, REPORT_ALL_KEYS_AS_ESCAPE_CODES,
    REPORT_ALTERNATE_KEYS, REPORT_EVENT_TYPES,
};
use crate::kitty::KittyGraphicsSupport;
use crate::raw_mode::{raw_mode_after, RawModeChange};
use crate::size;
use crate::tmux::{
    escape_for_tmux, extended_keys_chars, push_char, tmux_begin_chars, tmux_end_chars, tmux_escape,
    TmuxBeginPassthrough, TmuxEndPassthrough, TmuxMode, TmuxSetExtendedKeysMode, ESC,
};

verus! {

/// The features that the terminal was found to support.
#[derive(Debug, Clone, Copy, PartialEq, Eq, Structural)]
pub struct SupportedFeatures {
    pub keyboard: bool,
    pub images: bool,
    pub load_frame: bool,
    pub composite_frame: bool,
}

/// The terminal's size in cells and in pixels.
#[derive(Debug, Clone, Copy, PartialEq, Eq, Structural)]
pub struct WindowSize {
    pub cols: u16,
    pub rows: u16,
    pub width: u16,
    pub height: u16,
}

/// The features found: keyboard enhancement, and the kitty graphics capabilities.
pub fn supported_features(keyboard: bool, graphics: KittyGraphicsSupport) -> (r: SupportedFeatures)
    ensures
        r == (SupportedFeatures {
            keyboard,
            images: graphics.images,
            load_frame: graphics.load_frame,
            composite_frame: graphics.composite_frame,
        }),
{
    SupportedFeatures {
        keyboard,
        images: graphics.images,
        load_frame: graphics.load_frame,
        composite_frame: graphics.composite_frame,
    }
}

/// The window size as awrit reports it.
pub fn get_window_size(size: size::WindowSize) -> (r: WindowSize)
    ensures
        r == (WindowSize {
            cols: size.columns,
            rows: size.rows,
            width: size.width,
            height: size.height,
        }),
{
    WindowSize { cols: size.columns, rows: size.rows, width: size.width, height: size.height }
}

/// The commands that switch terminal features on and off.
#[derive(Debug, Clone, Copy, PartialEq, Eq)]
pub enum TerminalCommand {
    SetTmuxExtendedKeysMode(TmuxMode),
    PushKeyboardEnhancementFlags(KeyboardEnhancementFlags),
    PopKeyboardEnhancementFlags,
    EnableBracketedPaste,
    DisableBracketedPaste,
    EnableFocusChange,
    DisableFocusChange,
    EnableMouseCapture,
    DisableMouseCapture,
}

/// The decimal digit for `d < 10`.
pub open spec fn digit_char(d: nat) -> char {
    (0x30 + d) as char
}

/// The decimal representation of `n`, without leading zeros.
pub open spec fn decimal_chars(n: nat) -> Seq<char>
    decreases n,
{
    if n < 10 {
        seq![digit_char(n)]
    } else {
        decimal_chars(n / 10).push(digit_char(n % 10))
    }
}

/// The ANSI sequence of a command.
pub open spec fn command_chars(c: TerminalCommand) -> Seq<char> {
    match c {
        TerminalCommand::SetTmuxExtendedKeysMode(m) => extended_keys_chars(m),
        TerminalCommand::PushKeyboardEnhancementFlags(f) => seq![ESC, '[', '>'] + decimal_chars(
            f.bits as nat,
        ) + seq!['u'],
        TerminalCommand::PopKeyboardEnhancementFlags => seq![ESC, '[', '<', '1', 'u'],
        TerminalCommand::EnableBracketedPaste => seq![ESC, '[', '?', '2', '0', '0', '4', 'h'],
        TerminalCommand::DisableBracketedPaste => seq![ESC, '[', '?', '2', '0', '0', '4', 'l'],
        TerminalCommand::EnableFocusChange => seq![ESC, '[', '?', '1', '0', '0', '4', 'h'],
        TerminalCommand::DisableFocusChange => seq![ESC, '[', '?', '1', '0', '0', '4', 'l'],
        TerminalCommand::EnableMouseCapture => "\x1B[?1000h\x1B[?1002h\x1B[?1003h\x1B[?1015h\x1B[?1006h"@,
        TerminalCommand::DisableMouseCapture => "\x1B[?1006l\x1B[?1015l\x1B[?1003l\x1B[?1002l\x1B[?1000l"@,
    }
}

/// The ANSI sequences of a run of commands, one after another.
pub open spec fn commands_chars(cs: Seq<TerminalCommand>) -> Seq<char>
    decreases cs.len(),
{
    if cs.len() == 0 {
        Seq::empty()
    } else {
        commands_chars(cs.drop_last()) + command_chars(cs.last())
    }
}

fn push_digit(s: &mut String, d: u8)
    requires
        d < 10,
    ensures
        final(s)@ == old(s)@.push(digit_char(d as nat)),
{
    let c: char = if d == 0 {
        '0'
    } else if d == 1 {
        '1'
    } else if d == 2 {
        '2'
    } else if d == 3 {
        '3'
    } else if d == 4 {
        '4'
    } else if d == 5 {
        '5'
    } else if d == 6 {
        '6'
    } else if d == 7 {
        '7'
    } else if d == 8 {
        '8'
    } else {
        '9'
    };
    push_char(s, c);
}

fn push_decimal(s: &mut String, n: u8)
    ensures
        final(s)@ == old(s)@ + decimal_chars(n as nat),
{
    if n >= 100 {
        push_digit(s, n / 100);
        push_digit(s, (n / 10) % 10);
        push_digit(s, n % 10);
        assert(decimal_chars((n / 100) as nat) == seq![digit_char((n / 100) as nat)]);
        assert(((n / 10) / 10) as nat == (n / 100) as nat);
        assert(decimal_chars((n / 10) as nat) == decimal_chars((n / 100) as nat).push(
            digit_char(((n / 10) % 10) as nat),
        ));
    } else if n >= 10 {
        push_digit(s, n / 10);
        push_digit(s, n % 10);
        assert(decimal_chars((n / 10) as nat) == seq![digit_char((n / 10) as nat)]);
    } else {
        push_digit(s, n);
    }
}

impl TerminalCommand {
    /// Appends the command's ANSI sequence.
    pub fn write_ansi(&self, f: &mut String)
        ensures
            final(f)@ == old(f)@ + command_chars(*self),
    {
        match *self {
            TerminalCommand::SetTmuxExtendedKeysMode(m) => TmuxSetExtendedKeysMode(m).write_ansi(f),
            TerminalCommand::PushKeyboardEnhancementFlags(flags) => {
                let s = "\x1B[>";
                proof {
                    reveal_strlit("\x1B[>");
                }
                f.append(s);
                push_decimal(f, flags.bits());
                push_char(f, 'u');
            },
            TerminalCommand::PopKeyboardEnhancementFlags => {
                let s = "\x1B[<1u";
                proof {
                    reveal_strlit("\x1B[<1u");
                }
                f.append(s);
            },
            TerminalCommand::EnableBracketedPaste => {
                let s = "\x1B[?2004h";
                proof {
                    reveal_strlit("\x1B[?2004h");
                }
                f.append(s);
            },
            TerminalCommand::DisableBracketedPaste => {
                let s = "\x1B[?2004l";
                proof {
                    reveal_strlit("\x1B[?2004l");
                }
                f.append(s);
            },
            TerminalCommand::EnableFocusChange => {
                let s = "\x1B[?1004h";
                proof {
                    reveal_strlit("\x1B[?1004h");
                }
                f.append(s);
            },
            TerminalCommand::DisableFocusChange => {
                let s = "\x1B[?1004l";
                proof {
                    reveal_strlit("\x1B[?1004l");
                }
                f.append(s);
            },
            TerminalCommand::EnableMouseCapture => {
                f.append("\x1B[?1000h\x1B[?1002h\x1B[?1003h\x1B[?1015h\x1B[?1006h");
            },
            TerminalCommand::DisableMouseCapture => {
                f.append("\x1B[?1006l\x1B[?1015l\x1B[?1003l\x1B[?1002l\x1B[?1000l");
            },
        }
    }
}

/// The ANSI sequences of a batch of commands, in order.
pub fn commands_ansi(commands: &Vec<TerminalCommand>) -> (out: String)
    ensures
        out@ == commands_chars(commands@),
{
    let mut out = String::new();
    for i in 0..commands.len()
        invariant
            out@ == commands_chars(commands@.take(i as int)),
    {
        assert(commands@.take(i + 1).drop_last() == commands@.take(i as int));
        commands[i].write_ansi(&mut out);
    }
    assert(commands@.take(commands@.len() as int) == commands@);
    out
}

/// Sends a sequence straight to the client terminal through tmux: the
/// begin-passthrough command, the sequence escaped, the end-passthrough command.
pub fn passthrough_tmux(sequence: &str) -> (out: String)
    ensures
        out@ == tmux_begin_chars() + escape_for_tmux(sequence@) + tmux_end_chars(),
{
    let mut out = String::new();
    TmuxBeginPassthrough.write_ansi(&mut out);
    let escaped = tmux_escape(sequence);
    out.append(escaped.as_str());
    TmuxEndPassthrough.write_ansi(&mut out);
    out
}

/// The sequence as it must be written: through tmux inside a tmux session,
/// unchanged otherwise.
pub fn write_maybe_tmux(sequence: &str, inside_tmux: bool) -> (out: String)
    ensures
        inside_tmux ==> out@ == tmux_begin_chars() + escape_for_tmux(sequence@) + tmux_end_chars(),
        !inside_tmux ==> out@ == sequence@,
{
    if inside_tmux {
        passthrough_tmux(sequence)
    } else {
        sequence.to_owned()
    }
}

/// The framing of [`passthrough_tmux`] and of
/// [`crate::tmux::tmux_passthrough`] agree: the bytes of a string framed for
/// tmux are the string's bytes framed for tmux.
pub proof fn lemma_passthroughs_agree(s: Seq<char>)
    ensures
        valid_utf8(encode_utf8(s)),
        encode_utf8(tmux_begin_chars() + escape_for_tmux(decode_utf8(encode_utf8(s))) + tmux_end_chars())
            == encode_utf8(tmux_begin_chars() + escape_for_tmux(s) + tmux_end_chars()),
{
    encode_utf8_valid_utf8(s);
    encode_utf8_decode_utf8(s);
}

/// The keyboard enhancements that awrit asks for: disambiguated escape
/// codes, all keys as escape codes, alternate keys and event types.
pub open spec fn awrit_keyboard_flags() -> KeyboardEnhancementFlags {
    KeyboardEnhancementFlags {
        bits: DISAMBIGUATE_ESCAPE_CODES | REPORT_ALL_KEYS_AS_ESCAPE_CODES | REPORT_ALTERNATE_KEYS
            | REPORT_EVENT_TYPES,
    }
}

fn keyboard_flags() -> (r: KeyboardEnhancementFlags)
    ensures
        r == awrit_keyboard_flags(),
{
    KeyboardEnhancementFlags { bits: DISAMBIGUATE_ESCAPE_CODES }.union(
        KeyboardEnhancementFlags { bits: REPORT_ALL_KEYS_AS_ESCAPE_CODES },
    ).union(KeyboardEnhancementFlags { bits: REPORT_ALTERNATE_KEYS }).union(
        KeyboardEnhancementFlags { bits: REPORT_EVENT_TYPES },
    )
}

/// What enabling features sends before the capability queries: inside tmux,
/// the request for extended-keys mode 1.
pub open spec fn enable_tmux_spec(inside_tmux: bool) -> Seq<TerminalCommand> {
    if inside_tmux {
        seq![TerminalCommand::SetTmuxExtendedKeysMode(TmuxMode::Mode1)]
    } else {
        Seq::empty()
    }
}

/// What enabling features sends after the queries, as one batch: the
/// keyboard enhancements when the terminal supports them, then bracketed
/// paste, focus change and mouse capture.
pub open spec fn enable_input_spec(keyboard: bool) -> Seq<TerminalCommand> {
    let rest = seq![
        TerminalCommand::EnableBracketedPaste,
        TerminalCommand::EnableFocusChange,
        TerminalCommand::EnableMouseCapture,
    ];
    if keyboard {
        seq![TerminalCommand::PushKeyboardEnhancementFlags(awrit_keyboard_flags())] + rest
    } else {
        rest
    }
}

/// What disabling features sends, batch by batch: bracketed paste, focus
/// change and mouse capture off; the keyboard enhancements popped when they
/// were pushed; inside tmux, the standard extended-keys mode.
pub open spec fn disable_spec(keyboard: bool, inside_tmux: bool) -> Seq<Seq<TerminalCommand>> {
    let input = seq![
        TerminalCommand::DisableBracketedPaste,
        TerminalCommand::DisableFocusChange,
        TerminalCommand::DisableMouseCapture,
    ];
    let kb = if keyboard {
        seq![seq![TerminalCommand::PopKeyboardEnhancementFlags]]
    } else {
        Seq::empty()
    };
    let tm = if inside_tmux {
        seq![seq![TerminalCommand::SetTmuxExtendedKeysMode(TmuxMode::Standard)]]
    } else {
        Seq::empty()
    };
    seq![input] + kb + tm
}

/// The command that switches off what a command switched on.
pub open spec fn undo_command(c: TerminalCommand) -> TerminalCommand {
    match c {
        TerminalCommand::SetTmuxExtendedKeysMode(_) => TerminalCommand::SetTmuxExtendedKeysMode(
            TmuxMode::Standard,
        ),
        TerminalCommand::PushKeyboardEnhancementFlags(_) => TerminalCommand::PopKeyboardEnhancementFlags,
        TerminalCommand::EnableBracketedPaste => TerminalCommand::DisableBracketedPaste,
        TerminalCommand::EnableFocusChange => TerminalCommand::DisableFocusChange,
        TerminalCommand::EnableMouseCapture => TerminalCommand::DisableMouseCapture,
        _ => c,
    }
}

/// Disabling the features undoes exactly what enabling them did, given the
/// same tmux session and the features found: every command that enabling
/// sent is undone by a command of disabling, and disabling sends nothing
/// else and nothing twice.
pub proof fn lemma_disable_undoes_enable(keyboard: bool, inside_tmux: bool)
    ensures
        ({
            let enabled = enable_tmux_spec(inside_tmux) + enable_input_spec(keyboard);
            let disabled = disable_spec(keyboard, inside_tmux).flatten();
            &&& disabled.len() == enabled.len()
            &&& forall|i: int| 0 <= i < enabled.len() ==> #[trigger] disabled.contains(undo_command(enabled[i]))
            &&& forall|j: int| 0 <= j < disabled.len() ==> exists|i: int| 0 <= i < enabled.len()
                && #[trigger] undo_command(enabled[i]) == #[trigger] disabled[j]
            &&& disabled.no_duplicates()
        }),
{
    let enabled = enable_tmux_spec(inside_tmux) + enable_input_spec(keyboard);
    let disabled = disable_spec(keyboard, inside_tmux).flatten();
    let input = seq![
        TerminalCommand::DisableBracketedPaste,
        TerminalCommand::DisableFocusChange,
        TerminalCommand::DisableMouseCapture,
    ];
    let pop = seq![TerminalCommand::PopKeyboardEnhancementFlags];
    let standard = seq![TerminalCommand::SetTmuxExtendedKeysMode(TmuxMode::Standard)];
    let batches = disable_spec(keyboard, inside_tmux);
    reveal_with_fuel(Seq::<_>::flatten, 4);
    if keyboard && inside_tmux {
        assert(batches =~= seq![input, pop, standard]);
        assert(disabled =~= input + pop + standard);
    } else if keyboard {
        assert(batches =~= seq![input, pop]);
        assert(disabled =~= input + pop);
    } else if inside_tmux {
        assert(batches =~= seq![input, standard]);
        assert(disabled =~= input + standard);
    } else {
        assert(batches =~= seq![input]);
        assert(disabled =~= input);
    }
    assert forall|i: int| 0 <= i < enabled.len() implies #[trigger] disabled.contains(
        undo_command(enabled[i]),
    ) by {
        let d = undo_command(enabled[i]);
        assert(exists|k: int| 0 <= k < disabled.len() && disabled[k] == d) by {
            if keyboard && inside_tmux {
                assert(disabled[0] == TerminalCommand::DisableBracketedPaste);
                assert(disabled[1] == TerminalCommand::DisableFocusChange);
                assert(disabled[2] == TerminalCommand::DisableMouseCapture);
                assert(disabled[3] == TerminalCommand::PopKeyboardEnhancementFlags);
                assert(disabled[4] == TerminalCommand::SetTmuxExtendedKeysMode(TmuxMode::Standard));
            } else if keyboard {
                assert(disabled[0] == TerminalCommand::DisableBracketedPaste);
                assert(disabled[1] == TerminalCommand::DisableFocusChange);
                assert(disabled[2] == TerminalCommand::DisableMouseCapture);
                assert(disabled[3] == TerminalCommand::PopKeyboardEnhancementFlags);
            } else if inside_tmux {
                assert(disabled[0] == TerminalCommand::DisableBracketedPaste);
                assert(disabled[1] == TerminalCommand::DisableFocusChange);
                assert(disabled[2] == TerminalCommand::DisableMouseCapture);
                assert(disabled[3] == TerminalCommand::SetTmuxExtendedKeysMode(TmuxMode::Standard));
            } else {
                assert(disabled[0] == TerminalCommand::DisableBracketedPaste);
                assert(disabled[1] == TerminalCommand::DisableFocusChange);
                assert(disabled[2] == TerminalCommand::DisableMouseCapture);
            }
        }
    }
    assert forall|j: int| 0 <= j < disabled.len() implies exists|i: int| 0 <= i < enabled.len()
        && #[trigger] undo_command(enabled[i]) == #[trigger] disabled[j] by {
        let t: int = if inside_tmux { 1 } else { 0 };
        let kb: int = if keyboard { 1 } else { 0 };
        // enabled = [mode1]? ++ [push]? ++ [paste, focus, mouse]
        // disabled = [paste, focus, mouse] ++ [pop]? ++ [standard]?
        if j < 3 {
            assert(undo_command(enabled[t + kb + j]) == disabled[j]);
        } else if j == 3 && keyboard {
            assert(undo_command(enabled[t]) == disabled[j]);
        } else {
            assert(undo_command(enabled[0]) == disabled[j]);
        }
    }
}

/// A whole enable-then-disable run leaves the terminal as it was: starting
/// with raw mode off and the terminal attributes `t0`, enabling switches
/// raw mode on (saving `t0`) and sends [`enable_tmux_spec`] then
/// [`enable_input_spec`]; disabling with the features found sends the
/// batches of [`disable_spec`] and switches raw mode off. Then the attributes
/// restored are `t0` and raw mode is off; the keyboard enhancements pushed
/// once (when supported) are popped once; inside tmux the extended-keys mode
/// set to mode 1 is reset to the standard mode, and outside tmux neither is
/// sent; and every command of enabling is undone by one of disabling.
pub proof fn lemma_enable_disable_round_trip<T>(keyboard: bool, inside_tmux: bool, t0: T)
    ensures
        ({
            let enabled = enable_tmux_spec(inside_tmux) + enable_input_spec(keyboard);
            let disabled = disable_spec(keyboard, inside_tmux).flatten();
            let push = TerminalCommand::PushKeyboardEnhancementFlags(awrit_keyboard_flags());
            let pop = TerminalCommand::PopKeyboardEnhancementFlags;
            let mode1 = TerminalCommand::SetTmuxExtendedKeysMode(TmuxMode::Mode1);
            let standard = TerminalCommand::SetTmuxExtendedKeysMode(TmuxMode::Standard);
            &&& raw_mode_after(None, seq![RawModeChange::Entered(t0)]) == Some(t0)
            &&& raw_mode_after(None, seq![RawModeChange::Entered(t0), RawModeChange::Left]) is None
            &&& (enabled.contains(push) <==> keyboard)
            &&& (disabled.contains(pop) <==> keyboard)
            &&& (enabled.contains(mode1) <==> inside_tmux)
            &&& (disabled.contains(standard) <==> inside_tmux)
            &&& enabled.no_duplicates()
            &&& disabled.no_duplicates()
            &&& disabled.len() == enabled.len()
            &&& forall|i: int| 0 <= i < enabled.len() ==> #[trigger] disabled.contains(undo_command(enabled[i]))
        }),
{
    lemma_disable_undoes_enable(keyboard, inside_tmux);
    let enabled = enable_tmux_spec(inside_tmux) + enable_input_spec(keyboard);
    let disabled = disable_spec(keyboard, inside_tmux).flatten();
    let push = TerminalCommand::PushKeyboardEnhancementFlags(awrit_keyboard_flags());
    let pop = TerminalCommand::PopKeyboardEnhancementFlags;
    let mode1 = TerminalCommand::SetTmuxExtendedKeysMode(TmuxMode::Mode1);
    let standard = TerminalCommand::SetTmuxExtendedKeysMode(TmuxMode::Standard);
    let changes = seq![RawModeChange::Entered(t0), RawModeChange::Left];
    assert(changes.drop_last() == seq![RawModeChange::Entered(t0)]);
    assert(seq![RawModeChange::Entered(t0)].drop_last() == Seq::<RawModeChange<T>>::empty());
    let input = seq![
        TerminalCommand::DisableBracketedPaste,
        TerminalCommand::DisableFocusChange,
        TerminalCommand::DisableMouseCapture,
    ];
    let rest = seq![
        TerminalCommand::EnableBracketedPaste,
        TerminalCommand::EnableFocusChange,
        TerminalCommand::EnableMouseCapture,
    ];
    reveal_with_fuel(Seq::<_>::flatten, 4);
    let e: Seq<TerminalCommand> = if inside_tmux {
        seq![mode1]
    } else {
        Seq::empty()
    } + if keyboard {
        seq![push]
    } else {
        Seq::empty()
    } + rest;
    let d: Seq<TerminalCommand> = input + if keyboard {
        seq![pop]
    } else {
        Seq::empty()
    } + if inside_tmux {
        seq![standard]
    } else {
        Seq::empty()
    };
    assert(enabled =~= e);
    if keyboard && inside_tmux {
        assert(disable_spec(keyboard, inside_tmux) =~= seq![input, seq![pop], seq![standard]]);
    } else if keyboard {
        assert(disable_spec(keyboard, inside_tmux) =~= seq![input, seq![pop]]);
    } else if inside_tmux {
        assert(disable_spec(keyboard, inside_tmux) =~= seq![input, seq![standard]]);
    } else {
        assert(disable_spec(keyboard, inside_tmux) =~= seq![input]);
    }
    assert(disabled =~= d);
    if keyboard {
        assert(enabled[if inside_tmux { 1int } else { 0int }] == push);
        assert(disabled[3] == pop);
    } else {
        assert(!enabled.contains(push)) by {
            if enabled.contains(push) {
                let k = choose|k: int| 0 <= k < enabled.len() && enabled[k] == push;
                assert(e[k] == push);
            }
        }
        assert(!disabled.contains(pop)) by {
            if disabled.contains(pop) {
                let k = choose|k: int| 0 <= k < disabled.len() && disabled[k] == pop;
                assert(d[k] == pop);
            }
        }
    }
    if inside_tmux {
        assert(enabled[0] == mode1);
        assert(disabled[disabled.len() - 1] == standard);
    } else {
        assert(!enabled.contains(mode1)) by {
            if enabled.contains(mode1) {
                let k = choose|k: int| 0 <= k < enabled.len() && enabled[k] == mode1;
                assert(e[k] == mode1);
            }
        }
        assert(!disabled.contains(standard)) by {
            if disabled.contains(standard) {
                let k = choose|k: int| 0 <= k < disabled.len() && disabled[k] == standard;
                assert(d[k] == standard);
            }
        }
    }
    assert(enabled.no_duplicates()) by {
        assert forall|i: int, j: int| 0 <= i < enabled.len() && 0 <= j < enabled.len() && i != j
            implies enabled[i] != enabled[j] by {
            assert(enabled[i] == e[i] && enabled[j] == e[j]);
        }
    }
    assert(raw_mode_after(None::<T>, Seq::<RawModeChange<T>>::empty()) == None::<T>);
    assert(raw_mode_after(None, seq![RawModeChange::Entered(t0)]) == Some(t0));
    assert(raw_mode_after(None, changes) is None);
}

/// The number that a string of decimal digits spells.
pub open spec fn decimal_value(cs: Seq<char>) -> int
    decreases cs.len(),
{
    if cs.len() == 0 {
        0
    } else {
        decimal_value(cs.drop_last()) * 10 + (cs.last() as int - 0x30)
    }
}

proof fn lemma_decimal_round_trip(n: nat)
    ensures
        decimal_value(decimal_chars(n)) == n,
        decimal_chars(n).len() >= 1,
        forall|i: int| 0 <= i < decimal_chars(n).len() ==> '0' <= #[trigger] decimal_chars(n)[i] <= '9',
        n > 0 ==> decimal_chars(n)[0] != '0',
    decreases n,
{
    assert(digit_char(n % 10) as int == 0x30 + n % 10);
    if n < 10 {
        assert(n % 10 == n);
        assert(seq![digit_char(n)].drop_last() == Seq::<char>::empty());
        assert(decimal_value(Seq::<char>::empty()) == 0);
        assert(decimal_value(decimal_chars(n)) == 0 * 10 + (digit_char(n) as int - 0x30));
    } else {
        lemma_decimal_round_trip(n / 10);
        let cs = decimal_chars(n);
        assert(cs.drop_last() == decimal_chars(n / 10));
        assert(cs.last() == digit_char(n % 10));
        assert(n == (n / 10) * 10 + n % 10);
        assert(decimal_value(cs) == decimal_value(decimal_chars(n / 10)) * 10 + (digit_char(n % 10) as int
            - 0x30));
    }
}

/// The ANSI sequences say what the commands mean: a tmux extended-keys
/// request carries the digit of its own mode (`0` standard, `1` mode 1,
/// `2` mode 2), the same as [`TmuxSetExtendedKeysMode::write_ansi`] writes;
/// the keyboard push carries the flags' bits in decimal, without leading
/// zeros; bracketed paste and focus change are switched on with `h` and off
/// with `l` in the same private mode; mouse capture switches modes 1000,
/// 1002, 1003, 1015 and 1006 on, and off in the reverse order; and the pop
/// removes one entry.
pub proof fn lemma_command_chars_meaning(m: TmuxMode, f: KeyboardEnhancementFlags)
    ensures
        command_chars(TerminalCommand::SetTmuxExtendedKeysMode(m)) == extended_keys_chars(m),
        extended_keys_chars(m) == seq![
            ESC,
            '[',
            '>',
            '4',
            ';',
            if m == TmuxMode::Standard {
                '0'
            } else if m == TmuxMode::Mode1 {
                '1'
            } else {
                '2'
            },
            'm',
        ],
        ({
            let c = command_chars(TerminalCommand::PushKeyboardEnhancementFlags(f));
            let digits = c.subrange(3, c.len() - 1);
            &&& c.len() >= 5
            &&& c.subrange(0, 3) == seq![ESC, '[', '>']
            &&& c.last() == 'u'
            &&& decimal_value(digits) == f.bits
            &&& (forall|i: int| 0 <= i < digits.len() ==> '0' <= #[trigger] digits[i] <= '9')
            &&& (f.bits > 0 ==> digits[0] != '0')
        }),
        command_chars(TerminalCommand::PopKeyboardEnhancementFlags) == seq![ESC, '[', '<', '1', 'u'],
        command_chars(TerminalCommand::EnableBracketedPaste) == seq![ESC, '[', '?', '2', '0', '0', '4', 'h'],
        command_chars(TerminalCommand::DisableBracketedPaste) == seq![ESC, '[', '?', '2', '0', '0', '4', 'l'],
        command_chars(TerminalCommand::EnableFocusChange) == seq![ESC, '[', '?', '1', '0', '0', '4', 'h'],
        command_chars(TerminalCommand::DisableFocusChange) == seq![ESC, '[', '?', '1', '0', '0', '4', 'l'],
        command_chars(TerminalCommand::EnableMouseCapture) == seq![ESC, '[', '?', '1', '0', '0', '0', 'h']
            + seq![ESC, '[', '?', '1', '0', '0', '2', 'h'] + seq![ESC, '[', '?', '1', '0', '0', '3', 'h']
            + seq![ESC, '[', '?', '1', '0', '1', '5', 'h'] + seq![ESC, '[', '?', '1', '0', '0', '6', 'h'],
        command_chars(TerminalCommand::DisableMouseCapture) == seq![ESC, '[', '?', '1', '0', '0', '6', 'l']
            + seq![ESC, '[', '?', '1', '0', '1', '5', 'l'] + seq![ESC, '[', '?', '1', '0', '0', '3', 'l']
            + seq![ESC, '[', '?', '1', '0', '0', '2', 'l'] + seq![ESC, '[', '?', '1', '0', '0', '0', 'l'],
{
    lemma_decimal_round_trip(f.bits as nat);
    let d = decimal_chars(f.bits as nat);
    let c = command_chars(TerminalCommand::PushKeyboardEnhancementFlags(f));
    assert(c.subrange(3, c.len() - 1) == d);
    assert(c.subrange(0, 3) == seq![ESC, '[', '>']);
    reveal_strlit("\x1B[?1000h\x1B[?1002h\x1B[?1003h\x1B[?1015h\x1B[?1006h");
    reveal_strlit("\x1B[?1006l\x1B[?1015l\x1B[?1003l\x1B[?1002l\x1B[?1000l");
    assert(command_chars(TerminalCommand::EnableMouseCapture) =~= seq![ESC, '[', '?', '1', '0', '0', '0', 'h']
        + seq![ESC, '[', '?', '1', '0', '0', '2', 'h'] + seq![ESC, '[', '?', '1', '0', '0', '3', 'h']
        + seq![ESC, '[', '?', '1', '0', '1', '5', 'h'] + seq![ESC, '[', '?', '1', '0', '0', '6', 'h']);
    assert(command_chars(TerminalCommand::DisableMouseCapture) =~= seq![ESC, '[', '?', '1', '0', '0', '6', 'l']
        + seq![ESC, '[', '?', '1', '0', '1', '5', 'l'] + seq![ESC, '[', '?', '1', '0', '0', '3', 'l']
        + seq![ESC, '[', '?', '1', '0', '0', '2', 'l'] + seq![ESC, '[', '?', '1', '0', '0', '0', 'l']);
}

/// Enabling switches features on and disabling switches them off, whatever
/// the terminal supports: inside tmux enabling first asks for extended-keys
/// mode 1 and disabling ends with the standard mode; enabling pushes the
/// flags with bits 15 (disambiguate escape codes, report event types,
/// alternate keys, all keys as escape codes) exactly when keyboard
/// enhancement is supported, and then always switches bracketed paste,
/// focus change and mouse capture on, with no switch-off among them;
/// disabling always switches those three off first, then pops the flags
/// exactly when they were pushed.
pub proof fn lemma_enable_disable_commands(keyboard: bool, inside_tmux: bool)
    ensures
        enable_tmux_spec(inside_tmux) == (if inside_tmux {
            seq![TerminalCommand::SetTmuxExtendedKeysMode(TmuxMode::Mode1)]
        } else {
            Seq::<TerminalCommand>::empty()
        }),
        enable_input_spec(keyboard) == (if keyboard {
            seq![TerminalCommand::PushKeyboardEnhancementFlags(KeyboardEnhancementFlags { bits: 15 })]
        } else {
            Seq::<TerminalCommand>::empty()
        }) + seq![
            TerminalCommand::EnableBracketedPaste,
            TerminalCommand::EnableFocusChange,
            TerminalCommand::EnableMouseCapture,
        ],
        forall|i: int| 0 <= i < enable_input_spec(keyboard).len() ==> {
            let c = #[trigger] enable_input_spec(keyboard)[i];
            &&& c != TerminalCommand::DisableBracketedPaste
            &&& c != TerminalCommand::DisableFocusChange
            &&& c != TerminalCommand::DisableMouseCapture
            &&& c != TerminalCommand::PopKeyboardEnhancementFlags
        },
        disable_spec(keyboard, inside_tmux) == seq![
            seq![
                TerminalCommand::DisableBracketedPaste,
                TerminalCommand::DisableFocusChange,
                TerminalCommand::DisableMouseCapture,
            ],
        ] + (if keyboard {
            seq![seq![TerminalCommand::PopKeyboardEnhancementFlags]]
        } else {
            Seq::<Seq<TerminalCommand>>::empty()
        }) + (if inside_tmux {
            seq![seq![TerminalCommand::SetTmuxExtendedKeysMode(TmuxMode::Standard)]]
        } else {
            Seq::<Seq<TerminalCommand>>::empty()
        }),
{
    assert(DISAMBIGUATE_ESCAPE_CODES | REPORT_ALL_KEYS_AS_ESCAPE_CODES | REPORT_ALTERNATE_KEYS
        | REPORT_EVENT_TYPES == 15u8) by (bit_vector);
    assert(awrit_keyboard_flags() == KeyboardEnhancementFlags { bits: 15 });
    let rest = seq![
        TerminalCommand::EnableBracketedPaste,
        TerminalCommand::EnableFocusChange,
        TerminalCommand::EnableMouseCapture,
    ];
    if keyboard {
        assert(enable_input_spec(keyboard) =~= seq![
            TerminalCommand::PushKeyboardEnhancementFlags(KeyboardEnhancementFlags { bits: 15 }),
        ] + rest);
    } else {
        assert(enable_input_spec(keyboard) =~= Seq::<TerminalCommand>::empty() + rest);
    }
}

/// The commands that enabling features sends before the capability queries.
pub fn term_enable_tmux_commands(inside_tmux: bool) -> (r: Vec<TerminalCommand>)
    ensures
        r@ == enable_tmux_spec(inside_tmux),
{
    let mut r = Vec::new();
    if inside_tmux {
        r.push(TerminalCommand::SetTmuxExtendedKeysMode(TmuxMode::Mode1));
    }
    r
}

/// The batch that enabling features sends after the capability queries.
pub fn term_enable_input_commands(keyboard: bool) -> (r: Vec<TerminalCommand>)
    ensures
        r@ == enable_input_spec(keyboard),
{
    let mut r = Vec::new();
    if keyboard {
        r.push(TerminalCommand::PushKeyboardEnhancementFlags(keyboard_flags()));
    }
    r.push(TerminalCommand::EnableBracketedPaste);
    r.push(TerminalCommand::EnableFocusChange);
    r.push(TerminalCommand::EnableMouseCapture);
    r
}

/// The batches that disabling the features sends, each written and flushed
/// before the next; raw mode is switched off after them.
pub fn term_disable_features(features: &SupportedFeatures, inside_tmux: bool) -> (r: Vec<Vec<TerminalCommand>>)
    ensures
        r@.map_values(|b: Vec<TerminalCommand>| b@) == disable_spec(features.keyboard, inside_tmux),
{
    let mut r: Vec<Vec<TerminalCommand>> = Vec::new();
    let mut input = Vec::new();
    input.push(TerminalCommand::DisableBracketedPaste);
    input.push(TerminalCommand::DisableFocusChange);
    input.push(TerminalCommand::DisableMouseCapture);
    let ghost vi = input@;
    assert(vi == seq![
        TerminalCommand::DisableBracketedPaste,
        TerminalCommand::DisableFocusChange,
        TerminalCommand::DisableMouseCapture,
    ]);
    r.push(input);
    let ghost mut views: Seq<Seq<TerminalCommand>> = seq![vi];
    if features.keyboard {
        let mut kb = Vec::new();
        kb.push(TerminalCommand::PopKeyboardEnhancementFlags);
        let ghost vk = kb@;
        assert(vk == seq![TerminalCommand::PopKeyboardEnhancementFlags]);
        r.push(kb);
        proof {
            views = views.push(vk);
        }
    }
    if inside_tmux {
        let mut tm = Vec::new();
        tm.push(TerminalCommand::SetTmuxExtendedKeysMode(TmuxMode::Standard));
        let ghost vt = tm@;
        assert(vt == seq![TerminalCommand::SetTmuxExtendedKeysMode(TmuxMode::Standard)]);
        r.push(tm);
        proof {
            views = views.push(vt);
        }
    }
    assert(r@.map_values(|b: Vec<TerminalCommand>| b@) =~= views);
    assert(views =~= disable_spec(features.keyboard, inside_tmux)) by {
        let spec = disable_spec(features.keyboard, inside_tmux);
        if features.keyboard {
            if inside_tmux {
                assert(spec == seq![vi, seq![TerminalCommand::PopKeyboardEnhancementFlags], seq![TerminalCommand::SetTmuxExtendedKeysMode(TmuxMode::Standard)]]);
            } else {
                assert(spec == seq![vi, seq![TerminalCommand::PopKeyboardEnhancementFlags]]);
            }
        } else {
            if inside_tmux {
                assert(spec == seq![vi, seq![TerminalCommand::SetTmuxExtendedKeysMode(TmuxMode::Standard)]]);
            } else {
                assert(spec == seq![vi]);
            }
        }
    }
    r
}

} // verus!
