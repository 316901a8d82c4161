//! The query for the terminal's progressive keyboard enhancement flags
//! (kitty keyboard protocol), as a machine that decides, step by step, what
//! the caller must do on the terminal next.
use vstd::prelude::*;
use crate::tmux::{
    ESC, escape_bytes_for_tmux, lemma_passthrough_accepts_ascii, tmux_begin_bytes, tmux_end_bytes,
    tmux_passthrough,
};

verus! {

/// Disambiguate escape codes.
pub const DISAMBIGUATE_ESCAPE_CODES: u8 = 0b0000_0001u8;

/// Report key release and repeat events.
pub const REPORT_EVENT_TYPES: u8 = 0b0000_0010u8;

/// Report alternate keys.
pub const REPORT_ALTERNATE_KEYS: u8 = 0b0000_0100u8;

/// Report all keys as escape codes.
pub const REPORT_ALL_KEYS_AS_ESCAPE_CODES: u8 = 0b0000_1000u8;

/// A set of progressive keyboard enhancement flags, as their bits.
#[derive(Debug, Clone, Copy, PartialEq, Eq, Structural)]
pub struct KeyboardEnhancementFlags {
    pub bits: u8,
}

impl KeyboardEnhancementFlags {
    /// The flags whose bits are the known ones among `bits`.
    pub fn from_bits_truncate(bits: u8) -> (r: Self)
        ensures
            r.bits == bits & 0x0F,
    {
        KeyboardEnhancementFlags { bits: bits & 0x0F }
    }

    /// The union of two flag sets.
    pub fn union(self, other: Self) -> (r: Self)
        ensures
            r.bits == self.bits | other.bits,
    {
        KeyboardEnhancementFlags { bits: self.bits | other.bits }
    }

    /// The bits of the set.
    pub fn bits(&self) -> (r: u8)
        ensures
            r == self.bits,
    {
        self.bits
    }
}

/// Why a keyboard-flags query failed; the caller holds the I/O error itself.
#[derive(Debug, Clone, Copy, PartialEq, Eq, Structural)]
pub enum KeyboardQueryFailure {
    /// Raw mode could not be switched on.
    EnableRawMode,
    /// The query could be written neither to the tty nor to stdout.
    WriteQuery,
    /// No reply came within the poll's time.
    TimedOut,
    /// Raw mode could not be switched off again.
    DisableRawMode,
}

/// What a query concludes with.
pub type KeyboardQueryResult = Result<Option<KeyboardEnhancementFlags>, KeyboardQueryFailure>;

/// The outcome of one poll for a reply (keyboard flags or primary device attributes).
#[derive(Debug, Clone, Copy, PartialEq, Eq, Structural)]
pub enum ReplyPoll {
    /// A matching reply is ready to be read.
    Ready,
    /// None came within the time.
    TimedOut,
    /// The poll itself failed.
    Failed,
}

/// What the caller reports back after carrying out an action.
#[derive(Debug, Clone, Copy, PartialEq, Eq)]
pub enum KeyboardQueryEvent {
    /// Raw mode was (true) or could not be (false) switched on.
    RawModeEnabled(bool),
    /// The query was (true) or could not be (false) written and flushed to `/dev/tty`.
    TtyWritten(bool),
    /// The query was (true) or could not be (false) written and flushed to stdout.
    StdoutWritten(bool),
    /// The result of a poll.
    Polled(ReplyPoll),
    /// The reply read: the flags, or `None` for a device-attributes reply or a failed read.
    ReplyRead(Option<KeyboardEnhancementFlags>),
    /// The pending device-attributes reply was read and dropped.
    Drained,
    /// Raw mode was (true) or could not be (false) switched off.
    RawModeDisabled(bool),
}

/// What the caller must do next.
#[derive(Debug, Clone, Copy, PartialEq, Eq)]
pub enum KeyboardQueryAction {
    /// Switch the terminal to raw mode.
    EnableRawMode,
    /// Write [`keyboard_query_bytes`] to `/dev/tty` and flush.
    WriteQueryToTty,
    /// Write [`keyboard_query_bytes`] to stdout and flush.
    WriteQueryToStdout,
    /// Poll up to 200 ms for a keyboard-flags or device-attributes reply.
    Poll,
    /// Read that reply.
    Read,
    /// Read and drop the primary-device-attributes reply that follows the flags.
    DrainDeviceAttributes,
    /// Switch raw mode off again.
    DisableRawMode,
    /// The query is over, with this result.
    Finish(KeyboardQueryResult),
}

/// Where a query stands.
#[derive(Debug, Clone, Copy, PartialEq, Eq)]
pub enum KeyboardQueryStage {
    EnablingRawMode,
    WritingToTty,
    WritingToStdout,
    Polling,
    Reading,
    Draining(KeyboardEnhancementFlags),
    DisablingRawMode(KeyboardQueryResult),
    Done(KeyboardQueryResult),
}

/// A keyboard-flags query in progress.
#[derive(Debug, Clone, Copy, PartialEq, Eq)]
pub struct KeyboardQuery {
    pub stage: KeyboardQueryStage,
    /// Whether the terminal was in raw mode when the query began.
    pub raw_at_start: bool,
    /// Whether raw mode is on because this query switched it on.
    pub holds_raw_mode: bool,
}

/// The action that a stage waits on.
pub open spec fn pending_action(stage: KeyboardQueryStage) -> KeyboardQueryAction {
    match stage {
        KeyboardQueryStage::EnablingRawMode => KeyboardQueryAction::EnableRawMode,
        KeyboardQueryStage::WritingToTty => KeyboardQueryAction::WriteQueryToTty,
        KeyboardQueryStage::WritingToStdout => KeyboardQueryAction::WriteQueryToStdout,
        KeyboardQueryStage::Polling => KeyboardQueryAction::Poll,
        KeyboardQueryStage::Reading => KeyboardQueryAction::Read,
        KeyboardQueryStage::Draining(_) => KeyboardQueryAction::DrainDeviceAttributes,
        KeyboardQueryStage::DisablingRawMode(_) => KeyboardQueryAction::DisableRawMode,
        KeyboardQueryStage::Done(r) => KeyboardQueryAction::Finish(r),
    }
}

/// The end of the raw-mode part: outside raw mode the query first switches
/// raw mode back off, inside it the result stands at once.
pub open spec fn conclude(q: KeyboardQuery, r: KeyboardQueryResult) -> (KeyboardQuery, KeyboardQueryAction) {
    if q.raw_at_start {
        (KeyboardQuery { stage: KeyboardQueryStage::Done(r), ..q }, KeyboardQueryAction::Finish(r))
    } else {
        (
            KeyboardQuery { stage: KeyboardQueryStage::DisablingRawMode(r), ..q },
            KeyboardQueryAction::DisableRawMode,
        )
    }
}

/// One step of the query: the state after an event, and the next action.
/// An event that does not answer the pending action changes nothing.
pub open spec fn keyboard_query_next(q: KeyboardQuery, e: KeyboardQueryEvent) -> (KeyboardQuery, KeyboardQueryAction) {
    match (q.stage, e) {
        (KeyboardQueryStage::EnablingRawMode, KeyboardQueryEvent::RawModeEnabled(ok)) => if ok {
            (
                KeyboardQuery { stage: KeyboardQueryStage::WritingToTty, holds_raw_mode: true, ..q },
                KeyboardQueryAction::WriteQueryToTty,
            )
        } else {
            let r: KeyboardQueryResult = Err(KeyboardQueryFailure::EnableRawMode);
            (KeyboardQuery { stage: KeyboardQueryStage::Done(r), ..q }, KeyboardQueryAction::Finish(r))
        },
        (KeyboardQueryStage::WritingToTty, KeyboardQueryEvent::TtyWritten(ok)) => if ok {
            (KeyboardQuery { stage: KeyboardQueryStage::Polling, ..q }, KeyboardQueryAction::Poll)
        } else {
            (
                KeyboardQuery { stage: KeyboardQueryStage::WritingToStdout, ..q },
                KeyboardQueryAction::WriteQueryToStdout,
            )
        },
        (KeyboardQueryStage::WritingToStdout, KeyboardQueryEvent::StdoutWritten(ok)) => if ok {
            (KeyboardQuery { stage: KeyboardQueryStage::Polling, ..q }, KeyboardQueryAction::Poll)
        } else {
            conclude(q, Err(KeyboardQueryFailure::WriteQuery))
        },
        (KeyboardQueryStage::Polling, KeyboardQueryEvent::Polled(p)) => match p {
            ReplyPoll::Ready => (
                KeyboardQuery { stage: KeyboardQueryStage::Reading, ..q },
                KeyboardQueryAction::Read,
            ),
            ReplyPoll::TimedOut => conclude(q, Err(KeyboardQueryFailure::TimedOut)),
            ReplyPoll::Failed => (q, KeyboardQueryAction::Poll),
        },
        (KeyboardQueryStage::Reading, KeyboardQueryEvent::ReplyRead(reply)) => match reply {
            Some(flags) => (
                KeyboardQuery { stage: KeyboardQueryStage::Draining(flags), ..q },
                KeyboardQueryAction::DrainDeviceAttributes,
            ),
            None => conclude(q, Ok(None)),
        },
        (KeyboardQueryStage::Draining(flags), KeyboardQueryEvent::Drained) => conclude(q, Ok(Some(flags))),
        (KeyboardQueryStage::DisablingRawMode(r), KeyboardQueryEvent::RawModeDisabled(ok)) => {
            let res: KeyboardQueryResult = if ok {
                r
            } else {
                Err(KeyboardQueryFailure::DisableRawMode)
            };
            (
                KeyboardQuery { stage: KeyboardQueryStage::Done(res), holds_raw_mode: false, ..q },
                KeyboardQueryAction::Finish(res),
            )
        },
        _ => (q, pending_action(q.stage)),
    }
}

/// `ESC [ ? u` (query the keyboard enhancement flags) then `ESC [ c`
/// (query the primary device attributes).
pub open spec fn keyboard_query_chars() -> Seq<char> {
    seq![ESC, '[', '?', 'u', ESC, '[', 'c']
}

/// The bytes of [`keyboard_query_chars`].
pub open spec fn keyboard_query_plain_bytes() -> Seq<u8> {
    seq![0x1Bu8, 0x5Bu8, 0x3Fu8, 0x75u8, 0x1Bu8, 0x5Bu8, 0x63u8]
}

/// The query as it is written: framed for passthrough inside tmux.
pub open spec fn keyboard_query_spec_bytes(inside_tmux: bool) -> Seq<u8> {
    if inside_tmux {
        tmux_begin_bytes() + escape_bytes_for_tmux(keyboard_query_plain_bytes()) + tmux_end_bytes()
    } else {
        keyboard_query_plain_bytes()
    }
}

/// The bytes that [`KeyboardQueryAction::WriteQueryToTty`] and
/// [`KeyboardQueryAction::WriteQueryToStdout`] write.
pub fn keyboard_query_bytes(inside_tmux: bool) -> (out: Vec<u8>)
    ensures
        out@ == keyboard_query_spec_bytes(inside_tmux),
{
    let query: Vec<u8> = vec![0x1Bu8, 0x5Bu8, 0x3Fu8, 0x75u8, 0x1Bu8, 0x5Bu8, 0x63u8];
    assert(query@ == keyboard_query_plain_bytes());
    if inside_tmux {
        proof {
            lemma_passthrough_accepts_ascii(query@);
        }
        match tmux_passthrough(query.as_slice()) {
            Ok(out) => out,
            Err(_) => query,
        }
    } else {
        query
    }
}

/// Begins a query for the terminal's keyboard enhancement flags: outside raw
/// mode, raw mode is switched on for the query and off again after it.
pub fn query_keyboard_enhancement_flags(raw_mode_enabled: bool) -> (r: (KeyboardQuery, KeyboardQueryAction))
    ensures
        r.0.raw_at_start == raw_mode_enabled,
        !r.0.holds_raw_mode,
        keyboard_query_wf(r.0),
        raw_mode_enabled ==> r.0.stage == KeyboardQueryStage::WritingToTty && r.1
            == KeyboardQueryAction::WriteQueryToTty,
        !raw_mode_enabled ==> r.0.stage == KeyboardQueryStage::EnablingRawMode && r.1
            == KeyboardQueryAction::EnableRawMode,
{
    if raw_mode_enabled {
        (
            KeyboardQuery {
                stage: KeyboardQueryStage::WritingToTty,
                raw_at_start: true,
                holds_raw_mode: false,
            },
            KeyboardQueryAction::WriteQueryToTty,
        )
    } else {
        (
            KeyboardQuery {
                stage: KeyboardQueryStage::EnablingRawMode,
                raw_at_start: false,
                holds_raw_mode: false,
            },
            KeyboardQueryAction::EnableRawMode,
        )
    }
}

impl KeyboardQuery {
    fn conclude(&mut self, r: KeyboardQueryResult) -> (a: KeyboardQueryAction)
        ensures
            (*final(self), a) == conclude(*old(self), r),
    {
        if self.raw_at_start {
            self.stage = KeyboardQueryStage::Done(r);
            KeyboardQueryAction::Finish(r)
        } else {
            self.stage = KeyboardQueryStage::DisablingRawMode(r);
            KeyboardQueryAction::DisableRawMode
        }
    }

    /// The action that the query waits on.
    pub fn pending(&self) -> (a: KeyboardQueryAction)
        ensures
            a == pending_action(self.stage),
    {
        match self.stage {
            KeyboardQueryStage::EnablingRawMode => KeyboardQueryAction::EnableRawMode,
            KeyboardQueryStage::WritingToTty => KeyboardQueryAction::WriteQueryToTty,
            KeyboardQueryStage::WritingToStdout => KeyboardQueryAction::WriteQueryToStdout,
            KeyboardQueryStage::Polling => KeyboardQueryAction::Poll,
            KeyboardQueryStage::Reading => KeyboardQueryAction::Read,
            KeyboardQueryStage::Draining(_) => KeyboardQueryAction::DrainDeviceAttributes,
            KeyboardQueryStage::DisablingRawMode(_) => KeyboardQueryAction::DisableRawMode,
            KeyboardQueryStage::Done(r) => KeyboardQueryAction::Finish(r),
        }
    }

    /// Takes the outcome of the last action and decides the next one.
    pub fn step(&mut self, e: KeyboardQueryEvent) -> (a: KeyboardQueryAction)
        ensures
            (*final(self), a) == keyboard_query_next(*old(self), e),
    {
        match (self.stage, e) {
            (KeyboardQueryStage::EnablingRawMode, KeyboardQueryEvent::RawModeEnabled(ok)) => {
                if ok {
                    self.stage = KeyboardQueryStage::WritingToTty;
                    self.holds_raw_mode = true;
                    KeyboardQueryAction::WriteQueryToTty
                } else {
                    let r: KeyboardQueryResult = Err(KeyboardQueryFailure::EnableRawMode);
                    self.stage = KeyboardQueryStage::Done(r);
                    KeyboardQueryAction::Finish(r)
                }
            },
            (KeyboardQueryStage::WritingToTty, KeyboardQueryEvent::TtyWritten(ok)) => {
                if ok {
                    self.stage = KeyboardQueryStage::Polling;
                    KeyboardQueryAction::Poll
                } else {
                    self.stage = KeyboardQueryStage::WritingToStdout;
                    KeyboardQueryAction::WriteQueryToStdout
                }
            },
            (KeyboardQueryStage::WritingToStdout, KeyboardQueryEvent::StdoutWritten(ok)) => {
                if ok {
                    self.stage = KeyboardQueryStage::Polling;
                    KeyboardQueryAction::Poll
                } else {
                    self.conclude(Err(KeyboardQueryFailure::WriteQuery))
                }
            },
            (KeyboardQueryStage::Polling, KeyboardQueryEvent::Polled(p)) => match p {
                ReplyPoll::Ready => {
                    self.stage = KeyboardQueryStage::Reading;
                    KeyboardQueryAction::Read
                },
                ReplyPoll::TimedOut => self.conclude(Err(KeyboardQueryFailure::TimedOut)),
                ReplyPoll::Failed => KeyboardQueryAction::Poll,
            },
            (KeyboardQueryStage::Reading, KeyboardQueryEvent::ReplyRead(reply)) => match reply {
                Some(flags) => {
                    self.stage = KeyboardQueryStage::Draining(flags);
                    KeyboardQueryAction::DrainDeviceAttributes
                },
                None => self.conclude(Ok(None)),
            },
            (KeyboardQueryStage::Draining(flags), KeyboardQueryEvent::Drained) => {
                self.conclude(Ok(Some(flags)))
            },
            (KeyboardQueryStage::DisablingRawMode(r), KeyboardQueryEvent::RawModeDisabled(ok)) => {
                let res: KeyboardQueryResult = if ok {
                    r
                } else {
                    Err(KeyboardQueryFailure::DisableRawMode)
                };
                self.stage = KeyboardQueryStage::Done(res);
                self.holds_raw_mode = false;
                KeyboardQueryAction::Finish(res)
            },
            _ => self.pending(),
        }
    }
}

/// The stages in which a query that switched raw mode on still holds it.
pub open spec fn stage_holds_raw_mode(stage: KeyboardQueryStage) -> bool {
    match stage {
        KeyboardQueryStage::EnablingRawMode => false,
        KeyboardQueryStage::Done(_) => false,
        _ => true,
    }
}

/// The invariant of a query: raw mode is held by the query exactly between a
/// successful switch into it and the switch back; a query that began in raw
/// mode never holds it and never stands in a raw-mode stage.
pub open spec fn keyboard_query_wf(q: KeyboardQuery) -> bool {
    if q.raw_at_start {
        &&& !q.holds_raw_mode
        &&& !(q.stage is EnablingRawMode)
        &&& !(q.stage is DisablingRawMode)
    } else {
        q.holds_raw_mode == stage_holds_raw_mode(q.stage)
    }
}

/// Raw mode is left as the query found it: every step keeps the invariant; a
/// query never finishes while it still holds raw mode; and one that began in
/// raw mode never switches raw mode on or off.
pub proof fn lemma_keyboard_query_restores_raw_mode(q: KeyboardQuery, e: KeyboardQueryEvent)
    requires
        keyboard_query_wf(q),
    ensures
        keyboard_query_wf(keyboard_query_next(q, e).0),
        keyboard_query_next(q, e).1 is Finish ==> !keyboard_query_next(q, e).0.holds_raw_mode,
        q.raw_at_start ==> !(keyboard_query_next(q, e).1 is EnableRawMode) && !(keyboard_query_next(
            q,
            e,
        ).1 is DisableRawMode),
{
}

/// Once finished, a query stays finished with the same result.
pub proof fn lemma_keyboard_query_finish_is_final(q: KeyboardQuery, e: KeyboardQueryEvent)
    requires
        q.stage is Done,
    ensures
        keyboard_query_next(q, e) == (q, KeyboardQueryAction::Finish(q.stage->Done_0)),
{
}

/// After event `e`, the query ends with `res`: inside raw mode at once;
/// outside it once raw mode is switched back off, and then with that same
/// `res`, or with the failure to switch it off.
pub open spec fn query_ends_with(q: KeyboardQuery, e: KeyboardQueryEvent, res: KeyboardQueryResult) -> bool {
    let (q1, a1) = keyboard_query_next(q, e);
    if q.raw_at_start {
        a1 == KeyboardQueryAction::Finish(res)
    } else {
        &&& a1 == KeyboardQueryAction::DisableRawMode
        &&& keyboard_query_next(q1, KeyboardQueryEvent::RawModeDisabled(true)).1
            == KeyboardQueryAction::Finish(res)
        &&& keyboard_query_next(q1, KeyboardQueryEvent::RawModeDisabled(false)).1
            == KeyboardQueryAction::Finish(Err(KeyboardQueryFailure::DisableRawMode))
    }
}

/// What a query finds, in raw mode or out of it alike: the flags that the
/// terminal reported (after the device attributes that follow them are
/// drained), `None` when it answered with the device attributes alone,
/// a time-out when no answer came, and a write failure when the query could
/// be written nowhere. Outside raw mode the same result stands once raw mode
/// is switched back off.
pub proof fn lemma_keyboard_query_results(
    raw_at_start: bool,
    holds_raw_mode: bool,
    flags: KeyboardEnhancementFlags,
)
    ensures
        query_ends_with(
            KeyboardQuery { stage: KeyboardQueryStage::Draining(flags), raw_at_start, holds_raw_mode },
            KeyboardQueryEvent::Drained,
            Ok(Some(flags)),
        ),
        query_ends_with(
            KeyboardQuery { stage: KeyboardQueryStage::Reading, raw_at_start, holds_raw_mode },
            KeyboardQueryEvent::ReplyRead(None),
            Ok(None),
        ),
        query_ends_with(
            KeyboardQuery { stage: KeyboardQueryStage::Polling, raw_at_start, holds_raw_mode },
            KeyboardQueryEvent::Polled(ReplyPoll::TimedOut),
            Err(KeyboardQueryFailure::TimedOut),
        ),
        query_ends_with(
            KeyboardQuery { stage: KeyboardQueryStage::WritingToStdout, raw_at_start, holds_raw_mode },
            KeyboardQueryEvent::StdoutWritten(false),
            Err(KeyboardQueryFailure::WriteQuery),
        ),
        keyboard_query_next(
            KeyboardQuery { stage: KeyboardQueryStage::Reading, raw_at_start, holds_raw_mode },
            KeyboardQueryEvent::ReplyRead(Some(flags)),
        ).1 == KeyboardQueryAction::DrainDeviceAttributes,
{
}

/// The way to an answer: raw mode switched on leads to writing the query
/// to the tty, and a failure to switch it on ends the query with that
/// failure; a failed write to the tty falls back to stdout; a written query
/// is polled for; a failed poll is retried with nothing else changed; a
/// ready answer is read.
pub proof fn lemma_keyboard_query_path(raw_at_start: bool, holds_raw_mode: bool)
    ensures
        keyboard_query_next(
            KeyboardQuery { stage: KeyboardQueryStage::EnablingRawMode, raw_at_start, holds_raw_mode },
            KeyboardQueryEvent::RawModeEnabled(true),
        ).1 == KeyboardQueryAction::WriteQueryToTty,
        keyboard_query_next(
            KeyboardQuery { stage: KeyboardQueryStage::EnablingRawMode, raw_at_start, holds_raw_mode },
            KeyboardQueryEvent::RawModeEnabled(false),
        ).1 == KeyboardQueryAction::Finish(Err(KeyboardQueryFailure::EnableRawMode)),
        keyboard_query_next(
            KeyboardQuery { stage: KeyboardQueryStage::WritingToTty, raw_at_start, holds_raw_mode },
            KeyboardQueryEvent::TtyWritten(true),
        ).1 == KeyboardQueryAction::Poll,
        keyboard_query_next(
            KeyboardQuery { stage: KeyboardQueryStage::WritingToTty, raw_at_start, holds_raw_mode },
            KeyboardQueryEvent::TtyWritten(false),
        ).1 == KeyboardQueryAction::WriteQueryToStdout,
        keyboard_query_next(
            KeyboardQuery { stage: KeyboardQueryStage::WritingToStdout, raw_at_start, holds_raw_mode },
            KeyboardQueryEvent::StdoutWritten(true),
        ).1 == KeyboardQueryAction::Poll,
        keyboard_query_next(
            KeyboardQuery { stage: KeyboardQueryStage::Polling, raw_at_start, holds_raw_mode },
            KeyboardQueryEvent::Polled(ReplyPoll::Failed),
        ) == (
            KeyboardQuery { stage: KeyboardQueryStage::Polling, raw_at_start, holds_raw_mode },
            KeyboardQueryAction::Poll,
        ),
        keyboard_query_next(
            KeyboardQuery { stage: KeyboardQueryStage::Polling, raw_at_start, holds_raw_mode },
            KeyboardQueryEvent::Polled(ReplyPoll::Ready),
        ).1 == KeyboardQueryAction::Read,
{
}

/// Whether the terminal supports progressive keyboard enhancement: it does
/// exactly when the query found flags.
pub fn supports_keyboard_enhancement<E>(flags: Result<Option<KeyboardEnhancementFlags>, E>) -> (r: Result<bool, E>)
    ensures
        match flags {
            Ok(f) => r == Ok::<bool, E>(f is Some),
            Err(e) => r == Err::<bool, E>(e),
        },
{
    match flags {
        Ok(f) => Ok(f.is_some()),
        Err(e) => Err(e),
    }
}

} // verus!
