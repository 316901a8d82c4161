//! Tmux passthrough: escaping and framing of sequences that tmux must hand
//! on to the client terminal untouched.
use vstd::prelude::*;
use vstd::utf8::*;

verus! {

/// The escape character, which tmux expects doubled inside a passthrough.
pub const ESC: char = '\x1B';

/// The byte that encodes `ESC`.
pub const ESC_BYTE: u8 = 0x1Bu8;

/// `ESC P tmux ;`: opens a tmux passthrough.
pub open spec fn tmux_begin_chars() -> Seq<char> {
    seq![ESC, 'P', 't', 'm', 'u', 'x', ';']
}

/// `ESC \`: closes a tmux passthrough.
pub open spec fn tmux_end_chars() -> Seq<char> {
    seq![ESC, '\\']
}

/// The bytes of `ESC P tmux ;`.
pub open spec fn tmux_begin_bytes() -> Seq<u8> {
    seq![0x1Bu8, 0x50u8, 0x74u8, 0x6Du8, 0x75u8, 0x78u8, 0x3Bu8]
}

/// The bytes of `ESC \`.
pub open spec fn tmux_end_bytes() -> Seq<u8> {
    seq![0x1Bu8, 0x5Cu8]
}

/// The payload of a passthrough with every `ESC` doubled.
pub open spec fn escape_for_tmux(s: Seq<char>) -> Seq<char>
    decreases s.len(),
{
    if s.len() == 0 {
        Seq::empty()
    } else {
        let rest = escape_for_tmux(s.drop_last());
        if s.last() == ESC {
            rest + seq![ESC, ESC]
        } else {
            rest.push(s.last())
        }
    }
}

/// The same escaping on bytes: every `0x1B` byte doubled.
pub open spec fn escape_bytes_for_tmux(b: Seq<u8>) -> Seq<u8>
    decreases b.len(),
{
    if b.len() == 0 {
        Seq::empty()
    } else {
        let rest = escape_bytes_for_tmux(b.drop_last());
        if b.last() == ESC_BYTE {
            rest + seq![ESC_BYTE, ESC_BYTE]
        } else {
            rest.push(b.last())
        }
    }
}

/// What tmux recovers from an escaped payload: each doubled `ESC` becomes one.
pub open spec fn unescape_for_tmux(s: Seq<char>) -> Seq<char>
    decreases s.len(),
{
    if s.len() >= 2 && s[0] == ESC && s[1] == ESC {
        seq![ESC] + unescape_for_tmux(s.subrange(2, s.len() as int))
    } else if s.len() >= 1 {
        seq![s[0]] + unescape_for_tmux(s.drop_first())
    } else {
        Seq::empty()
    }
}

/// The error of [`tmux_passthrough`]: the buffer is not valid UTF-8.
#[derive(Debug, Clone, Copy, PartialEq, Eq)]
pub struct InvalidUtf8;

/// Appends one character to a string (std's `String::push`).
#[verifier::external_body]
pub(crate) fn push_char(s: &mut String, c: char)
    ensures
        final(s)@ == old(s)@.push(c),
{
    s.push(c);
}

/// Decodes bytes as UTF-8 (std's `String::from_utf8`). Claimed: a string comes
/// back exactly when the bytes are valid UTF-8, and it holds the characters
/// they encode.
#[verifier::external_body]
fn string_from_utf8(bytes: &[u8]) -> (r: Option<String>)
    ensures
        r is Some <==> valid_utf8(bytes@),
        r matches Some(s) ==> s@ == decode_utf8(bytes@),
{
    String::from_utf8(bytes.to_vec()).ok()
}

fn tmux_begin() -> (s: &'static str)
    ensures
        s@ == tmux_begin_chars(),
{
    let s = "\x1BPtmux;";
    proof {
        reveal_strlit("\x1BPtmux;");
    }
    s
}

fn tmux_end() -> (s: &'static str)
    ensures
        s@ == tmux_end_chars(),
{
    let s = "\x1B\\";
    proof {
        reveal_strlit("\x1B\\");
    }
    s
}

fn _tmux_escape(buffer: &str, begin: &str, end: &str) -> (out: String)
    ensures
        out@ == begin@ + escape_for_tmux(buffer@) + end@,
{
    let mut out = begin.to_owned();
    for ch in it: buffer.chars()
        invariant
            it.seq() == buffer@,
            out@ == begin@ + escape_for_tmux(buffer@.take(it.index() as int)),
    {
        assert(buffer@.take(it.index() + 1).drop_last() == buffer@.take(it.index() as int));
        if ch == ESC {
            push_char(&mut out, ESC);
        }
        push_char(&mut out, ch);
    }
    assert(buffer@.take(buffer@.len() as int) == buffer@);
    out.append(end);
    out
}

/// Escapes an ANSI sequence for tmux passthrough: every `ESC` is doubled.
pub fn tmux_escape(buffer: &str) -> (out: String)
    ensures
        out@ == escape_for_tmux(buffer@),
{
    let out = _tmux_escape(buffer, "", "");
    proof {
        reveal_strlit("");
        assert(out@ == escape_for_tmux(buffer@));
    }
    out
}

/// Frames a byte sequence for tmux passthrough: `ESC P tmux ;`, the payload
/// with every `ESC` doubled, `ESC \`. Fails when the buffer is not UTF-8.
pub fn tmux_passthrough(buffer: &[u8]) -> (r: Result<Vec<u8>, InvalidUtf8>)
    ensures
        r is Ok <==> valid_utf8(buffer@),
        r matches Ok(out) ==> out@ == encode_utf8(
            tmux_begin_chars() + escape_for_tmux(decode_utf8(buffer@)) + tmux_end_chars(),
        ),
        r matches Ok(out) ==> out@ == tmux_begin_bytes() + escape_bytes_for_tmux(buffer@)
            + tmux_end_bytes(),
{
    match string_from_utf8(buffer) {
        None => Err(InvalidUtf8),
        Some(s) => {
            let framed = _tmux_escape(s.as_str(), tmux_begin(), tmux_end());
            let out = vstd::slice::slice_to_vec(framed.as_str().as_bytes());
            proof {
                lemma_passthrough_bytes(buffer@);
            }
            Ok(out)
        },
    }
}

/// Which of the two writers [`MaybeTmux::new`] selected.
#[derive(Debug, Clone, Copy, PartialEq, Eq, Structural)]
pub enum TmuxWriter {
    /// Outside tmux: the plain writer.
    Direct,
    /// Inside tmux: the writer that wraps every sequence in a passthrough.
    Tmux,
}

/// A writer chosen once, by whether the program runs inside tmux.
pub struct MaybeTmux {
    pub write: TmuxWriter,
}

impl MaybeTmux {
    /// Selects the tmux writer inside a tmux session and the plain one otherwise.
    pub fn new(inside_tmux: bool) -> (r: Self)
        ensures
            r.write == (if inside_tmux {
                TmuxWriter::Tmux
            } else {
                TmuxWriter::Direct
            }),
    {
        MaybeTmux { write: if inside_tmux {
            TmuxWriter::Tmux
        } else {
            TmuxWriter::Direct
        } }
    }

    /// The plain writer is a stub: it emits nothing.
    fn _write(sequence: &str) -> (out: Vec<u8>)
        ensures
            out@ == Seq::<u8>::empty(),
    {
        Vec::new()
    }

    /// The tmux writer emits the sequence framed for passthrough.
    fn _write_tmux(sequence: &str) -> (out: Vec<u8>)
        ensures
            out@ == encode_utf8(tmux_begin_chars() + escape_for_tmux(sequence@) + tmux_end_chars()),
    {
        proof {
            encode_utf8_valid_utf8(sequence@);
            encode_utf8_decode_utf8(sequence@);
        }
        match tmux_passthrough(sequence.as_bytes()) {
            Ok(out) => out,
            Err(_) => Vec::new(),
        }
    }

    /// The bytes that the selected writer emits for `sequence`.
    pub fn write(&self, sequence: &str) -> (out: Vec<u8>)
        ensures
            self.write == TmuxWriter::Direct ==> out@ == Seq::<u8>::empty(),
            self.write == TmuxWriter::Tmux ==> out@ == encode_utf8(
                tmux_begin_chars() + escape_for_tmux(sequence@) + tmux_end_chars(),
            ),
    {
        match self.write {
            TmuxWriter::Direct => Self::_write(sequence),
            TmuxWriter::Tmux => Self::_write_tmux(sequence),
        }
    }
}

/// The tmux extended-keys modes.
#[derive(Copy, Clone, Debug, PartialEq, Eq, Ord, PartialOrd, Hash, Structural)]
pub enum TmuxMode {
    /// Withdraw extended-keys support.
    Standard,
    /// Changes the sequence for only keys which lack an existing well-known representation.
    Mode1,
    /// Changes the sequence for all keys.
    Mode2,
}

/// The digit that selects a mode in `CSI > 4 ; n m`.
pub open spec fn tmux_mode_digit(mode: TmuxMode) -> char {
    match mode {
        TmuxMode::Standard => '0',
        TmuxMode::Mode1 => '1',
        TmuxMode::Mode2 => '2',
    }
}

/// `CSI > 4 ; n m`: the request for an extended-keys mode.
pub open spec fn extended_keys_chars(mode: TmuxMode) -> Seq<char> {
    seq![ESC, '[', '>', '4', ';', tmux_mode_digit(mode), 'm']
}

/// The command that asks tmux to begin a passthrough to the client terminal.
#[derive(Debug, Clone, Copy, PartialEq, Eq)]
pub struct TmuxBeginPassthrough;

impl TmuxBeginPassthrough {
    /// Appends `ESC P tmux ;`.
    pub fn write_ansi(&self, f: &mut String)
        ensures
            final(f)@ == old(f)@ + tmux_begin_chars(),
    {
        f.append(tmux_begin());
    }
}

/// The command that asks tmux to end a passthrough to the client terminal.
#[derive(Debug, Clone, Copy, PartialEq, Eq)]
pub struct TmuxEndPassthrough;

impl TmuxEndPassthrough {
    /// Appends `ESC \`.
    pub fn write_ansi(&self, f: &mut String)
        ensures
            final(f)@ == old(f)@ + tmux_end_chars(),
    {
        f.append(tmux_end());
    }
}

/// The command that requests a tmux extended-keys mode.
#[derive(Debug, Clone, Copy, PartialEq, Eq)]
pub struct TmuxSetExtendedKeysMode(pub TmuxMode);

impl TmuxSetExtendedKeysMode {
    /// Appends `CSI > 4 ; n m` for the mode.
    pub fn write_ansi(&self, f: &mut String)
        ensures
            final(f)@ == old(f)@ + extended_keys_chars(self.0),
    {
        match self.0 {
            TmuxMode::Standard => {
                let s = "\x1B[>4;0m";
                proof {
                    reveal_strlit("\x1B[>4;0m");
                }
                f.append(s);
            },
            TmuxMode::Mode1 => {
                let s = "\x1B[>4;1m";
                proof {
                    reveal_strlit("\x1B[>4;1m");
                }
                f.append(s);
            },
            TmuxMode::Mode2 => {
                let s = "\x1B[>4;2m";
                proof {
                    reveal_strlit("\x1B[>4;2m");
                }
                f.append(s);
            },
        }
    }
}

// ---------------------------------------------------------------------------
// Lemmas on the encodings
// ---------------------------------------------------------------------------

proof fn lemma_encode_utf8_concat(a: Seq<char>, b: Seq<char>)
    ensures
        encode_utf8(a + b) == encode_utf8(a) + encode_utf8(b),
    decreases a.len(),
{
    if a.len() == 0 {
        assert(a + b == b);
    } else {
        assert((a + b).drop_first() == a.drop_first() + b);
        lemma_encode_utf8_concat(a.drop_first(), b);
    }
}

proof fn lemma_escape_bytes_concat(a: Seq<u8>, b: Seq<u8>)
    ensures
        escape_bytes_for_tmux(a + b) == escape_bytes_for_tmux(a) + escape_bytes_for_tmux(b),
    decreases b.len(),
{
    if b.len() == 0 {
        assert(a + b == a);
    } else {
        assert((a + b).drop_last() == a + b.drop_last());
        lemma_escape_bytes_concat(a, b.drop_last());
    }
}

proof fn lemma_escape_bytes_identity(b: Seq<u8>)
    requires
        forall|i: int| 0 <= i < b.len() ==> b[i] != ESC_BYTE,
    ensures
        escape_bytes_for_tmux(b) == b,
    decreases b.len(),
{
    if b.len() > 0 {
        lemma_escape_bytes_identity(b.drop_last());
    }
}

/// Only `ESC` itself encodes to a byte `0x1B`.
proof fn lemma_encode_char_escape(c: char)
    ensures
        c == ESC ==> encode_scalar(c as u32) == seq![ESC_BYTE],
        c != ESC ==> escape_bytes_for_tmux(encode_scalar(c as u32)) == encode_scalar(c as u32),
{
    let s = c as u32;
    assert(is_scalar(s));
    if c == ESC {
        assert(s == 0x1B);
        assert(leading_byte_width_1(0x1Bu32) == 0x1Bu8) by (bit_vector);
    } else {
        assert(s != 0x1B);
        let b = encode_scalar(s);
        if has_width_1_encoding(s) {
            assert(leading_byte_width_1(s) != 0x1Bu8) by (bit_vector)
                requires
                    s <= 0x7F,
                    s != 0x1B,
            ;
        } else {
            assert(leading_byte_width_2(s) != 0x1Bu8) by (bit_vector);
            assert(leading_byte_width_3(s) != 0x1Bu8) by (bit_vector);
            assert(leading_byte_width_4(s) != 0x1Bu8) by (bit_vector);
            assert(last_continuation_byte(s) != 0x1Bu8) by (bit_vector);
            assert(second_last_continuation_byte(s) != 0x1Bu8) by (bit_vector);
            assert(third_last_continuation_byte(s) != 0x1Bu8) by (bit_vector);
        }
        lemma_escape_bytes_identity(b);
    }
}

/// Escaping commutes with UTF-8 encoding.
proof fn lemma_encode_escape(c: Seq<char>)
    ensures
        encode_utf8(escape_for_tmux(c)) == escape_bytes_for_tmux(encode_utf8(c)),
    decreases c.len(),
{
    if c.len() > 0 {
        let init = c.drop_last();
        let x = c.last();
        assert(c == init + seq![x]);
        lemma_encode_escape(init);
        lemma_encode_utf8_concat(init, seq![x]);
        assert(seq![x].drop_first() == Seq::<char>::empty());
        assert(encode_utf8(seq![x]) == encode_scalar(x as u32) + encode_utf8(Seq::<char>::empty()));
        assert(encode_utf8(seq![x]) == encode_scalar(x as u32));
        lemma_escape_bytes_concat(encode_utf8(init), encode_scalar(x as u32));
        lemma_encode_char_escape(x);
        if x == ESC {
            lemma_encode_utf8_concat(escape_for_tmux(init), seq![ESC, ESC]);
            assert(seq![ESC, ESC].drop_first() == seq![ESC]);
            assert(seq![ESC].drop_first() == Seq::<char>::empty());
            assert(encode_utf8(seq![ESC, ESC]) == seq![ESC_BYTE, ESC_BYTE]);
            let e = seq![ESC_BYTE];
            assert(e.drop_last() == Seq::<u8>::empty());
            assert(e.last() == ESC_BYTE);
            assert(escape_bytes_for_tmux(Seq::<u8>::empty()) == Seq::<u8>::empty());
            assert(Seq::<u8>::empty() + seq![ESC_BYTE, ESC_BYTE] == seq![ESC_BYTE, ESC_BYTE]);
            assert(escape_bytes_for_tmux(e) == seq![ESC_BYTE, ESC_BYTE]);
        } else {
            assert(escape_for_tmux(c) == escape_for_tmux(init) + seq![x]);
            lemma_encode_utf8_concat(escape_for_tmux(init), seq![x]);
        }
    }
}

proof fn lemma_frame_encodings()
    ensures
        encode_utf8(tmux_begin_chars()) == tmux_begin_bytes(),
        encode_utf8(tmux_end_chars()) == tmux_end_bytes(),
{
    let b = tmux_begin_chars();
    let e = tmux_end_chars();
    assert(is_ascii_chars(b));
    assert(is_ascii_chars(e));
    is_ascii_chars_encode_utf8(b);
    is_ascii_chars_encode_utf8(e);
    assert(encode_utf8(b) == tmux_begin_bytes());
    assert(encode_utf8(e) == tmux_end_bytes());
}

proof fn lemma_passthrough_bytes(buffer: Seq<u8>)
    requires
        valid_utf8(buffer),
    ensures
        encode_utf8(tmux_begin_chars() + escape_for_tmux(decode_utf8(buffer)) + tmux_end_chars())
            == tmux_begin_bytes() + escape_bytes_for_tmux(buffer) + tmux_end_bytes(),
{
    let d = decode_utf8(buffer);
    decode_utf8_encode_utf8(buffer);
    lemma_encode_escape(d);
    lemma_encode_utf8_concat(tmux_begin_chars() + escape_for_tmux(d), tmux_end_chars());
    lemma_encode_utf8_concat(tmux_begin_chars(), escape_for_tmux(d));
    lemma_frame_encodings();
}

proof fn lemma_escape_concat(a: Seq<char>, b: Seq<char>)
    ensures
        escape_for_tmux(a + b) == escape_for_tmux(a) + escape_for_tmux(b),
    decreases b.len(),
{
    if b.len() == 0 {
        assert(a + b == a);
    } else {
        assert((a + b).drop_last() == a + b.drop_last());
        lemma_escape_concat(a, b.drop_last());
    }
}

proof fn lemma_unescape_prefix(head: Seq<char>, rest: Seq<char>)
    requires
        head == seq![ESC, ESC] || (head.len() == 1 && head[0] != ESC),
    ensures
        unescape_for_tmux(head + rest) == (if head.len() == 2 {
            seq![ESC]
        } else {
            head
        }) + unescape_for_tmux(rest),
{
    let s = head + rest;
    if head.len() == 2 {
        assert(s.subrange(2, s.len() as int) == rest);
    } else {
        assert(s.drop_first() == rest);
    }
}

/// Tmux recovers exactly the original sequence from an escaped payload:
/// undoing the doubled `ESC`s of [`tmux_escape`] gives back its input.
pub proof fn lemma_tmux_escape_recoverable(s: Seq<char>)
    ensures
        unescape_for_tmux(escape_for_tmux(s)) == s,
    decreases s.len(),
{
    if s.len() > 0 {
        let x = s[0];
        let rest = s.drop_first();
        assert(s == seq![x] + rest);
        lemma_escape_concat(seq![x], rest);
        assert(seq![x].drop_last() == Seq::<char>::empty());
        assert(escape_for_tmux(Seq::<char>::empty()) == Seq::<char>::empty());
        lemma_tmux_escape_recoverable(rest);
        if x == ESC {
            assert(escape_for_tmux(seq![x]) == seq![ESC, ESC]);
            lemma_unescape_prefix(seq![ESC, ESC], escape_for_tmux(rest));
        } else {
            assert(escape_for_tmux(seq![x]) == seq![x]);
            lemma_unescape_prefix(seq![x], escape_for_tmux(rest));
        }
    }
}

/// `t[i..j]` is a maximal run of `ESC`: all `ESC`, with no `ESC` just
/// before or just after it.
pub open spec fn is_maximal_esc_run(t: Seq<char>, i: int, j: int) -> bool {
    &&& 0 <= i < j <= t.len()
    &&& forall|k: int| i <= k < j ==> t[k] == ESC
    &&& (i == 0 || t[i - 1] != ESC)
    &&& (j == t.len() || t[j] != ESC)
}

/// The `ESC`s of `t` pair up from the left.
pub open spec fn esc_paired(t: Seq<char>) -> bool
    decreases t.len(),
{
    if t.len() == 0 {
        true
    } else if t[0] == ESC {
        t.len() >= 2 && t[1] == ESC && esc_paired(t.subrange(2, t.len() as int))
    } else {
        esc_paired(t.drop_first())
    }
}

proof fn lemma_esc_paired_escape(s: Seq<char>)
    ensures
        esc_paired(escape_for_tmux(s)),
    decreases s.len(),
{
    if s.len() > 0 {
        let x = s[0];
        let rest = s.drop_first();
        assert(s == seq![x] + rest);
        lemma_escape_concat(seq![x], rest);
        assert(seq![x].drop_last() == Seq::<char>::empty());
        assert(escape_for_tmux(Seq::<char>::empty()) == Seq::<char>::empty());
        lemma_esc_paired_escape(rest);
        let er = escape_for_tmux(rest);
        if x == ESC {
            let t = seq![ESC, ESC] + er;
            assert(escape_for_tmux(seq![x]) == seq![ESC, ESC]);
            assert(t.subrange(2, t.len() as int) == er);
        } else {
            let t = seq![x] + er;
            assert(escape_for_tmux(seq![x]) == seq![x]);
            assert(t.drop_first() == er);
        }
    }
}

proof fn lemma_paired_runs_even(t: Seq<char>, i: int, j: int)
    requires
        esc_paired(t),
        is_maximal_esc_run(t, i, j),
    ensures
        (j - i) % 2 == 0,
    decreases t.len(),
{
    if t[0] == ESC {
        let r = t.subrange(2, t.len() as int);
        if i == 0 {
            if j > 2 {
                assert(is_maximal_esc_run(r, 0, j - 2)) by {
                    assert forall|k: int| 0 <= k < j - 2 implies r[k] == ESC by {
                        assert(r[k] == t[k + 2]);
                    }
                    if j < t.len() {
                        assert(r[j - 2] == t[j]);
                    }
                }
                lemma_paired_runs_even(r, 0, j - 2);
            } else {
                assert(j == 2) by {
                    assert(t[1] == ESC);
                }
            }
        } else {
            assert(i >= 2) by {
                if i == 1 {
                    assert(t[i - 1] == ESC);
                }
            }
            assert(is_maximal_esc_run(r, i - 2, j - 2)) by {
                assert forall|k: int| i - 2 <= k < j - 2 implies r[k] == ESC by {
                    assert(r[k] == t[k + 2]);
                }
                if i > 2 {
                    assert(r[i - 3] == t[i - 1]);
                }
                if j < t.len() {
                    assert(r[j - 2] == t[j]);
                }
            }
            lemma_paired_runs_even(r, i - 2, j - 2);
        }
    } else {
        let r = t.drop_first();
        assert(i >= 1) by {
            if i == 0 {
                assert(t[0] == ESC);
            }
        }
        assert(is_maximal_esc_run(r, i - 1, j - 1)) by {
            assert forall|k: int| i - 1 <= k < j - 1 implies r[k] == ESC by {
                assert(r[k] == t[k + 1]);
            }
            if i > 1 {
                assert(r[i - 2] == t[i - 1]);
            }
            if j < t.len() {
                assert(r[j - 1] == t[j]);
            }
        }
        lemma_paired_runs_even(r, i - 1, j - 1);
    }
}

/// In an escaped payload every maximal run of `ESC` has even length, so no
/// `ESC` of the payload stands alone to end the passthrough early.
pub proof fn lemma_tmux_escape_esc_runs_even(s: Seq<char>)
    ensures
        forall|i: int, j: int| #[trigger] is_maximal_esc_run(escape_for_tmux(s), i, j) ==> (j - i) % 2
            == 0,
{
    lemma_esc_paired_escape(s);
    assert forall|i: int, j: int| #[trigger] is_maximal_esc_run(escape_for_tmux(s), i, j) implies (j
        - i) % 2 == 0 by {
        lemma_paired_runs_even(escape_for_tmux(s), i, j);
    }
}

/// Every ASCII byte sequence is valid UTF-8, so [`tmux_passthrough`] never
/// fails on an ASCII query.
pub proof fn lemma_passthrough_accepts_ascii(buffer: Seq<u8>)
    requires
        forall|i: int| 0 <= i < buffer.len() ==> buffer[i] < 0x80,
    ensures
        valid_utf8(buffer),
    decreases buffer.len(),
{
    if buffer.len() > 0 {
        let b = buffer[0];
        assert(codepoint_width_1(b) < 0x80) by (bit_vector)
            requires
                b < 0x80,
        ;
        let rest = pop_first_scalar(buffer);
        assert(rest == buffer.drop_first());
        lemma_passthrough_accepts_ascii(rest);
    }
}

} // verus!
