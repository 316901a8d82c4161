//! The terminal's size: the window size that the kernel reports, and the
//! fallback on `tput cols` / `tput lines` when it reports none.
use vstd::prelude::*;

verus! {

/// The terminal's size in cells and in pixels.
#[derive(Debug, Clone, Copy, PartialEq, Eq, Structural)]
pub struct WindowSize {
    pub rows: u16,
    pub columns: u16,
    pub width: u16,
    pub height: u16,
}

impl WindowSize {
    /// The size from the kernel's `winsize` fields.
    pub fn from_winsize(ws_row: u16, ws_col: u16, ws_xpixel: u16, ws_ypixel: u16) -> (r: Self)
        ensures
            r == (WindowSize { rows: ws_row, columns: ws_col, width: ws_xpixel, height: ws_ypixel }),
    {
        WindowSize { rows: ws_row, columns: ws_col, width: ws_xpixel, height: ws_ypixel }
    }
}

/// A system call reported failure; the caller fetches the OS error.
#[derive(Debug, Clone, Copy, PartialEq, Eq, Structural)]
pub struct SyscallFailed;

/// A C-style return value as a result: `-1` is failure, anything else success.
pub fn wrap_with_result(result: i32) -> (r: Result<(), SyscallFailed>)
    ensures
        r is Err <==> result == -1,
{
    if result == -1 {
        Err(SyscallFailed)
    } else {
        Ok(())
    }
}

/// Whether a byte is an ASCII decimal digit.
pub open spec fn is_digit_byte(b: u8) -> bool {
    0x30 <= b <= 0x39
}

/// The number that the decimal digits of `s` spell, in order, with every
/// other byte skipped.
pub open spec fn digits_value(s: Seq<u8>) -> int
    decreases s.len(),
{
    if s.len() == 0 {
        0
    } else if is_digit_byte(s.last()) {
        digits_value(s.drop_last()) * 10 + (s.last() - 0x30)
    } else {
        digits_value(s.drop_last())
    }
}

proof fn lemma_digits_value_nonneg(s: Seq<u8>)
    ensures
        digits_value(s) >= 0,
    decreases s.len(),
{
    if s.len() > 0 {
        lemma_digits_value_nonneg(s.drop_last());
    }
}

/// A prefix spells no larger a number than the whole.
pub(crate) proof fn lemma_digits_value_prefix(s: Seq<u8>, i: int)
    requires
        0 <= i <= s.len(),
    ensures
        digits_value(s.take(i)) <= digits_value(s),
    decreases s.len() - i,
{
    if i < s.len() {
        lemma_digits_value_prefix(s, i + 1);
        assert(s.take(i + 1).drop_last() == s.take(i));
        lemma_digits_value_nonneg(s.take(i));
    } else {
        assert(s.take(i) == s);
    }
}

/// The number in `tput`'s output, parsed as a `u16`: its decimal digits
/// read in order, every other byte skipped; `None` when that number is 0 or
/// does not fit in a `u16`.
pub fn tput_value(output: &[u8]) -> (r: Option<u16>)
    ensures
        r is Some <==> 0 < digits_value(output@) <= u16::MAX,
        r matches Some(v) ==> v == digits_value(output@),
{
    let mut v: u32 = 0;
    let mut i: usize = 0;
    while i < output.len()
        invariant
            0 <= i <= output.len(),
            v == digits_value(output@.take(i as int)),
            v <= u16::MAX,
        decreases output.len() - i,
    {
        assert(output@.take(i + 1).drop_last() == output@.take(i as int));
        let b = output[i];
        if 0x30 <= b && b <= 0x39 {
            v = v * 10 + (b - 0x30) as u32;
            if v > 0xFFFF {
                proof {
                    lemma_digits_value_prefix(output@, i + 1);
                }
                return None;
            }
        }
        i = i + 1;
    }
    assert(output@.take(output@.len() as int) == output@);
    if v > 0 {
        Some(v as u16)
    } else {
        None
    }
}

/// The size as `tput` gives it: both columns and lines, or nothing.
pub fn tput_size(cols: Option<u16>, lines: Option<u16>) -> (r: Option<(u16, u16)>)
    ensures
        r == (match (cols, lines) {
            (Some(w), Some(h)) => Some((w, h)),
            _ => None::<(u16, u16)>,
        }),
{
    match (cols, lines) {
        (Some(w), Some(h)) => Some((w, h)),
        _ => None,
    }
}

/// The terminal's size as (columns, rows): from the window size when the
/// kernel reported one, else from `tput`, else none. The caller asks `tput`
/// only when there is no window size.
pub fn size(window: Option<WindowSize>, tput: Option<(u16, u16)>) -> (r: Option<(u16, u16)>)
    ensures
        window matches Some(w) ==> r == Some((w.columns, w.rows)),
        window is None ==> r == tput,
{
    match window {
        Some(w) => Some((w.columns, w.rows)),
        None => tput,
    }
}

} // verus!
