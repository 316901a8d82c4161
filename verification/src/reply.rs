//! Recognition of the terminal's replies to the capability queries in the
//! bytes read from the terminal: the keyboard enhancement flags
//! (`CSI ? flags u`), the primary device attributes (`CSI ? ... c`) and a
//! kitty graphics status (`ESC _ G ... ; OK ESC \`).
use vstd::prelude::*;
use crate::keyboard::KeyboardEnhancementFlags;
use crate::size::{digits_value, is_digit_byte, lemma_digits_value_prefix};

verus! {

/// A reply to one of the capability queries.
#[derive(Debug, Clone, Copy, PartialEq, Eq, Structural)]
pub enum Reply {
    /// `CSI ? flags u`: the keyboard enhancement flags in force.
    KeyboardFlags(KeyboardEnhancementFlags),
    /// `CSI ? ... c`: the primary device attributes.
    DeviceAttributes,
    /// `ESC _ G ... ESC \`: a kitty graphics status, `true` for `OK`.
    KittyGraphics(bool),
}

/// What the start of the bytes read holds.
#[derive(Debug, Clone, Copy, PartialEq, Eq, Structural)]
pub enum ReplyParse {
    /// A sequence has begun but not ended: more bytes are needed.
    Incomplete,
    /// A reply, and the number of bytes it takes.
    Reply(Reply, usize),
    /// Bytes that are no reply (input, other sequences), and how many.
    Skip(usize),
}

/// The replies that a reader waits for.
#[derive(Debug, Clone, Copy, PartialEq, Eq, Structural)]
pub enum ReplyFilter {
    /// The answer to the keyboard query: the flags, or the device
    /// attributes that a terminal without the protocol sends alone.
    KeyboardEnhancementFlags,
    /// The device attributes alone.
    PrimaryDeviceAttributes,
    /// A kitty graphics status.
    KittyGraphics,
}

pub open spec fn filter_accepts(f: ReplyFilter, r: Reply) -> bool {
    match f {
        ReplyFilter::KeyboardEnhancementFlags => r is KeyboardFlags || r is DeviceAttributes,
        ReplyFilter::PrimaryDeviceAttributes => r is DeviceAttributes,
        ReplyFilter::KittyGraphics => r is KittyGraphics,
    }
}

impl ReplyFilter {
    /// Whether the filter lets the reply through.
    pub fn accepts(&self, r: &Reply) -> (b: bool)
        ensures
            b == filter_accepts(*self, *r),
    {
        match self {
            ReplyFilter::KeyboardEnhancementFlags => match r {
                Reply::KeyboardFlags(_) => true,
                Reply::DeviceAttributes => true,
                Reply::KittyGraphics(_) => false,
            },
            ReplyFilter::PrimaryDeviceAttributes => match r {
                Reply::DeviceAttributes => true,
                _ => false,
            },
            ReplyFilter::KittyGraphics => match r {
                Reply::KittyGraphics(_) => true,
                _ => false,
            },
        }
    }
}

/// The flags that a reply reports, if it is the keyboard flags reply.
pub fn reply_flags(r: Reply) -> (f: Option<KeyboardEnhancementFlags>)
    ensures
        f == (match r {
            Reply::KeyboardFlags(flags) => Some(flags),
            _ => None::<KeyboardEnhancementFlags>,
        }),
{
    match r {
        Reply::KeyboardFlags(flags) => Some(flags),
        _ => None,
    }
}

/// The status that a reply reports, if it is a kitty graphics reply.
pub fn reply_kitty_status(r: Reply) -> (s: Option<bool>)
    ensures
        s == (match r {
            Reply::KittyGraphics(ok) => Some(ok),
            _ => None::<bool>,
        }),
{
    match r {
        Reply::KittyGraphics(ok) => Some(ok),
        _ => None,
    }
}

pub open spec fn is_param_or_intermediate(b: u8) -> bool {
    0x20 <= b <= 0x3F
}

/// The index of the final byte of a control sequence whose parameters start
/// at `i`: the first byte from `i` on that is no parameter or intermediate byte.
pub open spec fn csi_final_from(buf: Seq<u8>, i: int) -> Option<int>
    decreases buf.len() - i,
{
    if i < 0 || i >= buf.len() {
        None
    } else if !is_param_or_intermediate(buf[i]) {
        Some(i)
    } else {
        csi_final_from(buf, i + 1)
    }
}

/// The index of the first string terminator `ESC \` at or after `i`.
pub open spec fn st_from(buf: Seq<u8>, i: int) -> Option<int>
    decreases buf.len() - i,
{
    if i < 0 || i + 1 >= buf.len() {
        None
    } else if buf[i] == 0x1B && buf[i + 1] == 0x5C {
        Some(i)
    } else {
        st_from(buf, i + 1)
    }
}

/// The index of the first `;` at or after `i`.
pub open spec fn semicolon_from(buf: Seq<u8>, i: int) -> Option<int>
    decreases buf.len() - i,
{
    if i < 0 || i >= buf.len() {
        None
    } else if buf[i] == 0x3B {
        Some(i)
    } else {
        semicolon_from(buf, i + 1)
    }
}

/// Whether a kitty graphics reply's payload reports success: the message
/// after its first `;` is exactly `OK`.
pub open spec fn kitty_status_ok(payload: Seq<u8>) -> bool {
    match semicolon_from(payload, 0) {
        Some(p) => payload.subrange(p + 1, payload.len() as int) == seq![0x4Fu8, 0x4Bu8],
        None => false,
    }
}

pub open spec fn all_digits(s: Seq<u8>) -> bool {
    forall|i: int| 0 <= i < s.len() ==> is_digit_byte(#[trigger] s[i])
}

/// What a complete control sequence `ESC [ params final` is.
pub open spec fn classify_csi(params: Seq<u8>, final_byte: u8, len: int) -> ReplyParse {
    if final_byte == 0x75 && params.len() >= 2 && params[0] == 0x3F && all_digits(params.drop_first())
        && digits_value(params.drop_first()) <= 255 {
        ReplyParse::Reply(
            Reply::KeyboardFlags(
                KeyboardEnhancementFlags { bits: (digits_value(params.drop_first()) as u8) & 0x0F },
            ),
            len as usize,
        )
    } else if final_byte == 0x63 && params.len() >= 1 && params[0] == 0x3F {
        ReplyParse::Reply(Reply::DeviceAttributes, len as usize)
    } else {
        ReplyParse::Skip(len as usize)
    }
}

/// What the start of `buf` holds.
pub open spec fn parse_reply_spec(buf: Seq<u8>) -> ReplyParse {
    if buf.len() == 0 {
        ReplyParse::Incomplete
    } else if buf[0] != 0x1B {
        ReplyParse::Skip(1)
    } else if buf.len() == 1 {
        ReplyParse::Incomplete
    } else if buf[1] == 0x5B {
        match csi_final_from(buf, 2) {
            None => ReplyParse::Incomplete,
            Some(k) => classify_csi(buf.subrange(2, k), buf[k], k + 1),
        }
    } else if buf[1] == 0x5F {
        match st_from(buf, 2) {
            None => ReplyParse::Incomplete,
            Some(k) => if k >= 3 && buf[2] == 0x47 {
                ReplyParse::Reply(Reply::KittyGraphics(kitty_status_ok(buf.subrange(3, k))), (k + 2) as usize)
            } else {
                ReplyParse::Skip((k + 2) as usize)
            },
        }
    } else {
        ReplyParse::Skip(1)
    }
}

fn find_csi_final(buf: &[u8]) -> (r: Option<usize>)
    requires
        buf@.len() >= 2,
    ensures
        r matches Some(k) ==> csi_final_from(buf@, 2) == Some(k as int) && 2 <= k < buf@.len(),
        r is None ==> csi_final_from(buf@, 2) is None,
{
    let mut i: usize = 2;
    while i < buf.len()
        invariant
            2 <= i <= buf.len(),
            csi_final_from(buf@, 2) == csi_final_from(buf@, i as int),
        decreases buf.len() - i,
    {
        let b = buf[i];
        if !(0x20 <= b && b <= 0x3F) {
            return Some(i);
        }
        i = i + 1;
    }
    None
}

fn find_st(buf: &[u8]) -> (r: Option<usize>)
    requires
        buf@.len() >= 2,
    ensures
        r matches Some(k) ==> st_from(buf@, 2) == Some(k as int) && k + 1 < buf@.len(),
        r is None ==> st_from(buf@, 2) is None,
{
    let mut i: usize = 2;
    while i < buf.len() - 1
        invariant
            2 <= i <= buf.len(),
            st_from(buf@, 2) == st_from(buf@, i as int),
        decreases buf.len() - i,
    {
        if buf[i] == 0x1B && buf[i + 1] == 0x5C {
            return Some(i);
        }
        i = i + 1;
    }
    None
}

/// `kitty_status_ok` of `buf[start..end]`.
fn status_ok(buf: &[u8], start: usize, end: usize) -> (r: bool)
    requires
        start <= end <= buf@.len(),
    ensures
        r == kitty_status_ok(buf@.subrange(start as int, end as int)),
{
    let ghost payload = buf@.subrange(start as int, end as int);
    let mut i: usize = start;
    while i < end
        invariant
            start <= i <= end <= buf@.len(),
            payload == buf@.subrange(start as int, end as int),
            semicolon_from(payload, 0) == semicolon_from(payload, i - start),
        decreases end - i,
    {
        if buf[i] == 0x3B {
            assert(payload.subrange(i - start + 1, payload.len() as int) == buf@.subrange(
                i + 1,
                end as int,
            ));
            let ok = end - i == 3 && buf[i + 1] == 0x4F && buf[i + 2] == 0x4B;
            proof {
                let rest = buf@.subrange(i + 1, end as int);
                if ok {
                    assert(rest == seq![0x4Fu8, 0x4Bu8]);
                } else if rest.len() == 2 {
                    assert(rest[0] == buf@[i + 1]);
                    assert(rest[1] == buf@[i + 2]);
                }
            }
            return ok;
        }
        i = i + 1;
    }
    false
}

/// Decodes `buf[start..end]` as digits, when all of them are digits and
/// they spell at most 255.
fn small_decimal(buf: &[u8], start: usize, end: usize) -> (r: Option<u8>)
    requires
        start <= end <= buf@.len(),
    ensures
        ({
            let s = buf@.subrange(start as int, end as int);
            &&& r is Some <==> (all_digits(s) && digits_value(s) <= 255)
            &&& r matches Some(v) ==> v == digits_value(s)
        }),
{
    let ghost s = buf@.subrange(start as int, end as int);
    let mut v: u32 = 0;
    let mut i: usize = start;
    while i < end
        invariant
            start <= i <= end <= buf@.len(),
            s == buf@.subrange(start as int, end as int),
            all_digits(s.take(i - start)),
            v == digits_value(s.take(i - start)),
            v <= 255,
        decreases end - i,
    {
        let b = buf[i];
        assert(s.take(i - start + 1).drop_last() == s.take(i - start));
        assert(s[i - start] == b);
        if !(0x30 <= b && b <= 0x39) {
            return None;
        }
        v = v * 10 + (b - 0x30) as u32;
        if v > 255 {
            proof {
                lemma_digits_value_prefix(s, i - start + 1);
            }
            return None;
        }
        assert(all_digits(s.take(i - start + 1))) by {
            assert forall|j: int| 0 <= j < s.take(i - start + 1).len() implies is_digit_byte(
                #[trigger] s.take(i - start + 1)[j],
            ) by {
                if j < i - start {
                    assert(s.take(i - start)[j] == s.take(i - start + 1)[j]);
                }
            }
        }
        i = i + 1;
    }
    assert(s.take(s.len() as int) == s);
    Some(v as u8)
}

/// Recognises what the start of the bytes read from the terminal holds.
pub fn parse_reply(buf: &[u8]) -> (r: ReplyParse)
    ensures
        r == parse_reply_spec(buf@),
{
    if buf.len() == 0 {
        return ReplyParse::Incomplete;
    }
    if buf[0] != 0x1B {
        return ReplyParse::Skip(1);
    }
    if buf.len() == 1 {
        return ReplyParse::Incomplete;
    }
    if buf[1] == 0x5B {
        match find_csi_final(buf) {
            None => ReplyParse::Incomplete,
            Some(k) => {
                let ghost params = buf@.subrange(2, k as int);
                let fin = buf[k];
                if fin == 0x75 && k >= 4 && buf[2] == 0x3F {
                    assert(params.drop_first() == buf@.subrange(3, k as int));
                    match small_decimal(buf, 3, k) {
                        Some(v) => {
                            return ReplyParse::Reply(
                                Reply::KeyboardFlags(KeyboardEnhancementFlags::from_bits_truncate(v)),
                                k + 1,
                            );
                        },
                        None => {
                            return ReplyParse::Skip(k + 1);
                        },
                    }
                }
                if fin == 0x63 && k >= 3 && buf[2] == 0x3F {
                    return ReplyParse::Reply(Reply::DeviceAttributes, k + 1);
                }
                ReplyParse::Skip(k + 1)
            },
        }
    } else if buf[1] == 0x5F {
        match find_st(buf) {
            None => ReplyParse::Incomplete,
            Some(k) => {
                if k >= 3 && buf[2] == 0x47 {
                    ReplyParse::Reply(Reply::KittyGraphics(status_ok(buf, 3, k)), k + 2)
                } else {
                    ReplyParse::Skip(k + 2)
                }
            },
        }
    } else {
        ReplyParse::Skip(1)
    }
}

proof fn lemma_csi_final_extend(buf: Seq<u8>, more: Seq<u8>, i: int)
    requires
        csi_final_from(buf, i) is Some,
    ensures
        csi_final_from(buf + more, i) == csi_final_from(buf, i),
    decreases buf.len() - i,
{
    if 0 <= i < buf.len() && is_param_or_intermediate(buf[i]) {
        lemma_csi_final_extend(buf, more, i + 1);
    }
}

proof fn lemma_csi_final_bounds(buf: Seq<u8>, i: int)
    ensures
        csi_final_from(buf, i) matches Some(k) ==> i <= k < buf.len(),
    decreases buf.len() - i,
{
    if 0 <= i < buf.len() && is_param_or_intermediate(buf[i]) {
        lemma_csi_final_bounds(buf, i + 1);
    }
}

proof fn lemma_st_extend(buf: Seq<u8>, more: Seq<u8>, i: int)
    requires
        st_from(buf, i) is Some,
    ensures
        st_from(buf + more, i) == st_from(buf, i),
    decreases buf.len() - i,
{
    if 0 <= i && i + 1 < buf.len() && !(buf[i] == 0x1B && buf[i + 1] == 0x5C) {
        lemma_st_extend(buf, more, i + 1);
    }
}

proof fn lemma_st_bounds(buf: Seq<u8>, i: int)
    ensures
        st_from(buf, i) matches Some(k) ==> i <= k && k + 1 < buf.len(),
    decreases buf.len() - i,
{
    if 0 <= i && i + 1 < buf.len() && !(buf[i] == 0x1B && buf[i + 1] == 0x5C) {
        lemma_st_bounds(buf, i + 1);
    }
}

/// Reading goes forward: whatever the parse finds other than an unfinished
/// sequence takes at least one byte of `buf` and no more than `buf` holds.
pub proof fn lemma_parse_reply_progress(buf: Seq<u8>)
    requires
        buf.len() <= usize::MAX,
    ensures
        match parse_reply_spec(buf) {
            ReplyParse::Incomplete => true,
            ReplyParse::Reply(_, n) => 1 <= n <= buf.len(),
            ReplyParse::Skip(n) => 1 <= n <= buf.len(),
        },
{
    lemma_csi_final_bounds(buf, 2);
    lemma_st_bounds(buf, 2);
}

/// A recognised reply does not depend on the bytes that come after it: once
/// the start of the bytes read is recognised, reading more does not change
/// what it is.
pub proof fn lemma_parse_reply_stable(buf: Seq<u8>, more: Seq<u8>)
    requires
        !(parse_reply_spec(buf) is Incomplete),
    ensures
        parse_reply_spec(buf + more) == parse_reply_spec(buf),
{
    let all = buf + more;
    if buf.len() >= 2 && buf[0] == 0x1B {
        assert(all[0] == buf[0] && all[1] == buf[1]);
        if buf[1] == 0x5B {
            lemma_csi_final_extend(buf, more, 2);
            lemma_csi_final_bounds(buf, 2);
            let k = csi_final_from(buf, 2)->0;
            assert(all.subrange(2, k) == buf.subrange(2, k));
            assert(all[k] == buf[k]);
        } else if buf[1] == 0x5F {
            lemma_st_extend(buf, more, 2);
            lemma_st_bounds(buf, 2);
            let k = st_from(buf, 2)->0;
            assert(all[2] == buf[2]);
            if k >= 3 {
                assert(all.subrange(3, k) == buf.subrange(3, k));
            }
        }
    } else if buf.len() >= 1 {
        assert(all[0] == buf[0]);
    }
}

proof fn lemma_csi_final_at(buf: Seq<u8>, i: int, k: int)
    requires
        0 <= i <= k < buf.len(),
        forall|j: int| i <= j < k ==> is_param_or_intermediate(#[trigger] buf[j]),
        !is_param_or_intermediate(buf[k]),
    ensures
        csi_final_from(buf, i) == Some(k),
    decreases k - i,
{
    if i < k {
        lemma_csi_final_at(buf, i + 1, k);
    }
}

proof fn lemma_st_at(buf: Seq<u8>, i: int, k: int)
    requires
        0 <= i <= k,
        k + 1 < buf.len(),
        forall|j: int| i <= j < k ==> #[trigger] buf[j] != 0x1B,
        buf[k] == 0x1B,
        buf[k + 1] == 0x5C,
    ensures
        st_from(buf, i) == Some(k),
    decreases k - i,
{
    if i < k {
        lemma_st_at(buf, i + 1, k);
    }
}

proof fn lemma_semicolon_at(buf: Seq<u8>, i: int, k: int)
    requires
        0 <= i <= k < buf.len(),
        forall|j: int| i <= j < k ==> #[trigger] buf[j] != 0x3B,
        buf[k] == 0x3B,
    ensures
        semicolon_from(buf, i) == Some(k),
    decreases k - i,
{
    if i < k {
        lemma_semicolon_at(buf, i + 1, k);
    }
}

/// Every kitty graphics reply `ESC _ G h ; msg ESC \`, with no `;` in `h`
/// and no `ESC` in either part, is recognised as a kitty graphics status
/// that is `OK` exactly when `msg` is `OK`, taking the whole reply.
pub proof fn lemma_parse_reply_recognises_kitty(h: Seq<u8>, msg: Seq<u8>)
    requires
        forall|i: int| 0 <= i < h.len() ==> #[trigger] h[i] != 0x3B && h[i] != 0x1B,
        forall|i: int| 0 <= i < msg.len() ==> #[trigger] msg[i] != 0x1B,
        h.len() + msg.len() + 6 <= usize::MAX,
    ensures
        parse_reply_spec(seq![0x1Bu8, 0x5Fu8, 0x47u8] + h + seq![0x3Bu8] + msg + seq![0x1Bu8, 0x5Cu8])
            == ReplyParse::Reply(
            Reply::KittyGraphics(msg == seq![0x4Fu8, 0x4Bu8]),
            (h.len() + msg.len() + 6) as usize,
        ),
{
    let p = h + seq![0x3Bu8] + msg;
    let b = seq![0x1Bu8, 0x5Fu8, 0x47u8] + p + seq![0x1Bu8, 0x5Cu8];
    assert(b == seq![0x1Bu8, 0x5Fu8, 0x47u8] + h + seq![0x3Bu8] + msg + seq![0x1Bu8, 0x5Cu8]);
    let k: int = p.len() as int + 3;
    assert forall|j: int| 2 <= j < k implies #[trigger] b[j] != 0x1B by {
        if j >= 3 {
            assert(b[j] == p[j - 3]);
            if j - 3 < h.len() {
                assert(p[j - 3] == h[j - 3]);
            } else if j - 3 > h.len() {
                assert(p[j - 3] == msg[j - 3 - h.len() - 1]);
            }
        }
    }
    assert(b[k] == 0x1Bu8);
    assert(b[k + 1] == 0x5Cu8);
    lemma_st_at(b, 2, k);
    assert(b.subrange(3, k) == p);
    assert forall|j: int| 0 <= j < h.len() implies #[trigger] p[j] != 0x3B by {
        assert(p[j] == h[j]);
    }
    lemma_semicolon_at(p, 0, h.len() as int);
    assert(p.subrange(h.len() as int + 1, p.len() as int) == msg);
}

/// Every keyboard-flags reply `ESC [ ? d u`, with `d` one or more decimal
/// digits spelling at most 255, is recognised as those flags (the known
/// bits of the number `d` spells, 0 included), taking the whole reply; and
/// every device-attributes reply `ESC [ ? p c`, with `p` digits and `;`, is
/// recognised as the device attributes, taking the whole reply.
pub proof fn lemma_parse_reply_recognises_replies(d: Seq<u8>, p: Seq<u8>)
    requires
        d.len() >= 1,
        all_digits(d),
        digits_value(d) <= 255,
        d.len() + 4 <= usize::MAX,
        p.len() + 4 <= usize::MAX,
        forall|i: int| 0 <= i < p.len() ==> is_digit_byte(#[trigger] p[i]) || p[i] == 0x3B,
    ensures
        parse_reply_spec(seq![0x1Bu8, 0x5Bu8, 0x3Fu8] + d + seq![0x75u8]) == ReplyParse::Reply(
            Reply::KeyboardFlags(KeyboardEnhancementFlags { bits: (digits_value(d) as u8) & 0x0F }),
            (d.len() + 4) as usize,
        ),
        parse_reply_spec(seq![0x1Bu8, 0x5Bu8, 0x3Fu8] + p + seq![0x63u8]) == ReplyParse::Reply(
            Reply::DeviceAttributes,
            (p.len() + 4) as usize,
        ),
{
    let b = seq![0x1Bu8, 0x5Bu8, 0x3Fu8] + d + seq![0x75u8];
    let k: int = d.len() as int + 3;
    assert forall|j: int| 2 <= j < k implies is_param_or_intermediate(#[trigger] b[j]) by {
        if j >= 3 {
            assert(b[j] == d[j - 3]);
            assert(is_digit_byte(d[j - 3]));
        }
    }
    assert(b[k] == 0x75u8);
    lemma_csi_final_at(b, 2, k);
    assert(b.subrange(2, k) == seq![0x3Fu8] + d);
    assert((seq![0x3Fu8] + d).drop_first() == d);

    let c = seq![0x1Bu8, 0x5Bu8, 0x3Fu8] + p + seq![0x63u8];
    let m: int = p.len() as int + 3;
    assert forall|j: int| 2 <= j < m implies is_param_or_intermediate(#[trigger] c[j]) by {
        if j >= 3 {
            assert(c[j] == p[j - 3]);
        }
    }
    assert(c[m] == 0x63u8);
    lemma_csi_final_at(c, 2, m);
    assert(c.subrange(2, m)[0] == 0x3Fu8);
}

} // verus!
