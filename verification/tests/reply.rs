use awrit_native::keyboard::KeyboardEnhancementFlags;
use awrit_native::reply::{parse_reply, reply_flags, reply_kitty_status, Reply, ReplyFilter, ReplyParse};

#[test]
fn keyboard_flags_reply() {
    assert_eq!(
        parse_reply(b"\x1B[?15u"),
        ReplyParse::Reply(Reply::KeyboardFlags(KeyboardEnhancementFlags { bits: 15 }), 6)
    );
    assert_eq!(
        parse_reply(b"\x1B[?31urest"),
        ReplyParse::Reply(Reply::KeyboardFlags(KeyboardEnhancementFlags { bits: 15 }), 6)
    );
    assert_eq!(parse_reply(b"\x1B[?256u"), ReplyParse::Skip(7));
    assert_eq!(parse_reply(b"\x1B[?u"), ReplyParse::Skip(4));
}

#[test]
fn device_attributes_reply() {
    assert_eq!(parse_reply(b"\x1B[?62;22c"), ReplyParse::Reply(Reply::DeviceAttributes, 9));
    assert_eq!(parse_reply(b"\x1B[62c"), ReplyParse::Skip(5));
}

#[test]
fn kitty_replies() {
    assert_eq!(
        parse_reply(b"\x1B_Gi=4294111295;OK\x1B\\"),
        ReplyParse::Reply(Reply::KittyGraphics(true), 20)
    );
    assert_eq!(
        parse_reply(b"\x1B_Gi=1;ENOENT:no such\x1B\\"),
        ReplyParse::Reply(Reply::KittyGraphics(false), 23)
    );
    assert_eq!(parse_reply(b"\x1B_Xabc\x1B\\"), ReplyParse::Skip(8));
}

#[test]
fn incomplete_and_other_input() {
    assert_eq!(parse_reply(b""), ReplyParse::Incomplete);
    assert_eq!(parse_reply(b"\x1B"), ReplyParse::Incomplete);
    assert_eq!(parse_reply(b"\x1B[?1"), ReplyParse::Incomplete);
    assert_eq!(parse_reply(b"\x1B_Gi=1;OK"), ReplyParse::Incomplete);
    assert_eq!(parse_reply(b"abc"), ReplyParse::Skip(1));
    assert_eq!(parse_reply(b"\x1Bx"), ReplyParse::Skip(1));
}

#[test]
fn reply_stays_the_same_with_more_bytes() {
    let a = parse_reply(b"\x1B[?1u");
    let b = parse_reply(b"\x1B[?1u\x1B[?62c");
    assert_eq!(a, b);
}

#[test]
fn filters() {
    let flags = Reply::KeyboardFlags(KeyboardEnhancementFlags { bits: 1 });
    assert!(ReplyFilter::KeyboardEnhancementFlags.accepts(&flags));
    assert!(ReplyFilter::KeyboardEnhancementFlags.accepts(&Reply::DeviceAttributes));
    assert!(!ReplyFilter::KeyboardEnhancementFlags.accepts(&Reply::KittyGraphics(true)));
    assert!(ReplyFilter::PrimaryDeviceAttributes.accepts(&Reply::DeviceAttributes));
    assert!(!ReplyFilter::PrimaryDeviceAttributes.accepts(&flags));
    assert!(ReplyFilter::KittyGraphics.accepts(&Reply::KittyGraphics(false)));
    assert_eq!(reply_flags(flags), Some(KeyboardEnhancementFlags { bits: 1 }));
    assert_eq!(reply_flags(Reply::DeviceAttributes), None);
    assert_eq!(reply_kitty_status(Reply::KittyGraphics(true)), Some(true));
    assert_eq!(reply_kitty_status(flags), None);
}
