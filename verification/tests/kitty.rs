use awrit_native::kitty::{
    kitty_test_bytes, query_kitty_graphics_support, KittyGraphicsSupport, KittyPoll,
    KittyProbeAction, KittyProbeEvent, KittyProbeFailure, KittyTest,
};

#[test]
fn test_commands() {
    assert_eq!(
        kitty_test_bytes(KittyTest::LoadImage, false),
        b"\x1B_Gf=24,i=4294111295,t=d,s=1,v=1,z=1;////\x1B\\".to_vec()
    );
    assert_eq!(
        kitty_test_bytes(KittyTest::LoadFrame, false),
        b"\x1B_Ga=f,i=4294111295,f=24,t=d,s=1,v=1,z=1,r=2;AAAA\x1B\\".to_vec()
    );
    assert_eq!(
        kitty_test_bytes(KittyTest::CompositeFrames, false),
        b"\x1B_Ga=c,C=1,i=4294111295,r=2,c=1,x=0,y=0,w=1,h=1\x1B\\".to_vec()
    );
    assert_eq!(
        kitty_test_bytes(KittyTest::LoadImage, true),
        b"\x1BPtmux;\x1B\x1B_Gf=24,i=4294111295,t=d,s=1,v=1,z=1;////\x1B\x1B\\\x1B\\".to_vec()
    );
}

fn run(mut statuses: Vec<Option<bool>>) -> KittyGraphicsSupport {
    let (mut p, mut a) = query_kitty_graphics_support();
    statuses.reverse();
    loop {
        a = match a {
            KittyProbeAction::Send(_) => p.step(KittyProbeEvent::Written(true)),
            KittyProbeAction::Poll => p.step(KittyProbeEvent::Polled(KittyPoll::Ready)),
            KittyProbeAction::Read => p.step(KittyProbeEvent::StatusRead(statuses.pop().unwrap())),
            KittyProbeAction::Finish(r) => return r.unwrap(),
        };
    }
}

#[test]
fn all_capabilities() {
    let s = run(vec![Some(true), Some(true), Some(true)]);
    assert_eq!(s, KittyGraphicsSupport { images: true, load_frame: true, composite_frame: true });
}

#[test]
fn later_tests_skipped_after_a_failure() {
    let s = run(vec![Some(true), Some(false)]);
    assert_eq!(s, KittyGraphicsSupport { images: true, load_frame: false, composite_frame: false });
    let s = run(vec![None]);
    assert_eq!(s, KittyGraphicsSupport { images: false, load_frame: false, composite_frame: false });
}

#[test]
fn first_action_and_timeout() {
    let (mut p, a) = query_kitty_graphics_support();
    assert_eq!(a, KittyProbeAction::Send(KittyTest::LoadImage));
    assert_eq!(p.step(KittyProbeEvent::Written(true)), KittyProbeAction::Poll);
    assert_eq!(
        p.step(KittyProbeEvent::Polled(KittyPoll::TimedOut)),
        KittyProbeAction::Finish(Ok(KittyGraphicsSupport {
            images: false,
            load_frame: false,
            composite_frame: false
        }))
    );
}

#[test]
fn failures() {
    let (mut p, _) = query_kitty_graphics_support();
    assert_eq!(
        p.step(KittyProbeEvent::Written(false)),
        KittyProbeAction::Finish(Err(KittyProbeFailure::Write))
    );
    let (mut p, _) = query_kitty_graphics_support();
    p.step(KittyProbeEvent::Written(true));
    assert_eq!(
        p.step(KittyProbeEvent::Polled(KittyPoll::Failed)),
        KittyProbeAction::Finish(Err(KittyProbeFailure::Poll))
    );
}
