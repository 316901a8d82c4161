//! The probe for kitty graphics protocol support: three capabilities tested
//! in turn, each only after the one before it passed.
use vstd::prelude::*;
use vstd::utf8::*;
use crate::tmux::{escape_bytes_for_tmux, tmux_begin_bytes, tmux_end_bytes, tmux_passthrough};

verus! {

/// Which kitty graphics capabilities the terminal has.
#[derive(Debug, Clone, Copy, PartialEq, Eq, Structural)]
pub struct KittyGraphicsSupport {
    /// Whether basic image display is supported.
    pub images: bool,
    /// Whether loading animation frames is supported.
    pub load_frame: bool,
    /// Whether frame composition is supported.
    pub composite_frame: bool,
}

/// The three tests, in the order in which they run.
#[derive(Debug, Clone, Copy, PartialEq, Eq, Structural)]
pub enum KittyTest {
    /// Load a single white pixel as an image.
    LoadImage,
    /// Load a second animation frame of it.
    LoadFrame,
    /// Composite frame 2 onto frame 1.
    CompositeFrames,
}

/// Why the probe failed; the caller holds the I/O error itself.
#[derive(Debug, Clone, Copy, PartialEq, Eq, Structural)]
pub enum KittyProbeFailure {
    /// A test could not be written or flushed to stdout.
    Write,
    /// Polling for the reply failed.
    Poll,
}

/// What a probe concludes with.
pub type KittyProbeResult = Result<KittyGraphicsSupport, KittyProbeFailure>;

/// The outcome of one poll (up to 100 ms) for a kitty graphics reply.
#[derive(Debug, Clone, Copy, PartialEq, Eq, Structural)]
pub enum KittyPoll {
    Ready,
    TimedOut,
    Failed,
}

/// What the caller reports back after carrying out an action.
#[derive(Debug, Clone, Copy, PartialEq, Eq)]
pub enum KittyProbeEvent {
    /// The test was (true) or could not be (false) written and flushed.
    Written(bool),
    /// The result of the poll.
    Polled(KittyPoll),
    /// The reply read: `Some(true)` for an `OK` status, `Some(false)` for an
    /// error status, `None` when the read failed or gave another event.
    StatusRead(Option<bool>),
}

/// What the caller must do next.
#[derive(Debug, Clone, Copy, PartialEq, Eq)]
pub enum KittyProbeAction {
    /// Write [`kitty_test_bytes`] of the test to stdout and flush.
    Send(KittyTest),
    /// Poll up to 100 ms for a kitty graphics reply.
    Poll,
    /// Read that reply.
    Read,
    /// The probe is over, with this result.
    Finish(KittyProbeResult),
}

/// Where a probe stands.
#[derive(Debug, Clone, Copy, PartialEq, Eq)]
pub enum KittyProbeStage {
    Sending(KittyTest),
    Polling(KittyTest),
    Reading(KittyTest),
    Done(KittyProbeResult),
}

/// A kitty graphics probe in progress.
#[derive(Debug, Clone, Copy, PartialEq, Eq)]
pub struct KittyProbe {
    pub stage: KittyProbeStage,
    /// What the tests so far have found.
    pub support: KittyGraphicsSupport,
}

/// No capability found.
pub open spec fn no_support() -> KittyGraphicsSupport {
    KittyGraphicsSupport { images: false, load_frame: false, composite_frame: false }
}

/// The support found once `test` has given `passed`.
pub open spec fn record_test(s: KittyGraphicsSupport, test: KittyTest, passed: bool) -> KittyGraphicsSupport {
    match test {
        KittyTest::LoadImage => KittyGraphicsSupport { images: passed, ..s },
        KittyTest::LoadFrame => KittyGraphicsSupport { load_frame: passed, ..s },
        KittyTest::CompositeFrames => KittyGraphicsSupport { composite_frame: passed, ..s },
    }
}

/// The test that follows `test`, if any.
pub open spec fn next_test(test: KittyTest) -> Option<KittyTest> {
    match test {
        KittyTest::LoadImage => Some(KittyTest::LoadFrame),
        KittyTest::LoadFrame => Some(KittyTest::CompositeFrames),
        KittyTest::CompositeFrames => None,
    }
}

/// The action that a stage waits on.
pub open spec fn kitty_pending_action(stage: KittyProbeStage) -> KittyProbeAction {
    match stage {
        KittyProbeStage::Sending(t) => KittyProbeAction::Send(t),
        KittyProbeStage::Polling(_) => KittyProbeAction::Poll,
        KittyProbeStage::Reading(_) => KittyProbeAction::Read,
        KittyProbeStage::Done(r) => KittyProbeAction::Finish(r),
    }
}

/// The end of a test: the next test runs only when this one passed.
pub open spec fn after_test(p: KittyProbe, test: KittyTest, passed: bool) -> (KittyProbe, KittyProbeAction) {
    let support = record_test(p.support, test, passed);
    if passed && next_test(test) is Some {
        let t = next_test(test)->0;
        (KittyProbe { stage: KittyProbeStage::Sending(t), support }, KittyProbeAction::Send(t))
    } else {
        let r: KittyProbeResult = Ok(support);
        (KittyProbe { stage: KittyProbeStage::Done(r), support }, KittyProbeAction::Finish(r))
    }
}

/// The probe's end with a failure.
pub open spec fn fail_probe(p: KittyProbe, f: KittyProbeFailure) -> (KittyProbe, KittyProbeAction) {
    let r: KittyProbeResult = Err(f);
    (KittyProbe { stage: KittyProbeStage::Done(r), ..p }, KittyProbeAction::Finish(r))
}

/// One step of the probe: the state after an event, and the next action.
/// An event that does not answer the pending action changes nothing.
pub open spec fn kitty_probe_next(p: KittyProbe, e: KittyProbeEvent) -> (KittyProbe, KittyProbeAction) {
    match (p.stage, e) {
        (KittyProbeStage::Sending(t), KittyProbeEvent::Written(ok)) => if ok {
            (KittyProbe { stage: KittyProbeStage::Polling(t), ..p }, KittyProbeAction::Poll)
        } else {
            fail_probe(p, KittyProbeFailure::Write)
        },
        (KittyProbeStage::Polling(t), KittyProbeEvent::Polled(poll)) => match poll {
            KittyPoll::Ready => (
                KittyProbe { stage: KittyProbeStage::Reading(t), ..p },
                KittyProbeAction::Read,
            ),
            KittyPoll::TimedOut => after_test(p, t, false),
            KittyPoll::Failed => fail_probe(p, KittyProbeFailure::Poll),
        },
        (KittyProbeStage::Reading(t), KittyProbeEvent::StatusRead(status)) => after_test(
            p,
            t,
            status == Some(true),
        ),
        _ => (p, kitty_pending_action(p.stage)),
    }
}

/// The graphics command of a test: a single white pixel as an RGB image
/// (`f=24`, direct data `t=d`, `s=1,v=1`, payload `////`, the base64 of
/// three bytes 0xFF) with a fixed id, a second frame of it, and the
/// composition of that frame onto the first.
pub open spec fn kitty_test_chars(test: KittyTest) -> Seq<char> {
    match test {
        KittyTest::LoadImage => "\x1B_Gf=24,i=4294111295,t=d,s=1,v=1,z=1;////\x1B\\"@,
        KittyTest::LoadFrame => "\x1B_Ga=f,i=4294111295,f=24,t=d,s=1,v=1,z=1,r=2;AAAA\x1B\\"@,
        KittyTest::CompositeFrames => "\x1B_Ga=c,C=1,i=4294111295,r=2,c=1,x=0,y=0,w=1,h=1\x1B\\"@,
    }
}

/// The bytes written for a test: its command, framed for passthrough inside tmux.
pub open spec fn kitty_test_spec_bytes(test: KittyTest, inside_tmux: bool) -> Seq<u8> {
    let plain = encode_utf8(kitty_test_chars(test));
    if inside_tmux {
        tmux_begin_bytes() + escape_bytes_for_tmux(plain) + tmux_end_bytes()
    } else {
        plain
    }
}

fn kitty_test_str(test: KittyTest) -> (s: &'static str)
    ensures
        s@ == kitty_test_chars(test),
{
    match test {
        KittyTest::LoadImage => "\x1B_Gf=24,i=4294111295,t=d,s=1,v=1,z=1;////\x1B\\",
        KittyTest::LoadFrame => "\x1B_Ga=f,i=4294111295,f=24,t=d,s=1,v=1,z=1,r=2;AAAA\x1B\\",
        KittyTest::CompositeFrames => "\x1B_Ga=c,C=1,i=4294111295,r=2,c=1,x=0,y=0,w=1,h=1\x1B\\",
    }
}

/// The bytes that [`KittyProbeAction::Send`] writes for a test.
pub fn kitty_test_bytes(test: KittyTest, inside_tmux: bool) -> (out: Vec<u8>)
    ensures
        out@ == kitty_test_spec_bytes(test, inside_tmux),
{
    let command = kitty_test_str(test).as_bytes();
    let plain = vstd::slice::slice_to_vec(command);
    if inside_tmux {
        proof {
            encode_utf8_valid_utf8(kitty_test_chars(test));
        }
        match tmux_passthrough(command) {
            Ok(out) => out,
            Err(_) => plain,
        }
    } else {
        plain
    }
}

/// Begins the probe with the first test.
pub fn query_kitty_graphics_support() -> (r: (KittyProbe, KittyProbeAction))
    ensures
        r.0 == (KittyProbe { stage: KittyProbeStage::Sending(KittyTest::LoadImage), support: no_support() }),
        r.1 == KittyProbeAction::Send(KittyTest::LoadImage),
        kitty_probe_wf(r.0),
{
    (
        KittyProbe {
            stage: KittyProbeStage::Sending(KittyTest::LoadImage),
            support: KittyGraphicsSupport { images: false, load_frame: false, composite_frame: false },
        },
        KittyProbeAction::Send(KittyTest::LoadImage),
    )
}

impl KittyProbe {
    fn after_test(&mut self, test: KittyTest, passed: bool) -> (a: KittyProbeAction)
        ensures
            (*final(self), a) == after_test(*old(self), test, passed),
    {
        match test {
            KittyTest::LoadImage => self.support.images = passed,
            KittyTest::LoadFrame => self.support.load_frame = passed,
            KittyTest::CompositeFrames => self.support.composite_frame = passed,
        }
        let next = match test {
            KittyTest::LoadImage => Some(KittyTest::LoadFrame),
            KittyTest::LoadFrame => Some(KittyTest::CompositeFrames),
            KittyTest::CompositeFrames => None,
        };
        match next {
            Some(t) if passed => {
                self.stage = KittyProbeStage::Sending(t);
                KittyProbeAction::Send(t)
            },
            _ => {
                let r: KittyProbeResult = Ok(self.support);
                self.stage = KittyProbeStage::Done(r);
                KittyProbeAction::Finish(r)
            },
        }
    }

    fn fail(&mut self, f: KittyProbeFailure) -> (a: KittyProbeAction)
        ensures
            (*final(self), a) == fail_probe(*old(self), f),
    {
        let r: KittyProbeResult = Err(f);
        self.stage = KittyProbeStage::Done(r);
        KittyProbeAction::Finish(r)
    }

    /// The action that the probe waits on.
    pub fn pending(&self) -> (a: KittyProbeAction)
        ensures
            a == kitty_pending_action(self.stage),
    {
        match self.stage {
            KittyProbeStage::Sending(t) => KittyProbeAction::Send(t),
            KittyProbeStage::Polling(_) => KittyProbeAction::Poll,
            KittyProbeStage::Reading(_) => KittyProbeAction::Read,
            KittyProbeStage::Done(r) => KittyProbeAction::Finish(r),
        }
    }

    /// Takes the outcome of the last action and decides the next one.
    pub fn step(&mut self, e: KittyProbeEvent) -> (a: KittyProbeAction)
        ensures
            (*final(self), a) == kitty_probe_next(*old(self), e),
    {
        match (self.stage, e) {
            (KittyProbeStage::Sending(t), KittyProbeEvent::Written(ok)) => {
                if ok {
                    self.stage = KittyProbeStage::Polling(t);
                    KittyProbeAction::Poll
                } else {
                    self.fail(KittyProbeFailure::Write)
                }
            },
            (KittyProbeStage::Polling(t), KittyProbeEvent::Polled(poll)) => match poll {
                KittyPoll::Ready => {
                    self.stage = KittyProbeStage::Reading(t);
                    KittyProbeAction::Read
                },
                KittyPoll::TimedOut => self.after_test(t, false),
                KittyPoll::Failed => self.fail(KittyProbeFailure::Poll),
            },
            (KittyProbeStage::Reading(t), KittyProbeEvent::StatusRead(status)) => {
                let passed = match status {
                    Some(ok) => ok,
                    None => false,
                };
                self.after_test(t, passed)
            },
            _ => self.pending(),
        }
    }
}

/// The invariant of a probe: a capability counts only if every test before
/// it passed, and a running test has all earlier ones passed and none of
/// its own or later ones recorded.
pub open spec fn kitty_support_ordered(s: KittyGraphicsSupport) -> bool {
    &&& s.load_frame ==> s.images
    &&& s.composite_frame ==> s.load_frame
}

/// The support that the tests before `test` leave when all of them passed.
pub open spec fn support_before(test: KittyTest) -> KittyGraphicsSupport {
    match test {
        KittyTest::LoadImage => no_support(),
        KittyTest::LoadFrame => KittyGraphicsSupport { images: true, ..no_support() },
        KittyTest::CompositeFrames => KittyGraphicsSupport {
            images: true,
            load_frame: true,
            composite_frame: false,
        },
    }
}

/// The invariant of a probe state.
pub open spec fn kitty_probe_wf(p: KittyProbe) -> bool {
    match p.stage {
        KittyProbeStage::Sending(t) => p.support == support_before(t),
        KittyProbeStage::Polling(t) => p.support == support_before(t),
        KittyProbeStage::Reading(t) => p.support == support_before(t),
        KittyProbeStage::Done(r) => kitty_support_ordered(p.support) && (r matches Ok(s) ==> s
            == p.support),
    }
}

/// Each capability is tested only after the ones before it passed: every
/// step keeps the invariant, so the support that the probe reports never
/// claims frame loading without images, nor composition without frames;
/// and a test is sent only when all earlier tests passed.
pub proof fn lemma_kitty_probe_ordered(p: KittyProbe, e: KittyProbeEvent)
    requires
        kitty_probe_wf(p),
    ensures
        kitty_probe_wf(kitty_probe_next(p, e).0),
        kitty_probe_next(p, e).1 matches KittyProbeAction::Finish(Ok(s)) ==> kitty_support_ordered(s),
        kitty_probe_next(p, e).1 matches KittyProbeAction::Send(t) ==> kitty_probe_next(p, e).0.support
            == support_before(t),
{
}

/// A capability is reported exactly as its own test came out: reading an
/// `OK` status passes the running test and anything else fails it, a
/// time-out fails it, and the other capabilities keep what earlier tests
/// found. A passed test is followed by the next one; after a failed test,
/// or after the last one, the probe finishes with the support found.
pub proof fn lemma_kitty_test_outcome(p: KittyProbe, test: KittyTest, status: Option<bool>, timed_out: bool)
    requires
        p.stage == KittyProbeStage::Reading(test) || (timed_out && p.stage == KittyProbeStage::Polling(test)),
    ensures
        ({
            let e = if timed_out && p.stage == KittyProbeStage::Polling(test) {
                KittyProbeEvent::Polled(KittyPoll::TimedOut)
            } else {
                KittyProbeEvent::StatusRead(status)
            };
            let passed = !(timed_out && p.stage == KittyProbeStage::Polling(test)) && status == Some(true);
            let (p1, a1) = kitty_probe_next(p, e);
            let s0 = p.support;
            let s1 = p1.support;
            &&& s1.images == (if test == KittyTest::LoadImage { passed } else { s0.images })
            &&& s1.load_frame == (if test == KittyTest::LoadFrame { passed } else { s0.load_frame })
            &&& s1.composite_frame == (if test == KittyTest::CompositeFrames { passed } else { s0.composite_frame })
            &&& (passed && test == KittyTest::LoadImage ==> a1 == KittyProbeAction::Send(KittyTest::LoadFrame))
            &&& (passed && test == KittyTest::LoadFrame ==> a1 == KittyProbeAction::Send(KittyTest::CompositeFrames))
            &&& (!passed || test == KittyTest::CompositeFrames ==> a1 == KittyProbeAction::Finish(Ok(s1)))
        }),
{
}

/// Once finished, a probe stays finished with the same result.
pub proof fn lemma_kitty_probe_finish_is_final(p: KittyProbe, e: KittyProbeEvent)
    requires
        p.stage is Done,
    ensures
        kitty_probe_next(p, e) == (p, KittyProbeAction::Finish(p.stage->Done_0)),
{
}

} // verus!
