use awrit_native::raw_mode::{RawModeChange, RawModeState};

#[test]
fn raw_mode_round_trip() {
    let mut state: RawModeState<u32> = RawModeState::new();
    assert!(!state.is_raw_mode_enabled());
    assert_eq!(state.disable_raw_mode(), None);
    assert!(state.enable_raw_mode());
    state.record(RawModeChange::EnterFailed);
    assert!(!state.is_raw_mode_enabled());
    state.record(RawModeChange::Entered(7));
    assert!(state.is_raw_mode_enabled());
    // A second request has nothing to do and keeps the first attributes.
    assert!(!state.enable_raw_mode());
    state.record(RawModeChange::Entered(9));
    state.record(RawModeChange::LeaveFailed);
    assert!(state.is_raw_mode_enabled());
    assert_eq!(state.disable_raw_mode(), Some(&7));
    state.record(RawModeChange::Left);
    assert!(!state.is_raw_mode_enabled());
    assert_eq!(state.disable_raw_mode(), None);
}
