use awrit_native::size::{
    size, tput_size, tput_value, wrap_with_result, SyscallFailed, WindowSize,
};

#[test]
fn tput_values() {
    assert_eq!(tput_value(b"80\n"), Some(80));
    assert_eq!(tput_value(b" 1x2 4\n"), Some(124));
    assert_eq!(tput_value(b"0\n"), None);
    assert_eq!(tput_value(b""), None);
    assert_eq!(tput_value(b"65535"), Some(65535));
}

#[test]
fn tput_values_beyond_u16() {
    assert_eq!(tput_value(b"70000\n"), None);
    assert_eq!(tput_value(b"65536\n"), None);
    assert_eq!(tput_value(b"9999999999999"), None);
    assert_eq!(tput_value(b"abc"), None);
}

#[test]
fn tput_sizes() {
    assert_eq!(tput_size(Some(80), Some(24)), Some((80, 24)));
    assert_eq!(tput_size(Some(80), None), None);
    assert_eq!(tput_size(None, Some(24)), None);
}

#[test]
fn size_prefers_window() {
    let w = WindowSize::from_winsize(24, 80, 800, 480);
    assert_eq!(w, WindowSize { rows: 24, columns: 80, width: 800, height: 480 });
    assert_eq!(size(Some(w), Some((1, 2))), Some((80, 24)));
    assert_eq!(size(None, Some((1, 2))), Some((1, 2)));
    assert_eq!(size(None, None), None);
}

#[test]
fn syscall_results() {
    assert_eq!(wrap_with_result(-1), Err(SyscallFailed));
    assert_eq!(wrap_with_result(0), Ok(()));
    assert_eq!(wrap_with_result(3), Ok(()));
}
