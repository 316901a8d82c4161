# awrit_native

Terminal handling for awrit, as a verified library and a thin Node binding.

- `src/` (verified with Verus): tmux passthrough escaping and framing
  (`tmux`), the keyboard-enhancement query (`keyboard`) and kitty graphics
  probe (`kitty`) as step machines, raw-mode bookkeeping (`raw_mode`),
  window-size fallbacks (`size`), recognition of the terminal's replies
  (`reply`), and the command plans that switch awrit's terminal features on
  and off (`term`).
- `app/`: the I/O that those machines and plans call for (tty, termios,
  `tput`, environment, log file) and the napi exports.
