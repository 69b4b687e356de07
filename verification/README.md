# tomotroid

The logic of a Pomodoro timer, verified with Verus.

- `src/settings.rs`: the settings file and the settings the window shows, and the changes the
  window makes to them.
- `src/timer.rs`: focus rounds, short and long breaks, the timer actions and the notification
  shown when a timer ends; the full-cycle law.
- `src/window.rs`: the window state (`Main`) and its operations, and the global-shortcut
  dispatch.
- `src/theme.rs`: themes, the logo and progress-circle SVG text in a theme's colours.
- `src/color.rs`, `src/text.rs`: `#RRGGBB` notation, decimal notation, pattern replacement.
- `app/`: the program around the library: single instance, files, shortcuts, notifications.
