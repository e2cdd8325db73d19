# flyout_lite

A lightweight Windows 11 media flyout: a small card with the current track's
art, title and artist, transport buttons and a seek bar, shown when a media
key is pressed or when a player changes track.

The logic of the flyout is a library verified with Verus (`src/`):

- `text` — whitespace trimming, decimal rendering and decimal parsing with
  the acceptance rules of the standard library's integer parsing.
- `config` — the settings, their `key=value` storage format, loading and
  saving; proved: stored settings load back unchanged.
- `app` — the state of the current track and its updates.
- `media` — when a session event pops the flyout up, and how session data
  becomes track state.
- `flyout` — placement on screen, hit-testing, seeking, and the show/hide
  animation state machine.
- `render` — colours, time labels, button glyphs, the layout of the
  clickable regions and which album art needs decoding.
- `settings` — the settings window's anchor picker (nine positions and a
  custom one), colours, clicks, numeric field editing, the startup toggle
  and the save confirmation.
- `hotkey` — which key presses the keyboard hook reports.

`app/` is the Windows program around it: the message loop, the keyboard
hook, the tray icon, Direct2D drawing, the media-session callbacks, the
registry and file access.
