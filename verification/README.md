# workspace_appearance

The rules behind the look of a workspace window, verified with Verus:

- `color`: colors in fixed point, blending, opacity as a percentage, and the
  `#rrggbbaa` text of a color.
- `theme`: theme colors, the settings that override them, and their keys.
- `sections`: the parts of a window whose opacity is set together.
- `transparency_blur`: edits of the overrides, and what the settings pages show.
- `floating_panel`: size and dismissal of a panel that is shown as an overlay.
- `laws`: what holds of edits in sequence and of reads after writes.
- `text`, `rounding`: text that is read or written, and division with rounding.

`app/` draws the pages and the overlay with the user interface toolkit and
stores the settings. `tests/` runs the library.
