# smearor_wrot

The logic of a GTK widget that embeds a Wayland compositor, written in Verus and
proved against its contracts.

- `src/` is the verified library: 8-bit colors and their hexadecimal text,
  integer geometry, BGRA/RGBA pixel buffers and the ranking of their colors,
  clipboard text conversion, keyboard layout reports and the order in which
  they are asked, margins, and the decisions the widget takes while rendering
  surfaces and handling input. Calls into `dashmap` and `image`, and the few
  `std` calls that vstd does not specify, stand behind small trusted wrappers
  whose doc comments say what is assumed of them.
- `app/` holds what the verifier cannot take: floating-point colors, masks and
  rectangles, the serde forms of the configuration file and of compositor
  messages, writing PNG files, and running the system tools that report the
  keyboard layout.
- `tests/` runs the library on concrete values.

`gtk4`, `glib`, `smithay` and `tokio` (and the system libraries they need) are
not available where this crate is built, so the widget itself, its event
controllers, its texture rendering and the host clipboard glue are not written
here. The decisions they take are in `src/` (`surface_render`, `input`,
`widget_state`, `ClipboardSyncState`), ready to be driven by that glue; nothing
in `app/` drives them yet.
