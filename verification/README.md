# mme

The library part of the Mize explorer UI framework, written in Verus.

- `src/error.rs` — the framework error (`MmeError`, `MmeCodeLocation`), its
  builders, the table of known error codes, the lines that logging or a
  critical stop emits, and conversion of other failures into framework errors.
- `src/implementors/html/webview_con.rs` — the wire format between host and
  webview (CBOR written as padded standard Base64) and the decisions of the
  window's event loop; `src/base64.rs` states the encoding and proves it
  injective, so that a text decodes back to exactly the bytes it was made from.
- `src/text.rs`, `src/colors.rs` — decimal numbers and coloured terminal tags.
- `src/mme.rs`, `src/cli.rs`, `src/slot.rs`, `src/presenter.rs`,
  `src/implementors/html/mod.rs` — smaller pieces: UTF-16 text from Qt,
  command-line errors, slots and presenters, command lookup.

`app/` holds the program around it: command line, logging output, the Mize
module, the native window and the browser-side module.
