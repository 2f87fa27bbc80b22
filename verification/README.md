# systemsettings

The verified core of the TontooOS Settings app.

- `src/daemon/`: the settings-daemon protocol. `request.rs` writes request
  frames (one line of compact JSON per operation), `reply.rs` reads reply
  frames and picks each operation's payload, `json.rs` reads one level of
  JSON through `serde_json`, and `mod.rs` holds the daemon's state types
  with the defaults the pages fall back to.
- `src/views/`: the decisions of the settings pages: navigation history and
  page titles (`root`), refresh rates and display requests (`displays`),
  Wi-Fi page states and rows (`wifi`), fill modes and thumbnail names
  (`wallpaper`), wallpaper packs and accents (`customize`), the General
  rows (`general`), the clock text (`datetime`), region and keyboard
  pickers (`locale`), and the About facts parsed from system files
  (`about`).
- `src/text.rs`: the string operations the rest is built on, each with a
  specification over character sequences.
- `app/`: the program around the library: the daemon socket client with
  serde decoding, file and `df` readers, and size texts in floating point.
- `tests/`: tests of the library on concrete values.
