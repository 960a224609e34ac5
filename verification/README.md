# fmod_rs

The value-level core of safe FMOD bindings, written in Verus and proved
against its contracts.

`src/` (verified):

- `flags` — flag sets over a `u32` mask with the bitwise operators and
  `is_set`, and the laws of the set algebra they form.
- `strict_enum` — enums whose raw `i32` values fill a range `[min, max)`:
  definition checks, and the raw conversions, with the proof that every raw
  value in range names exactly one variant.
- `typedef_enum` — open enums, where every raw value is valid.
- `constants` — named constants of a raw-valued type: what `Debug` prints and
  what `Default` picks.
- `structs` — layout agreement of a mirror struct with its C struct.
- `class` — `Debug` text of resource handles, the snake-case module of a class,
  and which classes release their handle.
- `macros` — index conversion and its panic message, the debug-only panic
  policy, documentation callouts, precondition messages.
- `version`, `header`, `link`, `build_helper` — the build-time decisions: the
  FMOD version (from the header line and from the version string), the
  compiler configuration published for it, the headers to bind with their
  fix-ups, the library file and frameworks to
  link, and the SDK paths on Windows.
- `text` — decimal and hexadecimal rendering.

`app/` holds the I/O around it: registry reads, the build scripts' environment
and directives, and the panics and log lines the library decides on.
