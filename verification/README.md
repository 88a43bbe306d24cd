# oreos

The logic of the OREOS robotics firmware tooling, written in Verus and
proved against its contracts.

- `src/` is the verified library:
  - `casing`, `text`, `bits`: name casing, character and bit-field helpers;
  - `drivers/`: the TMC2209 and TMC2160 register sequences and decoders,
    the step/dir pulse generator, the LED and driver backends' decisions;
  - `hal`, `transport`, `config`, `deprecated`: the device model and the
    decisions of the transport task;
  - `cli/`: the `OREOS.toml` model, the metadata table, the sync diff and
    its application, the code templates and the generator;
  - `metadata`, `registry`: stable component identities and the token
    registry the macros share;
  - `codegen/`: the expansions of the derive and attribute macros, from a
    plain model of the item to the generated source text.
- `app/` is the command line program and the asynchronous, I/O and
  macro-entry glue around the library.
- `tests/` exercises the library on concrete values.
