# superapp_openmls

A command bridge that keeps one MLS group state per device. It reads one JSON
request on standard input (create a group, add or remove a member, encrypt,
decrypt, report a group), runs it against per-device SQLite stores under a state
directory, and prints one JSON answer.

## Layout

- `src/` is the verified library, written in Verus:
  - `text`, `hex`, `layout`: string assembly, hexadecimal device names and the
    paths of each device's files;
  - `codec`, `wire`: base64 and MLS message decoding, behind trusted wrappers
    around the `base64`, `openmls` and `tls_codec` crates;
  - `identity`: the decisions of loading or creating a device's signing identity;
  - `exchange`, `plan`, `session`: requests, actions, events and replies, the
    mathematical model of a request session, and the executable session that
    follows it step by step;
  - `laws`: properties of every session, proved over the model.
- `app/` is the program around it: argument handling, files, the SQLite-backed
  OpenMLS provider, JSON, and the loop that performs each action a session hands
  out and reports the outcome back as an event.
- `tests/` runs the library on concrete values, including full group lifecycles
  with real OpenMLS groups held in memory.
