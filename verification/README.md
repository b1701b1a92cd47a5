# eccodes

Safe access to GRIB files through the ecCodes C library, with its decisions verified in Verus.

- `src/` is the verified library. It holds what the bindings decide and compute: the error
  codes of ecCodes and their meaning, the codes of key types, product kinds and keys-iterator
  flags, the steps of reading a key (type and size checks, the fallback to bytes), the decoding
  of strings returned by ecCodes, the order and checks of the key reads that a grid takes
  and the layout of its values for `ndarray`, the gathering of
  nearest gridpoints, the state of a keys iterator and the key list of an index.
- `app/` holds what needs the C library, the file system and the outside crates: the ecCodes
  handles, file and memory streams, the message, keys and nearest iterators, writing to files,
  the `ndarray` arrays and the error types with their messages. It calls `src/` for every
  decision.
- `tests/` runs the verified functions on concrete values.
