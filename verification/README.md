# gubtool

A memory tool for Dark Souls II and Elden Ring on Linux: it finds the game
process, recognises the release from the executable's version resource, scans
for byte patterns, builds the machine-code patches and hooks that it writes
into the game, and follows the game's event log.

- `src/` is the library, verified with Verus: byte-buffer encoding
  (`slice_ops`), pattern scanning (`aob_scanner`), process recognition and
  attachment (`attached`), the patches of each game (`ds2`, `er`, `patch`),
  the event and error logs, decimal text, and the decisions of the interface
  (`tui`, `cli`, `config`).
- `app/` is the program around it: command line, `/proc` access, reading and
  writing process memory, scan threads, configuration and log files.
- `tests/` exercises the library on concrete values.

## Design notes

- The assembled functions of a folder (`utils_object::AsmFolder`) are kept in
  a `Vec` whose names are pairwise distinct, the last function of a name
  winning, rather than in a `HashMap` keyed by `String`. vstd specifies
  `HashMap` only for key types that obey its key model (integers, `bool` and
  boxes of them); for `String` keys nothing about the map's contents could be
  proved, while the `Vec` lets the folder's lookup be stated and proved
  exactly.
- The `/proc` formats that recognise a game process (the lines of
  `/proc/<pid>/maps`, the entries of `/proc/<pid>/environ`) are parsed by
  verified functions on bytes (`attached::proc_text`); `app/` only reads the
  files.
- The product version of an executable is read by `pelite`, which finds the
  version resource; the fixed file information in it is decoded by a verified
  function on the resource's bytes.
