# paperclip

A macOS clipboard viewer: a window whose text field shows the text on the
general pasteboard and follows it as it changes.

- `src/` is the verified library (Verus):
  - `timestamp.rs`: the `[seconds.milliseconds]` prefix of log lines;
  - `clipboard.rs`: whether clipboard text is shown or replaced by a
    placeholder (text that looks like terminal output), and the hexadecimal
    form of the examined bytes;
  - `monitor.rs`: the polling state machine that notices pasteboard changes;
  - `text.rs`: digit characters and string building.
- `app/` is the AppKit program around it: windows, the pasteboard, threads
  and printing.
- `tests/` runs the library on concrete values.
