# midi_event

Reads and writes the events of Standard MIDI File tracks, with running status.

- `primitive`, `input`, `varlen`, `smpte`: integers of 4 to 28 bits, fixed and variable lengths, byte
  strings and SMPTE times.
- `midi`, `meta`, `event`: the messages and events, and their readers and writers.
- `error`: what goes wrong, and how strictly input is judged.
- `laws`: what holds of reading and writing together.

Every reader is specified by what it leaves of its input and what comes of it, in success and in
failure, and every writer by the bytes that it appends. `app` writes events to any `std::io::Write`.

A reader refuses input that ends too early. It ignores the top bits of integers that have room for
fewer, and refuses an integer of variable length that goes on after four bytes.
