# zero_gesture

The verified core of the Zero Gesture mouse-gesture engine, written in Verus.

- `src/` is the library. Every function carries a `requires`/`ensures`
  contract that Verus proves. It holds the Engine control protocol (message
  model, byte layout, codec with proved round-trip and canonical-form laws,
  framing, the server's per-connection state machine, the client's reading
  of answers, endpoint safety checks) and the input path (bounded FIFO lanes, the native
  owner's effect queues, the macOS event-tap queue, Win32 message mapping,
  window-context resolution and mailboxes, application matching, gesture
  binding resolution).
- `tests/` exercises the library on concrete values.
- `app/` is a small command-line program around the library: it queries or
  stops an Engine over a Unix socket, or serves that socket itself, and
  holds what the verifier cannot take (socket and file I/O, serde output).

Calls into `std` and `regex` whose behaviour is not proved here sit behind
small trusted wrappers, each documented where it is declared.
