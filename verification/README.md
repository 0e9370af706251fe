# punktfunk_core

The decisions of a low-latency game-streaming client and of the display tools
around it, written in Verus: every item under `src/` is verified.

- `src/abr/` - automatic bitrate. `driver` takes events and returns actions;
  `controller`, `act` and `decide` hold the rate logic, one module each for what
  it learns (`cap`, `host`, `decoder`, `encoder`, `wall`, `norms`, `drain`),
  `capacity` and `probe` for the startup measurement. `laws` says what holds of
  the whole, `session` and `exchange` what holds over every run of events.
- `src/client/` - the session: the hand-off queue, loss recovery, the datagram
  router, the pump's jump to the live edge, the control stream, gamepad
  snapshots, the speed test.
- `src/abi/` - the flat records embedders in other languages exchange.
- `src/display/` - topology holds, monitor device nodes, connector emulation and
  the crash journals.
- `app/` - clocks, threads, sockets, files and pointers around the library.
- `tests/` - what the library does on concrete values.

Time is a plain number of nanoseconds: whoever calls the library reads the
clock. Counters that only ever grow stay at their maximum instead of wrapping
where a session could never reach it.
