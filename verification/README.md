# rpi_fft

Vibration analysis front end for a sampling micro-controller that streams ADC
samples over a simple UDP protocol, analysed by FFT.

- `src/` — the verified library (Verus):
  - `protocol` — message kinds, the start message and its acknowledgement,
    data messages, with their read-back laws;
  - `input_type` — the `TYPE` field of data messages;
  - `udpc_parse_u16`, `point` — the words of a data message, data bytes to
    time-stamped `Int` points and back;
  - `fft_enqueue` — the sample-reading decisions of the FFT analysis;
  - `receiver` — when a receiving service exits;
  - `filter`, `plot_data` — bounded queues of accepted values and plot points;
  - `s7_error` — Snap7 error codes;
  - `decimal`, `text` — decimal notation, string suffixes, C-string ends;
  - `ds_config`, `ds_db` — configuration of PLCs and their data blocks, the
    points parsed from them and each block's queue of points;
  - `udp_server` — the rebind-or-wait decisions of the UDP server loop;
  - `thread_state`, `zoom` — small state types.
- `app/` — the program around it: sockets, threads, the FFT itself, Snap7
  calls, the data server and the UDP server loop.
- `tests/` — tests of the library on concrete values.
