# asr33emu

An ASR-33 Teletype emulator with paper-tape reader and punch, talking to a host
over a serial line. The machine's behaviour is a library verified with Verus; a
thin egui program drives it.

## Layout

- `src/` — the verified library.
  - `domain/` — the machine: printer and paper history (`terminal`), byte pacing
    at 10 characters per second and LINE/LOCAL routing (`throttle`), paper-tape
    reader, punch and trailer detection (`paper_tape`), the sound cues
    (`audio`), configuration and its validation (`config`).
  - `app/` — the runtime that joins terminal, throttle and transport, the
    reader feed that paces tape bytes into it, startup, and the Settings
    draft/apply/save state.
  - `adapters/` — the transport interface, serial line settings, PCM WAV
    decoding, the recording library and the margin-bell policy.
  - `ui/` — input routing and shortcuts, the REPT key repeat, keyboard
    encoding, panel placement, tape rows, theme colours and the Settings view's
    state.
- `app/` — the program: command line, YAML file, the serial port and its worker
  thread, the audio worker, the window and everything measured in pixels.
- `tests/` — tests of the library on concrete values.
