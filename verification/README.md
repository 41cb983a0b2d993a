# flutz_app

The logic of flutzPlayer, a desktop player for MIDI files, FMID projects and decoded
audio, as a library that Verus verifies.

- `src/` is the library. Each public function states what it returns or changes; the
  public proof functions state what holds of several of them together.
  - `launch`, `tools`, `dat`: the command line, the console tools and the data folder.
  - `playback`: scanning MIDI files, choosing and loading soundfonts, routing stems into
    the mixer, playing decoded audio, latency control and diagnostics.
  - `desktop`: what the player's windows show and edit: the mixer, loops, presets,
    metadata, playlists, projects and saving.
  - `memory_runtime`, `allocator`, `allocation_trace`, `perf_trace`, `perf_snapshots`:
    arenas and their upkeep, allocation counts, and the traces.
  - `text`, `json`, `numbers`, `parse`, `sorted`, `bounded`, `text_map`, `level`: what the
    rest is built on.
- `tests/` runs the library on concrete values.
- `app/` is the program around it: `main`, files, the window, the allocator and the calls
  into the crates of the player's workspace.

Floating-point values do not appear in the library. Levels are the bits of an `f32` and
times those of an `f64`; where a number is only shown, it comes as text.
