# ab-av1

The decisions of the `ab-av1` encoder front end, verified with Verus.

- `src/command/worker_protocol.rs`: the messages between a worker and its coordinator, and their form in JSON
- `src/command/worker.rs`, `src/command/worker/`: the worker as a state machine, and the laws that it obeys
- `src/command/encode.rs`, `src/command/encode/`: where an output goes, what is checked before an encode, the encode and the run of a planned encode as state machines, the summary, and their laws
- `src/command/print_completions.rs`: which completions are printed
- `src/temporary.rs`: the temporary workspace
- `src/json.rs`, `src/path.rs`, `src/text.rs`, `src/delay.rs`: what the others rest on

`app/` performs what the state machines ask for: it opens websockets, runs processes and moves files. It is generic over the access to ffmpeg and ffprobe.

Paths are text in the library. What the contracts say of a path they say of the reading that the system has of it, that of Unix or that of Windows; portable paths are read alike by both.
