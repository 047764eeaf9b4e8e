# tosub

Subsystems for [tokio](https://tokio.rs/): parts of a program that run beside each other and are
stopped together.

- `src/` is the library, verified with [Verus](https://github.com/verus-lang/verus). It decides what
  happens: who is asked to stop, what a run ends with, what is traced. It runs no tasks.
- `app/` runs the tasks: it spawns them, waits, listens for signals and reads standard input, and
  asks the library what to do.
- `tests/` exercises the library with the real tokens and tasks.
