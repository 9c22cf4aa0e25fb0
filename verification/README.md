# RustyDasher

A small arcade game (collect stars, dodge hazards, dash) built on Bevy.

- `src/` is the `rusty_dasher` library, verified with Verus: game modes and
  difficulties, run statistics (combo, points, levels, hearts), high scores,
  viewport classification, menu and touch decisions, the screenshot script,
  the xorshift random generator, mesh index buffers and the QA query-string
  switches. Every public function carries a `requires` / `ensures` contract;
  the `law_*` proof functions state properties that span several calls.
- `tests/` exercises the library on concrete values.
- `app/` is the Bevy game: ECS systems, rendering, audio, floating-point
  motion and layout, and file / browser I/O. It calls the library for every
  rule above.
