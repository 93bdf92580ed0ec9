# pumpkin (verified decision logic)

Verus library for three behaviours of the Pumpkin Minecraft server:

- `src/leaves.rs`: leaf decay. The distance of a leaf to the nearest log, what
  placing a leaf yields, when a neighbour update schedules a recompute, and
  what a scheduled tick does (keep, decay, or write a new distance), with the
  laws of the rule (a log neighbour gives distance 1, persistent leaves never
  decay, a tick is stable, the order of neighbours does not matter).
- `src/frog.rs`: frog variants, how they are saved and loaded by name, the
  goals of a new frog, feeding, and the data sent when its tracker starts.
- `src/terminal.rs`: the snapshot of the terminal attributes taken before the
  console enters raw mode, and what is restored on exit.

The world, entity and terminal I/O are the caller's: `app/` holds the libc
calls that read and set the attributes of standard input around
`src/terminal.rs`. Tests are under `tests/`.
