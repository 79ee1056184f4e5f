# arena_fighter

The rules of a four-seat arena fighting game as a Verus library: what a fighter may
do in a tick, how guards, grabs, throws and ultimates go on, how lives are lost, and
how a match is set up, played and ended. Every function states what it returns or
changes, and Verus proves it.

- `src/` is the library. It counts ticks and holds floating-point values by their bit
  patterns: it compares them, but never computes with them. What has to be computed
  (a speed, a distance) comes in as a measured value; what changes a velocity or a
  facing goes out as a command.
- `app/` carries the commands out in floating point, and wires the rules into a
  `bevy` world.
- `tests/` runs the library on concrete matches.

## Where to look

| What | Modules |
| --- | --- |
| One fighter's tick | `step`, `start`, `technique`, `guard`, `air`, `dash`, `action` |
| Movement | `travel`, `movement`, `profile`, `bodies` |
| Between fighters | `grab`, `ultimate`, `fixed` |
| Lives and statuses | `lifecycle`, `match_state` |
| Before the match | `setup`, `loadout`, `rules`, `spawn`, `headless`, `global_input` |
| Keys and gestures | `keys`, `gestures`, `sampling`, `input` |
| What is shown | `pending`, `journal`, `presentation`, `feedback`, `pose`, `transition` |

The laws of the rules stand beside the functions that they speak of, as public proof
functions.
