# volo_ai

The decision logic of a bot for Screeps: World, written in Verus and proved
against its contracts.

The library (`src/`) decides on plain values: each creep's role picks a task,
each task's step turns what the creep sees into intents (`Order`s) and what
becomes of the task, and the creep loop decides what to keep, report or
retire. Bodies, room names, requests, power creep actions and the combat,
logistics and harvesting steps live there, each with a contract over spec
functions, and laws that relate them are proved as proof functions.

- `src/geometry.rs`, `src/rooms.rs`, `src/names.rs`: positions, ranges, room
  kinds and room names (read with `regex`, written as `screeps` writes them).
- `src/body.rs`: creep bodies (an `arrayvec::ArrayVec` of parts), their cost,
  growth and ordering.
- `src/tasks.rs` and `src/tasks/`: the tasks, one step function each, the
  intents they issue and how an awaited intent's outcome resumes them.
- `src/roles.rs` and `src/roles/`: the roles and how each picks its task.
- `src/requests.rs`, `src/shelter.rs`: room requests and what a role reads of
  its home room.
- `src/creeps.rs`, `src/power.rs`: the creep loop's decisions and the power
  creep's chain of actions.

`app/` is the game side: it reads the world into the library's values, asks
each creep's role for a task and records the requests it joins, carries out
the intents, and runs one tick of every creep and power creep
(`run_creeps`, `run_power_creeps`). The home rooms' state, which gives the
roles their view through the `HomeRoom` trait, and the game-loop entry that
calls these functions each tick belong to the rest of the bot. `tests/` runs
the library on concrete values.
