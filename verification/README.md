# league_sim

A simulator of League of Legends champion combos and item builds (Kha'Zix for now), whose
timeline logic is verified with Verus.

- `src/` is the verified library: the event queue and its ordering, the simulation state
  (cooldowns, auras on both units, recast charges), the steps of the timeline (advancing the
  clock, starting and ending casts, movement), the scheduling of the next command with
  auto-attack weaving, the reactions of item passives and runes, the reading of item and
  spell data, the enumeration of candidate builds with their checks (item groups, gold
  cap), and the checks that tell whether a step of the timeline can be taken.
- `app/` is the program around it: it reads the game data files, computes the
  floating-point statistics and damage amounts, runs the event loop by calling the
  library's steps (testing beforehand that each step can be taken), and ranks builds and
  combos.
- `tests/` exercises the library.

The game data files (`items.json`, `items_formatted.json`, `champions/Khazix.json`) are read
from the directory named by `LEAGUE_SIM_DATA` (by default `game_data`).
