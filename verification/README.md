# Siege of Life

A two-faction siege game on Conway's Game of Life (B3/S23). Red and blue cells live on
a grid with walls, bombs and high-value targets; the player deploys red gliders and
lightweight spaceships into a deployment zone and wins a level when every high-value
target has been touched by a red cell. A simulator lets players build and try their own
levels.

## Layout

- `src/` — the rules of the game, verified with Verus:
  - `grid` — cells, coordinates and the grid, with a mathematical `Board` view;
  - `gol` — one evolution step (the generation, then bomb chain reactions), high-value
    target destruction, and laws of the evolution;
  - `patterns` — the preset patterns and their rotation;
  - `player` — deployment resources, unit placement, the unit palette;
  - `level` — level data, the level registry and progress data;
  - `state` — the game's state machine: deployment, evolution rounds, judgment,
    victories and defeats, level sessions, the simulator's trials;
  - `input` — the deployment interaction and the simulator's drawing tools;
  - `render` — what the unit preview and the deployment zone show;
  - `ui` — the decisions behind the panels and the level files.
- `tests/` — tests of the library on concrete boards and sessions.
- `app/` — the Bevy application: windows, egui screens, sprites and effects, timing,
  files on disk and native file dialogs. It hands each event to the library and applies
  what the library answers.
