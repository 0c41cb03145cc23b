# Cyber Jum

A small Game Boy Advance game: walk up a forest road, get stopped by five
challengers, and beat each one's side-scrolling "Cyber Jump" level.

The crate is split in two:

- `src/` is the game's logic, written in Verus and verified: the fixed-point
  physics and collision of the platformer, the overworld's walking,
  spotting and pause menu, the typewriter dialogue, menus and volume
  settings, the title screen, the save record and the scene flow. Every
  scene is a state machine stepped once per frame; it returns what to draw
  and queues what to play as plain values.
- `app/` is the program that runs on the console with the `agb` crate: it
  reads the buttons, draws the tiles, sprites and text, feeds the mixer the
  queued sound commands and writes saves to SRAM.

Modules of the library:

| module       | what it holds                                              |
|--------------|------------------------------------------------------------|
| `fixed`      | 24.8 fixed-point numbers, floor division, sprites          |
| `input`      | the button state of this frame and the last                |
| `audio`      | volume settings and the queue of mixer commands            |
| `platformer` | level grids, hero physics, bugs, the challenge's phases    |
| `levels`     | the five levels and their challengers' lines               |
| `world_map`  | the overworld grid, walkability and tiles                  |
| `overworld`  | walking, encounters, dialogue, pause menu and saving       |
| `text`       | dialogue, banners, menus and the settings screen           |
| `title`      | the title screen and the ending                            |
| `save`       | what a saved game holds                                    |
| `game`       | which scene follows which                                  |
| `shipped`    | the proof that the five shipped levels are playable        |

`tests/` runs the library on concrete play: levels, menus, encounters,
saving and the flow between scenes.
