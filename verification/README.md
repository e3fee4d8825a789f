# fuite

The rules of Fuite, a small 2D game: Hums must reach a Rocket before the
bad Hums catch them, and sometimes some must be left behind.

`src/` is a Verus library holding the game's decisions, each with a
contract proved by Verus:

- `resources::levels`: the level resource and its lifecycle states;
- `states`: the starting screen, the level loading screen and the game
  screen, as state machines that tell the engine what to do;
- `systems::levels`: the level manager and the level load, unload and
  restart rules;
- `systems::bots`: who fights whom, what a bad Hum does, hops, deaths and
  mouse clicks;
- `components::rocket`: boarding the Rocket and its take off;
- `systems::text`: every text the player reads, with a verified decimal
  writer;
- `systems::player_input`: press detection on input actions and the camera
  axes;
- `systems::fps`: when the FPS text is refreshed.

`app/` is the game around the library: the engine's systems and states,
physics, camera, rendering and logging, which are floating point or engine
code. `tests/` exercises the library on concrete values.
